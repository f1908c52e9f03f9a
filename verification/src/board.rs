//! The board: the list of groups, which it alone adds to and renames.

use vstd::prelude::*;

use crate::event::KeyDown;
use crate::group::{views, GroupProps, GroupPropsView, GroupView};
use crate::naming::{placeholder_name, spec_placeholder_name};
use crate::palette::{Color, PALETTE_LEN};

verus! {

/// What the board records of one group.
#[derive(Debug, PartialEq, Eq)]
pub struct GroupData {
    pub name: String,
    pub color: Color,
}

/// Model of a [`GroupData`].
pub struct GroupDataView {
    pub name: Seq<char>,
    pub color: Color,
}

impl View for GroupData {
    type V = GroupDataView;

    open spec fn view(&self) -> GroupDataView {
        GroupDataView { name: self.name@, color: self.color }
    }
}

impl Clone for GroupData {
    fn clone(&self) -> (copy: Self)
        ensures
            copy@ == self@,
    {
        GroupData { name: self.name.clone(), color: self.color }
    }
}

/// State of the board: its groups, in the order in which they were added.
#[derive(Debug, PartialEq, Eq)]
pub struct Board {
    pub groups: Vec<GroupData>,
}

/// Model of a [`Board`].
pub struct BoardView {
    pub groups: Seq<GroupDataView>,
}

impl View for Board {
    type V = BoardView;

    open spec fn view(&self) -> BoardView {
        BoardView { groups: views(self.groups@) }
    }
}

impl Clone for Board {
    fn clone(&self) -> (copy: Self)
        ensures
            copy@ == self@,
    {
        let mut groups: Vec<GroupData> = Vec::new();
        let mut i: usize = 0;
        while i < self.groups.len()
            invariant
                i <= self.groups.len(),
                groups.len() == i,
                forall|j: int| 0 <= j < i ==> groups[j]@ == self.groups[j]@,
            decreases self.groups.len() - i,
        {
            groups.push(self.groups[i].clone());
            i += 1;
        }
        assert(views(groups@) =~= views(self.groups@));
        Board { groups }
    }
}

impl BoardView {
    /// The board with a group of that color added behind the others, under
    /// the placeholder name that carries the number of groups there were.
    pub open spec fn with_group(self, color: Color) -> BoardView {
        BoardView {
            groups: self.groups.push(
                GroupDataView { name: spec_placeholder_name(self.groups.len()), color },
            ),
        }
    }

    /// The board with the group at `index` renamed; the board as it is where
    /// that position holds no group.
    pub open spec fn renamed(self, index: int, name: Seq<char>) -> BoardView {
        if 0 <= index < self.groups.len() {
            BoardView {
                groups: self.groups.update(
                    index,
                    GroupDataView { name, color: self.groups[index].color },
                ),
            }
        } else {
            self
        }
    }

    /// The board after the group shown at some place has handled a key press
    /// in its name field: the board carries out what the key press asks.
    pub open spec fn after_name_key(self, shown: GroupView, event: KeyDown) -> BoardView {
        match shown.rename_request(event) {
            Some((index, name)) => self.renamed(index as int, name),
            None => self,
        }
    }

    /// What the board hands the group at `index`.
    pub open spec fn group_props(self, index: int) -> GroupPropsView
        recommends
            0 <= index < self.groups.len(),
    {
        GroupPropsView {
            name: self.groups[index].name,
            color: self.groups[index].color,
            index: index as nat,
        }
    }
}

/// Draws a number below `bound` from the thread's random number generator,
/// by `rand::thread_rng` and `rand::Rng::gen_range` on the range from zero
/// up to and excluding `bound`. The draw is not repeatable; all that is
/// claimed of it is that it lies in the range. `gen_range` panics on an
/// empty range, hence the bound must be positive; `thread_rng` panics where
/// the system gives the generator no seed.
#[verifier::external_body]
fn random_below(bound: usize) -> (pick: usize)
    requires
        bound > 0,
    ensures
        pick < bound,
{
    rand::Rng::gen_range(&mut rand::thread_rng(), 0..bound)
}

impl Board {
    /// A board without groups.
    pub fn new() -> (board: Board)
        ensures
            board@.groups == Seq::<GroupDataView>::empty(),
    {
        let board = Board { groups: Vec::new() };
        assert(views(board.groups@) =~= Seq::empty());
        board
    }

    /// Number of groups on the board.
    pub fn group_count(&self) -> (count: usize)
        ensures
            count == self@.groups.len(),
    {
        self.groups.len()
    }

    /// Adds a group of the given color behind the others, under the
    /// placeholder name that carries the number of groups there were.
    pub fn add_group_with(&mut self, color: Color)
        ensures
            final(self)@ == old(self)@.with_group(color),
    {
        let name = placeholder_name(self.groups.len());
        self.groups.push(GroupData { name, color });
        assert(views(self.groups@) =~= old(self)@.with_group(color).groups);
    }

    /// Adds a group behind the others, under the placeholder name that
    /// carries the number of groups there were, in a color drawn at random
    /// from the palette. Returns the color drawn.
    pub fn add_group(&mut self) -> (color: Color)
        ensures
            final(self)@ == old(self)@.with_group(color),
    {
        let color = Color::from_index(random_below(PALETTE_LEN)).unwrap();
        self.add_group_with(color);
        color
    }

    /// Gives the group at `index` a new name; its color stays. Where that
    /// position holds no group, nothing changes. Returns whether a group was
    /// renamed.
    pub fn rename_group(&mut self, index: usize, new_name: String) -> (renamed: bool)
        ensures
            final(self)@ == old(self)@.renamed(index as int, new_name@),
            renamed == (index < old(self).groups.len()),
    {
        if index < self.groups.len() {
            self.groups[index].name = new_name;
            assert(views(self.groups@) =~= old(self)@.renamed(index as int, new_name@).groups);
            true
        } else {
            false
        }
    }

    /// What the board hands the group at `index`; `None` where it holds no
    /// group.
    pub fn group_props(&self, index: usize) -> (props: Option<GroupProps>)
        ensures
            props is Some <==> index < self.groups.len(),
            props matches Some(p) ==> p@ == self@.group_props(index as int),
    {
        if index < self.groups.len() {
            let entry = &self.groups[index];
            Some(GroupProps { name: entry.name.clone(), color: entry.color, index })
        } else {
            None
        }
    }
}

/// Adding a group lengthens the board's list by one: the groups there were
/// keep their places, and behind them stands the new group, in the given
/// color and under the placeholder name that carries the number of groups
/// there were. It appears without tasks, collapsed, its name not being
/// edited, and knows its position.
pub proof fn lemma_add_group_appends(board: BoardView, color: Color)
    ensures
        board.with_group(color).groups.len() == board.groups.len() + 1,
        board.with_group(color).groups.drop_last() == board.groups,
        board.with_group(color).groups.last() == (GroupDataView {
            name: spec_placeholder_name(board.groups.len()),
            color,
        }),
        GroupView::mounted(board.with_group(color).group_props(board.groups.len() as int)) == (
        GroupView {
            name: spec_placeholder_name(board.groups.len()),
            color,
            index: board.groups.len(),
            tasks: Seq::empty(),
            expanded: false,
            editing: false,
        }),
{
    assert(board.with_group(color).groups.drop_last() =~= board.groups);
}

/// Renaming the group at a position that holds one changes the name that
/// the board records there and nothing else: the group keeps its color,
/// every other group stays as it was, and the list keeps its length. At a
/// position that holds no group, renaming changes nothing.
pub proof fn lemma_rename_is_local(board: BoardView, index: int, name: Seq<char>)
    ensures
        board.renamed(index, name).groups.len() == board.groups.len(),
        0 <= index < board.groups.len() ==> board.renamed(index, name).groups[index] == (
        GroupDataView { name, color: board.groups[index].color }),
        forall|other: int|
            0 <= other < board.groups.len() && other != index ==> board.renamed(
                index,
                name,
            ).groups[other] == board.groups[other],
        !(0 <= index < board.groups.len()) ==> board.renamed(index, name) == board,
{
}

/// A name written to the board is the name read back. After the group at a
/// position that holds one is renamed, the board hands the group at that
/// position the new name, and a group that takes over the name it is handed
/// shows it.
pub proof fn lemma_rename_round_trip(
    board: BoardView,
    shown: GroupView,
    index: int,
    name: Seq<char>,
)
    requires
        0 <= index < board.groups.len(),
    ensures
        board.renamed(index, name).groups[index].name == name,
        board.renamed(index, name).group_props(index).name == name,
        shown.synced(board.renamed(index, name).group_props(index).name).name == name,
{
}

/// A name confirmed in a group's name field reaches the board and comes back
/// unchanged. When the group shown at a position that holds one handles a
/// key press that confirms a text, and the board carries out what the group
/// asks, the board records that text as the name at the group's position,
/// and the name it hands back is the one the group already shows: taking it
/// over changes nothing. A key press that confirms nothing leaves the board
/// as it was.
pub proof fn lemma_confirmed_name_round_trip(board: BoardView, shown: GroupView, event: KeyDown)
    requires
        shown.index < board.groups.len(),
    ensures
        event.spec_committed() is None ==> board.after_name_key(shown, event) == board,
        event.spec_committed() matches Some(text) ==> {
            let board_after = board.after_name_key(shown, event);
            let shown_after = shown.after_name_key(event);
            &&& board_after == board.renamed(shown.index as int, text)
            &&& board_after.groups[shown.index as int].name == text
            &&& shown_after.name == text
            &&& shown_after.synced(board_after.group_props(shown.index as int).name)
                == shown_after
        },
{
}

} // verus!
