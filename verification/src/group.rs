//! The group component and what it shows: its tasks, and the rows that add
//! tasks and subitems.

use vstd::prelude::*;

use crate::event::{text_of, KeyDown};
use crate::naming::{decimal, push_decimal};
use crate::palette::Color;
use crate::subitem::{SubitemProps, SubitemPropsView, SubitemView};

verus! {

/// The views of the items of a sequence, in order.
pub open spec fn views<T: View>(items: Seq<T>) -> Seq<T::V> {
    items.map_values(|item: T| item@)
}

/// What a group records of one subitem of a task.
#[derive(Debug, PartialEq, Eq)]
pub struct SubitemData {
    pub name: String,
}

/// Model of a [`SubitemData`].
pub struct SubitemDataView {
    pub name: Seq<char>,
}

impl View for SubitemData {
    type V = SubitemDataView;

    open spec fn view(&self) -> SubitemDataView {
        SubitemDataView { name: self.name@ }
    }
}

impl Clone for SubitemData {
    fn clone(&self) -> (copy: Self)
        ensures
            copy@ == self@,
    {
        SubitemData { name: self.name.clone() }
    }
}

/// What a group records of one of its tasks: the name and the subitems, in
/// the order in which they were added.
#[derive(Debug, PartialEq, Eq)]
pub struct TaskData {
    pub name: String,
    pub subitems: Vec<SubitemData>,
}

/// Model of a [`TaskData`].
pub struct TaskDataView {
    pub name: Seq<char>,
    pub subitems: Seq<SubitemDataView>,
}

impl View for TaskData {
    type V = TaskDataView;

    open spec fn view(&self) -> TaskDataView {
        TaskDataView { name: self.name@, subitems: views(self.subitems@) }
    }
}

/// Copies a list of subitem records.
pub fn copy_subitems(subitems: &Vec<SubitemData>) -> (copy: Vec<SubitemData>)
    ensures
        views(copy@) == views(subitems@),
{
    let mut copy: Vec<SubitemData> = Vec::new();
    let mut i: usize = 0;
    while i < subitems.len()
        invariant
            i <= subitems.len(),
            copy.len() == i,
            forall|j: int| 0 <= j < i ==> copy[j]@ == subitems[j]@,
        decreases subitems.len() - i,
    {
        copy.push(subitems[i].clone());
        i += 1;
    }
    assert(views(copy@) =~= views(subitems@));
    copy
}

impl Clone for TaskData {
    fn clone(&self) -> (copy: Self)
        ensures
            copy@ == self@,
    {
        TaskData { name: self.name.clone(), subitems: copy_subitems(&self.subitems) }
    }
}

/// Copies a list of task records.
pub fn copy_tasks(tasks: &Vec<TaskData>) -> (copy: Vec<TaskData>)
    ensures
        views(copy@) == views(tasks@),
{
    let mut copy: Vec<TaskData> = Vec::new();
    let mut i: usize = 0;
    while i < tasks.len()
        invariant
            i <= tasks.len(),
            copy.len() == i,
            forall|j: int| 0 <= j < i ==> copy[j]@ == tasks[j]@,
        decreases tasks.len() - i,
    {
        copy.push(tasks[i].clone());
        i += 1;
    }
    assert(views(copy@) =~= views(tasks@));
    copy
}

/// What the board hands a group each time it is shown.
#[derive(Debug, PartialEq, Eq)]
pub struct GroupProps {
    /// The group's name as the board holds it.
    pub name: String,
    /// The group's display color.
    pub color: Color,
    /// Position of the group in the board's list.
    pub index: usize,
}

/// Model of a [`GroupProps`].
pub struct GroupPropsView {
    pub name: Seq<char>,
    pub color: Color,
    pub index: nat,
}

impl View for GroupProps {
    type V = GroupPropsView;

    open spec fn view(&self) -> GroupPropsView {
        GroupPropsView { name: self.name@, color: self.color, index: self.index as nat }
    }
}

impl Clone for GroupProps {
    fn clone(&self) -> (copy: Self)
        ensures
            copy@ == self@,
    {
        GroupProps { name: self.name.clone(), color: self.color, index: self.index }
    }
}

/// What a group hands one of its tasks each time it is shown.
#[derive(Debug, PartialEq, Eq)]
pub struct TaskProps {
    /// The task's name.
    pub name: String,
    /// Display color, that of the group.
    pub color: Color,
    /// The task's subitems as the group holds them.
    pub subitems: Vec<SubitemData>,
}

/// Model of a [`TaskProps`].
pub struct TaskPropsView {
    pub name: Seq<char>,
    pub color: Color,
    pub subitems: Seq<SubitemDataView>,
}

impl View for TaskProps {
    type V = TaskPropsView;

    open spec fn view(&self) -> TaskPropsView {
        TaskPropsView { name: self.name@, color: self.color, subitems: views(self.subitems@) }
    }
}

impl Clone for TaskProps {
    fn clone(&self) -> (copy: Self)
        ensures
            copy@ == self@,
    {
        TaskProps {
            name: self.name.clone(),
            color: self.color,
            subitems: copy_subitems(&self.subitems),
        }
    }
}

/// The mark on the control that expands and collapses a group or a task.
pub open spec fn spec_expand_marker(expanded: bool) -> Seq<char> {
    if expanded {
        "v"@
    } else {
        ">"@
    }
}

/// The mark on the control that expands and collapses a group or a task.
pub fn expand_marker(expanded: bool) -> (marker: &'static str)
    ensures
        marker@ == spec_expand_marker(expanded),
{
    if expanded {
        "v"
    } else {
        ">"
    }
}

/// Number of subitems held by a list of tasks, all tasks together.
pub open spec fn total_subitems(tasks: Seq<TaskDataView>) -> nat
    decreases tasks.len(),
{
    if tasks.len() == 0 {
        0
    } else {
        total_subitems(tasks.drop_last()) + tasks.last().subitems.len()
    }
}

/// State of a group: its name and color, its place on the board, its tasks in
/// the order in which they were added, and whether it is expanded and whether
/// its name is being edited.
#[derive(Debug, PartialEq, Eq)]
pub struct Group {
    pub name: String,
    pub color: Color,
    pub index: usize,
    pub tasks: Vec<TaskData>,
    pub expanded: bool,
    pub editing: bool,
}

/// Model of a [`Group`].
pub struct GroupView {
    pub name: Seq<char>,
    pub color: Color,
    pub index: nat,
    pub tasks: Seq<TaskDataView>,
    pub expanded: bool,
    pub editing: bool,
}

impl View for Group {
    type V = GroupView;

    open spec fn view(&self) -> GroupView {
        GroupView {
            name: self.name@,
            color: self.color,
            index: self.index as nat,
            tasks: views(self.tasks@),
            expanded: self.expanded,
            editing: self.editing,
        }
    }
}

impl Clone for Group {
    fn clone(&self) -> (copy: Self)
        ensures
            copy@ == self@,
    {
        Group {
            name: self.name.clone(),
            color: self.color,
            index: self.index,
            tasks: copy_tasks(&self.tasks),
            expanded: self.expanded,
            editing: self.editing,
        }
    }
}

impl GroupView {
    /// A group as it first appears: named and colored as the board says,
    /// without tasks, collapsed, its name not being edited.
    pub open spec fn mounted(props: GroupPropsView) -> GroupView {
        GroupView {
            name: props.name,
            color: props.color,
            index: props.index,
            tasks: Seq::empty(),
            expanded: false,
            editing: false,
        }
    }

    /// The group showing `name`, all else as before.
    pub open spec fn synced(self, name: Seq<char>) -> GroupView {
        GroupView { name, ..self }
    }

    /// The group expanded if it was collapsed, collapsed if it was expanded.
    pub open spec fn toggled(self) -> GroupView {
        GroupView { expanded: !self.expanded, ..self }
    }

    /// The group with its name being edited.
    pub open spec fn edit_begun(self) -> GroupView {
        GroupView { editing: true, ..self }
    }

    /// The group with its name no longer being edited; the name stays.
    pub open spec fn edit_ended(self) -> GroupView {
        GroupView { editing: false, ..self }
    }

    /// The group after a key press in its name field: a confirmed text
    /// becomes the name and ends the edit, anything else changes nothing.
    pub open spec fn after_name_key(self, event: KeyDown) -> GroupView {
        match event.spec_committed() {
            Some(name) => GroupView { name, editing: false, ..self },
            None => self,
        }
    }

    /// What a key press in the name field asks of the board: to rename the
    /// group at this group's position to the confirmed text, or nothing.
    pub open spec fn rename_request(self, event: KeyDown) -> Option<(nat, Seq<char>)> {
        match event.spec_committed() {
            Some(name) => Some((self.index, name)),
            None => None,
        }
    }

    /// The group with a task of that name and no subitems added behind the
    /// others; an empty name adds nothing.
    pub open spec fn with_task(self, name: Seq<char>) -> GroupView {
        if name.len() == 0 {
            self
        } else {
            GroupView { tasks: self.tasks.push(TaskDataView { name, subitems: Seq::empty() }), ..self }
        }
    }

    /// The group with a subitem of that name added behind the others of the
    /// task at `index`; an empty name or a position without a task adds
    /// nothing.
    pub open spec fn with_subitem(self, index: int, name: Seq<char>) -> GroupView {
        if name.len() == 0 || !(0 <= index < self.tasks.len()) {
            self
        } else {
            let task = self.tasks[index];
            let grown = TaskDataView {
                name: task.name,
                subitems: task.subitems.push(SubitemDataView { name }),
            };
            GroupView { tasks: self.tasks.update(index, grown), ..self }
        }
    }

    /// Number of tasks shown in the group's heading.
    pub open spec fn task_count(self) -> nat {
        self.tasks.len()
    }

    /// Number of subitems shown in the group's heading.
    pub open spec fn subitem_count(self) -> nat {
        total_subitems(self.tasks)
    }

    /// The text of the group's heading that counts its tasks and subitems.
    pub open spec fn count_label(self) -> Seq<char> {
        decimal(self.task_count()) + " Tasks / "@ + decimal(self.subitem_count()) + " Subitems"@
    }

    /// Whether the group shows its tasks and the row that adds one.
    pub open spec fn shows_tasks(self) -> bool {
        self.expanded
    }

    /// What the group hands the task at `index`.
    pub open spec fn task_props(self, index: int) -> TaskPropsView
        recommends
            0 <= index < self.tasks.len(),
    {
        TaskPropsView {
            name: self.tasks[index].name,
            color: self.color,
            subitems: self.tasks[index].subitems,
        }
    }
}

/// Makes the state of a group that appears with what it is handed.
pub fn group(props: &GroupProps) -> (state: Group)
    ensures
        state@ == GroupView::mounted(props@),
{
    let state = Group {
        name: props.name.clone(),
        color: props.color,
        index: props.index,
        tasks: Vec::new(),
        expanded: false,
        editing: false,
    };
    assert(views(state.tasks@) =~= Seq::empty());
    state
}

impl Group {
    /// Takes over the name that the board holds for this group.
    pub fn sync_name(&mut self, name: &String)
        ensures
            final(self)@ == old(self)@.synced(name@),
    {
        self.name = name.clone();
    }

    /// Expands the group if it is collapsed, collapses it if it is expanded.
    pub fn toggle_expand(&mut self)
        ensures
            final(self)@ == old(self)@.toggled(),
    {
        self.expanded = !self.expanded;
    }

    /// Starts editing the name.
    pub fn begin_edit(&mut self)
        ensures
            final(self)@ == old(self)@.edit_begun(),
    {
        self.editing = true;
    }

    /// Stops editing the name. Text typed but not confirmed is dropped: the
    /// name stays as it was last confirmed.
    pub fn end_edit(&mut self)
        ensures
            final(self)@ == old(self)@.edit_ended(),
    {
        self.editing = false;
    }

    /// Handles a key press in the name field. The commit key on the field
    /// makes its text the group's name and ends the edit; the result then
    /// tells the board which group to rename, and to what. Any other key
    /// press changes nothing and asks nothing.
    pub fn on_group_name_change(&mut self, event: &KeyDown) -> (request: Option<(usize, String)>)
        ensures
            final(self)@ == old(self)@.after_name_key(*event),
            match request {
                Some((index, name)) => old(self)@.rename_request(*event) == Some(
                    (index as nat, name@),
                ),
                None => old(self)@.rename_request(*event) is None,
            },
    {
        match event.committed() {
            Some(new_name) => {
                self.name = new_name.clone();
                self.editing = false;
                Some((self.index, new_name))
            },
            None => None,
        }
    }

    /// Adds a task of that name, without subitems, behind the others. An
    /// empty name is rejected: nothing is added. Returns whether a task was
    /// added.
    pub fn add_task(&mut self, name: String) -> (added: bool)
        ensures
            final(self)@ == old(self)@.with_task(name@),
            added == (name@.len() > 0),
    {
        if name.as_str().is_empty() {
            false
        } else {
            self.tasks.push(TaskData { name, subitems: Vec::new() });
            proof {
                let added_task = TaskDataView { name: name@, subitems: Seq::empty() };
                assert(views(self.tasks@.last().subitems@) =~= Seq::empty());
                assert(views(self.tasks@) =~= views(old(self).tasks@).push(added_task));
            }
            true
        }
    }

    /// Adds a subitem of that name behind the others of the task at `index`,
    /// as that task reports it. An empty name is rejected, and so is a
    /// position that holds no task: nothing is added. Returns whether a
    /// subitem was added.
    pub fn add_subitem(&mut self, index: usize, name: String) -> (added: bool)
        ensures
            final(self)@ == old(self)@.with_subitem(index as int, name@),
            added == (name@.len() > 0 && index < old(self).tasks.len()),
    {
        if name.as_str().is_empty() || index >= self.tasks.len() {
            false
        } else {
            self.tasks[index].subitems.push(SubitemData { name });
            proof {
                let before = old(self).tasks@[index as int];
                let grown = TaskDataView {
                    name: before.name@,
                    subitems: views(before.subitems@).push(SubitemDataView { name: name@ }),
                };
                assert(views(self.tasks@[index as int].subitems@) =~= grown.subitems);
                assert(views(self.tasks@) =~= views(old(self).tasks@).update(index as int, grown));
            }
            true
        }
    }

    /// Number of tasks shown in the group's heading.
    pub fn task_count(&self) -> (count: usize)
        ensures
            count == self@.task_count(),
    {
        self.tasks.len()
    }

    /// Number of subitems shown in the group's heading: those of all its
    /// tasks together.
    pub fn subitem_count(&self) -> (count: u128)
        ensures
            count == self@.subitem_count(),
    {
        let ghost tasks = views(self.tasks@);
        let mut count: u128 = 0;
        let mut i: usize = 0;
        while i < self.tasks.len()
            invariant
                i <= self.tasks.len(),
                tasks == views(self.tasks@),
                count == total_subitems(tasks.take(i as int)),
                count <= i * usize::MAX,
            decreases self.tasks.len() - i,
        {
            let len = self.tasks[i].subitems.len();
            proof {
                assert(tasks.take(i + 1).drop_last() =~= tasks.take(i as int));
                assert(tasks.take(i + 1).last().subitems.len() == len);
                assert((i + 1) * usize::MAX <= usize::MAX * usize::MAX) by (nonlinear_arith)
                    requires
                        i + 1 <= usize::MAX,
                ;
                assert(usize::MAX * usize::MAX <= u128::MAX) by (nonlinear_arith)
                    requires
                        usize::MAX <= 0xffff_ffff_ffff_ffff,
                ;
                assert(i * usize::MAX + usize::MAX == (i + 1) * usize::MAX) by (nonlinear_arith);
            }
            count = count + len as u128;
            i += 1;
        }
        assert(tasks.take(i as int) =~= tasks);
        count
    }

    /// The text of the group's heading that counts its tasks and subitems.
    pub fn count_label(&self) -> (label: String)
        ensures
            label@ == self@.count_label(),
    {
        let mut label = String::new();
        push_decimal(&mut label, self.tasks.len() as u128);
        label.append(" Tasks / ");
        push_decimal(&mut label, self.subitem_count());
        label.append(" Subitems");
        assert(label@ =~= self@.count_label());
        label
    }

    /// Whether the group shows its tasks and the row that adds one.
    pub fn shows_tasks(&self) -> (shown: bool)
        ensures
            shown == self@.shows_tasks(),
    {
        self.expanded
    }

    /// What the group hands the task at `index`; `None` where it holds no
    /// task.
    pub fn task_props(&self, index: usize) -> (props: Option<TaskProps>)
        ensures
            props is Some <==> index < self.tasks.len(),
            props matches Some(p) ==> p@ == self@.task_props(index as int),
    {
        if index < self.tasks.len() {
            let task = &self.tasks[index];
            Some(
                TaskProps {
                    name: task.name.clone(),
                    color: self.color,
                    subitems: copy_subitems(&task.subitems),
                },
            )
        } else {
            None
        }
    }
}

/// The fields of a task.
#[derive(Clone, Copy, Debug, PartialEq, Eq, Structural)]
pub enum TaskField {
    Name,
    Date,
    Area,
    Owner,
    Notes,
    Files,
    Budget,
    Progress,
}

/// State of a task: the text of each of its fields, its subitems in the
/// order in which they were added, the color it shows them in, and whether
/// it is expanded.
#[derive(Debug, PartialEq, Eq)]
pub struct Task {
    pub name: String,
    pub date: String,
    pub area: String,
    pub owner: String,
    pub notes: String,
    pub files: String,
    pub budget: String,
    pub progress: String,
    pub color: Color,
    pub subitems: Vec<SubitemData>,
    pub expanded: bool,
}

/// Model of a [`Task`].
pub struct TaskView {
    pub name: Seq<char>,
    pub date: Seq<char>,
    pub area: Seq<char>,
    pub owner: Seq<char>,
    pub notes: Seq<char>,
    pub files: Seq<char>,
    pub budget: Seq<char>,
    pub progress: Seq<char>,
    pub color: Color,
    pub subitems: Seq<SubitemDataView>,
    pub expanded: bool,
}

impl View for Task {
    type V = TaskView;

    open spec fn view(&self) -> TaskView {
        TaskView {
            name: self.name@,
            date: self.date@,
            area: self.area@,
            owner: self.owner@,
            notes: self.notes@,
            files: self.files@,
            budget: self.budget@,
            progress: self.progress@,
            color: self.color,
            subitems: views(self.subitems@),
            expanded: self.expanded,
        }
    }
}

impl Clone for Task {
    fn clone(&self) -> (copy: Self)
        ensures
            copy@ == self@,
    {
        Task {
            name: self.name.clone(),
            date: self.date.clone(),
            area: self.area.clone(),
            owner: self.owner.clone(),
            notes: self.notes.clone(),
            files: self.files.clone(),
            budget: self.budget.clone(),
            progress: self.progress.clone(),
            color: self.color,
            subitems: copy_subitems(&self.subitems),
            expanded: self.expanded,
        }
    }
}

impl TaskView {
    /// A task as it first appears: named and colored as the group says, with
    /// the subitems the group holds for it, every other field at its
    /// default, collapsed.
    pub open spec fn mounted(props: TaskPropsView) -> TaskView {
        TaskView {
            name: props.name,
            date: "2024-08-11"@,
            area: "Area 1"@,
            owner: "Owner 1"@,
            notes: "Sample Note"@,
            files: "0"@,
            budget: "$0"@,
            progress: Seq::empty(),
            color: props.color,
            subitems: props.subitems,
            expanded: false,
        }
    }

    /// The text of a field.
    pub open spec fn field(self, field: TaskField) -> Seq<char> {
        match field {
            TaskField::Name => self.name,
            TaskField::Date => self.date,
            TaskField::Area => self.area,
            TaskField::Owner => self.owner,
            TaskField::Notes => self.notes,
            TaskField::Files => self.files,
            TaskField::Budget => self.budget,
            TaskField::Progress => self.progress,
        }
    }

    /// The task with `text` in that field, all else as before.
    pub open spec fn with_field(self, field: TaskField, text: Seq<char>) -> TaskView {
        match field {
            TaskField::Name => TaskView { name: text, ..self },
            TaskField::Date => TaskView { date: text, ..self },
            TaskField::Area => TaskView { area: text, ..self },
            TaskField::Owner => TaskView { owner: text, ..self },
            TaskField::Notes => TaskView { notes: text, ..self },
            TaskField::Files => TaskView { files: text, ..self },
            TaskField::Budget => TaskView { budget: text, ..self },
            TaskField::Progress => TaskView { progress: text, ..self },
        }
    }

    /// The task after a key press in one of its fields: a confirmed text
    /// replaces the field's, anything else changes nothing.
    pub open spec fn after_key(self, field: TaskField, event: KeyDown) -> TaskView {
        match event.spec_committed() {
            Some(text) => self.with_field(field, text),
            None => self,
        }
    }

    /// The task expanded if it was collapsed, collapsed if it was expanded.
    pub open spec fn toggled(self) -> TaskView {
        TaskView { expanded: !self.expanded, ..self }
    }

    /// The task with a subitem of that name added behind the others; an
    /// empty name adds nothing.
    pub open spec fn with_subitem(self, name: Seq<char>) -> TaskView {
        if name.len() == 0 {
            self
        } else {
            TaskView { subitems: self.subitems.push(SubitemDataView { name }), ..self }
        }
    }

    /// What adding a subitem of that name reports to the group: the name,
    /// unless it is empty.
    pub open spec fn subitem_report(name: Seq<char>) -> Option<Seq<char>> {
        if name.len() == 0 {
            None
        } else {
            Some(name)
        }
    }

    /// Whether the task shows its subitems and the row that adds one.
    pub open spec fn shows_subitems(self) -> bool {
        self.expanded
    }

    /// What the task hands the subitem at `index`.
    pub open spec fn subitem_props(self, index: int) -> SubitemPropsView
        recommends
            0 <= index < self.subitems.len(),
    {
        SubitemPropsView { name: self.subitems[index].name, color: self.color }
    }
}

/// Makes the state of a task that appears with what it is handed.
pub fn task(props: &TaskProps) -> (state: Task)
    ensures
        state@ == TaskView::mounted(props@),
{
    Task {
        name: props.name.clone(),
        date: "2024-08-11".to_owned(),
        area: "Area 1".to_owned(),
        owner: "Owner 1".to_owned(),
        notes: "Sample Note".to_owned(),
        files: "0".to_owned(),
        budget: "$0".to_owned(),
        progress: String::new(),
        color: props.color,
        subitems: copy_subitems(&props.subitems),
        expanded: false,
    }
}

impl Task {
    /// The text of a field.
    pub fn field(&self, field: TaskField) -> (text: &String)
        ensures
            text@ == self@.field(field),
    {
        match field {
            TaskField::Name => &self.name,
            TaskField::Date => &self.date,
            TaskField::Area => &self.area,
            TaskField::Owner => &self.owner,
            TaskField::Notes => &self.notes,
            TaskField::Files => &self.files,
            TaskField::Budget => &self.budget,
            TaskField::Progress => &self.progress,
        }
    }

    /// Writes `text` into a field. No other field changes, nor the subitems.
    pub fn set_field(&mut self, field: TaskField, text: String)
        ensures
            final(self)@ == old(self)@.with_field(field, text@),
    {
        match field {
            TaskField::Name => {
                self.name = text;
            },
            TaskField::Date => {
                self.date = text;
            },
            TaskField::Area => {
                self.area = text;
            },
            TaskField::Owner => {
                self.owner = text;
            },
            TaskField::Notes => {
                self.notes = text;
            },
            TaskField::Files => {
                self.files = text;
            },
            TaskField::Budget => {
                self.budget = text;
            },
            TaskField::Progress => {
                self.progress = text;
            },
        }
    }

    /// Handles a key press in one of the fields. The commit key on the field
    /// writes its text into the field; any other key press changes nothing.
    /// Returns whether a text was written.
    pub fn on_input_change(&mut self, field: TaskField, event: &KeyDown) -> (written: bool)
        ensures
            final(self)@ == old(self)@.after_key(field, *event),
            written == event.spec_committed() is Some,
    {
        match event.committed() {
            Some(text) => {
                self.set_field(field, text);
                true
            },
            None => false,
        }
    }

    /// Expands the task if it is collapsed, collapses it if it is expanded.
    pub fn toggle_expand(&mut self)
        ensures
            final(self)@ == old(self)@.toggled(),
    {
        self.expanded = !self.expanded;
    }

    /// Adds a subitem of that name behind the others. The result is the name
    /// to report to the group, which keeps its own record of the subitems.
    /// An empty name is rejected: nothing is added and nothing reported.
    pub fn add_subitem(&mut self, name: String) -> (report: Option<String>)
        ensures
            final(self)@ == old(self)@.with_subitem(name@),
            text_of(report) == TaskView::subitem_report(name@),
    {
        if name.as_str().is_empty() {
            None
        } else {
            self.subitems.push(SubitemData { name: name.clone() });
            assert(views(self.subitems@) =~= views(old(self).subitems@).push(
                SubitemDataView { name: name@ },
            ));
            Some(name)
        }
    }

    /// Whether the task shows its subitems and the row that adds one.
    pub fn shows_subitems(&self) -> (shown: bool)
        ensures
            shown == self@.shows_subitems(),
    {
        self.expanded
    }

    /// Number of subitems of the task.
    pub fn subitem_count(&self) -> (count: usize)
        ensures
            count == self@.subitems.len(),
    {
        self.subitems.len()
    }

    /// What the task hands the subitem at `index`; `None` where it holds no
    /// subitem.
    pub fn subitem_props(&self, index: usize) -> (props: Option<SubitemProps>)
        ensures
            props is Some <==> index < self.subitems.len(),
            props matches Some(p) ==> p@ == self@.subitem_props(index as int),
    {
        if index < self.subitems.len() {
            Some(SubitemProps { name: self.subitems[index].name.clone(), color: self.color })
        } else {
            None
        }
    }
}

/// State of the row that adds a task: the text its input field shows.
#[derive(Debug, PartialEq, Eq)]
pub struct AddTaskRow {
    pub task_name: String,
}

/// Model of an [`AddTaskRow`].
pub struct AddTaskRowView {
    pub task_name: Seq<char>,
}

impl View for AddTaskRow {
    type V = AddTaskRowView;

    open spec fn view(&self) -> AddTaskRowView {
        AddTaskRowView { task_name: self.task_name@ }
    }
}

impl Clone for AddTaskRow {
    fn clone(&self) -> (copy: Self)
        ensures
            copy@ == self@,
    {
        AddTaskRow { task_name: self.task_name.clone() }
    }
}

impl AddTaskRowView {
    /// The row after a key press in its field: cleared where the key press
    /// submits a name, as it was otherwise.
    pub open spec fn after_key(self, event: KeyDown) -> AddTaskRowView {
        if event.spec_submitted() is Some {
            AddTaskRowView { task_name: Seq::empty() }
        } else {
            self
        }
    }
}

/// Makes the state of a row that adds a task: its field is empty.
pub fn add_task_row() -> (row: AddTaskRow)
    ensures
        row@.task_name == Seq::<char>::empty(),
{
    AddTaskRow { task_name: String::new() }
}

impl AddTaskRow {
    /// Handles a key press in the row's field. The commit key on a field
    /// that holds text submits that text as the name of a new task, which is
    /// the result, and clears the row. The commit key on an empty field, and
    /// any other key press, submits nothing and leaves the row as it is.
    pub fn on_keydown(&mut self, event: &KeyDown) -> (name: Option<String>)
        ensures
            text_of(name) == event.spec_submitted(),
            final(self)@ == old(self)@.after_key(*event),
    {
        match event.submitted() {
            Some(value) => {
                self.task_name = String::new();
                Some(value)
            },
            None => None,
        }
    }
}

/// State of the row that adds a subitem: the text its input field shows.
#[derive(Debug, PartialEq, Eq)]
pub struct AddSubitemRow {
    pub subitem_name: String,
}

/// Model of an [`AddSubitemRow`].
pub struct AddSubitemRowView {
    pub subitem_name: Seq<char>,
}

impl View for AddSubitemRow {
    type V = AddSubitemRowView;

    open spec fn view(&self) -> AddSubitemRowView {
        AddSubitemRowView { subitem_name: self.subitem_name@ }
    }
}

impl Clone for AddSubitemRow {
    fn clone(&self) -> (copy: Self)
        ensures
            copy@ == self@,
    {
        AddSubitemRow { subitem_name: self.subitem_name.clone() }
    }
}

impl AddSubitemRowView {
    /// The row after a key press in its field: cleared where the key press
    /// submits a name, as it was otherwise.
    pub open spec fn after_key(self, event: KeyDown) -> AddSubitemRowView {
        if event.spec_submitted() is Some {
            AddSubitemRowView { subitem_name: Seq::empty() }
        } else {
            self
        }
    }
}

/// Makes the state of a row that adds a subitem: its field is empty.
pub fn add_subitem_row() -> (row: AddSubitemRow)
    ensures
        row@.subitem_name == Seq::<char>::empty(),
{
    AddSubitemRow { subitem_name: String::new() }
}

impl AddSubitemRow {
    /// Handles a key press in the row's field. The commit key on a field
    /// that holds text submits that text as the name of a new subitem, which
    /// is the result, and clears the row. The commit key on an empty field,
    /// and any other key press, submits nothing and leaves the row as it is.
    pub fn on_keydown(&mut self, event: &KeyDown) -> (name: Option<String>)
        ensures
            text_of(name) == event.spec_submitted(),
            final(self)@ == old(self)@.after_key(*event),
    {
        match event.submitted() {
            Some(value) => {
                self.subitem_name = String::new();
                Some(value)
            },
            None => None,
        }
    }
}

/// Adding a task under a name that is not empty lengthens the group's list
/// of tasks by one: the tasks there were keep their places, and behind them
/// stands the new task, under that name and without subitems. Nothing else
/// about the group changes.
pub proof fn lemma_add_task_appends(group: GroupView, name: Seq<char>)
    requires
        name.len() > 0,
    ensures
        group.with_task(name).tasks.len() == group.tasks.len() + 1,
        group.with_task(name).tasks.drop_last() == group.tasks,
        group.with_task(name).tasks.last() == (TaskDataView { name, subitems: Seq::empty() }),
        group.with_task(name) == (GroupView { tasks: group.with_task(name).tasks, ..group }),
{
    assert(group.tasks.push(TaskDataView { name, subitems: Seq::empty() }).drop_last()
        =~= group.tasks);
}

/// Adding a subitem to a task under a name that is not empty lengthens the
/// task's list of subitems by one: the subitems there were keep their places,
/// and behind them stands the new one, under that name. Nothing else about
/// the task changes.
pub proof fn lemma_task_add_subitem_appends(task: TaskView, name: Seq<char>)
    requires
        name.len() > 0,
    ensures
        task.with_subitem(name).subitems.len() == task.subitems.len() + 1,
        task.with_subitem(name).subitems.drop_last() == task.subitems,
        task.with_subitem(name).subitems.last() == (SubitemDataView { name }),
        task.with_subitem(name) == (TaskView { subitems: task.with_subitem(name).subitems, ..task }),
{
    assert(task.subitems.push(SubitemDataView { name }).drop_last() =~= task.subitems);
}

/// Adding a subitem, under a name that is not empty, to the task that a
/// group holds at some position lengthens that task's list of subitems by
/// one, the new subitem standing behind those there were. The task keeps its
/// name, every other task of the group stays as it was, and so does the rest
/// of the group.
pub proof fn lemma_group_add_subitem_appends(group: GroupView, index: int, name: Seq<char>)
    requires
        name.len() > 0,
        0 <= index < group.tasks.len(),
    ensures
        ({
            let after = group.with_subitem(index, name);
            &&& after.tasks.len() == group.tasks.len()
            &&& after.tasks[index].name == group.tasks[index].name
            &&& after.tasks[index].subitems.len() == group.tasks[index].subitems.len() + 1
            &&& after.tasks[index].subitems.drop_last() == group.tasks[index].subitems
            &&& after.tasks[index].subitems.last() == (SubitemDataView { name })
            &&& forall|other: int|
                0 <= other < group.tasks.len() && other != index ==> after.tasks[other]
                    == group.tasks[other]
            &&& after == (GroupView { tasks: after.tasks, ..group })
        }),
{
    assert(group.tasks[index].subitems.push(SubitemDataView { name }).drop_last()
        =~= group.tasks[index].subitems);
}

/// An empty name adds nothing: not a task to a group, not a subitem to a
/// task, not a subitem to a group's record of a task. And a key press that
/// confirms an empty field on a row that adds entries submits nothing, and
/// leaves the row as it is.
pub proof fn lemma_empty_name_adds_nothing(
    group: GroupView,
    task: TaskView,
    index: int,
    event: KeyDown,
    task_row: AddTaskRowView,
    subitem_row: AddSubitemRowView,
)
    ensures
        group.with_task(Seq::empty()) == group,
        group.with_subitem(index, Seq::empty()) == group,
        task.with_subitem(Seq::empty()) == task,
        TaskView::subitem_report(Seq::empty()) is None,
        event.spec_committed() == Some(Seq::<char>::empty()) ==> {
            &&& event.spec_submitted() is None
            &&& task_row.after_key(event) == task_row
            &&& subitem_row.after_key(event) == subitem_row
        },
{
}

/// A key press on a row that adds entries submits a name exactly when it is
/// the commit key on an input field that holds text; the name is that text.
pub proof fn lemma_submission(event: KeyDown)
    ensures
        event.spec_submitted() is Some <==> event.key@ == crate::event::commit_key()
            && event.input_value is Some && event.input_value->0@.len() > 0,
        event.spec_submitted() is Some ==> event.spec_submitted() == Some(
            event.input_value->0@,
        ),
{
}

/// Confirming a text in one field of a task puts it there and leaves every
/// other field as it was, and with them the task's subitems, its color and
/// whether it is expanded.
pub proof fn lemma_task_commit_is_local(
    task: TaskView,
    field: TaskField,
    other: TaskField,
    text: Seq<char>,
)
    ensures
        task.with_field(field, text).field(field) == text,
        other != field ==> task.with_field(field, text).field(other) == task.field(other),
        task.with_field(field, text).subitems == task.subitems,
        task.with_field(field, text).color == task.color,
        task.with_field(field, text).expanded == task.expanded,
{
}

/// A key press that confirms nothing, be it another key than the commit key
/// or a target that is no input field, leaves a task as it was.
pub proof fn lemma_task_ignores_other_keys(task: TaskView, field: TaskField, event: KeyDown)
    requires
        event.key@ != crate::event::commit_key() || event.input_value is None,
    ensures
        task.after_key(field, event) == task,
{
}

/// Toggling a group twice gives the group back as it was; toggling it once
/// turns what it shows of its tasks into the opposite.
pub proof fn lemma_group_toggle_twice(group: GroupView)
    ensures
        group.toggled().toggled() == group,
        group.toggled().shows_tasks() == !group.shows_tasks(),
        spec_expand_marker(group.toggled().toggled().expanded) == spec_expand_marker(
            group.expanded,
        ),
{
}

/// Toggling a task twice gives the task back as it was; toggling it once
/// turns what it shows of its subitems into the opposite.
pub proof fn lemma_task_toggle_twice(task: TaskView)
    ensures
        task.toggled().toggled() == task,
        task.toggled().shows_subitems() == !task.shows_subitems(),
        spec_expand_marker(task.toggled().toggled().expanded) == spec_expand_marker(task.expanded),
{
}

/// The name of a group changes only when a text is confirmed. Starting an
/// edit and leaving the field without the commit key keeps the name and ends
/// the edit; the commit key on the field makes its text the name, ends the
/// edit and asks the board to rename the group at this group's position.
pub proof fn lemma_name_edit(group: GroupView, event: KeyDown, text: Seq<char>)
    ensures
        group.edit_begun().editing,
        group.edit_begun().edit_ended() == group.edit_ended(),
        group.edit_ended().name == group.name && !group.edit_ended().editing,
        event.spec_committed() is None ==> group.after_name_key(event) == group
            && group.rename_request(event) is None,
        event.spec_committed() == Some(text) ==> group.after_name_key(event) == group.synced(
            text,
        ).edit_ended() && group.rename_request(event) == Some((group.index, text)),
{
}

/// Nothing a group does changes its color or its position on the board.
pub proof fn lemma_group_keeps_color(group: GroupView, event: KeyDown, name: Seq<char>, index: int)
    ensures
        group.synced(name).color == group.color && group.synced(name).index == group.index,
        group.toggled().color == group.color && group.toggled().index == group.index,
        group.edit_begun().color == group.color && group.edit_begun().index == group.index,
        group.edit_ended().color == group.color && group.edit_ended().index == group.index,
        group.after_name_key(event).color == group.color && group.after_name_key(event).index
            == group.index,
        group.with_task(name).color == group.color && group.with_task(name).index == group.index,
        group.with_subitem(index, name).color == group.color && group.with_subitem(
            index,
            name,
        ).index == group.index,
{
}

/// The number of subitems of a list of tasks with one more task behind it.
proof fn lemma_total_subitems_push(tasks: Seq<TaskDataView>, task: TaskDataView)
    ensures
        total_subitems(tasks.push(task)) == total_subitems(tasks) + task.subitems.len(),
{
    assert(tasks.push(task).drop_last() =~= tasks);
}

/// The number of subitems of a list of tasks with one task replaced.
proof fn lemma_total_subitems_update(tasks: Seq<TaskDataView>, index: int, task: TaskDataView)
    requires
        0 <= index < tasks.len(),
    ensures
        total_subitems(tasks.update(index, task)) == total_subitems(tasks)
            - tasks[index].subitems.len() + task.subitems.len(),
    decreases tasks.len(),
{
    let updated = tasks.update(index, task);
    if index == tasks.len() - 1 {
        assert(updated.drop_last() =~= tasks.drop_last());
    } else {
        lemma_total_subitems_update(tasks.drop_last(), index, task);
        assert(updated.drop_last() =~= tasks.drop_last().update(index, task));
    }
}

/// What the heading of a group counts. A group that has just appeared
/// counts no task and no subitem. A task added under a name that is not
/// empty makes one task more and leaves the number of subitems; a subitem
/// added under such a name to a task that the group holds makes one subitem
/// more and leaves the number of tasks. An empty name, or a position without
/// a task, leaves both numbers.
pub proof fn lemma_counts(props: GroupPropsView, group: GroupView, index: int, name: Seq<char>)
    ensures
        GroupView::mounted(props).task_count() == 0,
        GroupView::mounted(props).subitem_count() == 0,
        group.with_task(name).task_count() == group.task_count() + if name.len() > 0 {
            1nat
        } else {
            0nat
        },
        group.with_task(name).subitem_count() == group.subitem_count(),
        group.with_subitem(index, name).task_count() == group.task_count(),
        group.with_subitem(index, name).subitem_count() == group.subitem_count() + if name.len() > 0
            && 0 <= index < group.tasks.len() {
            1nat
        } else {
            0nat
        },
{
    if name.len() > 0 {
        lemma_total_subitems_push(group.tasks, TaskDataView { name, subitems: Seq::empty() });
        if 0 <= index < group.tasks.len() {
            let grown = TaskDataView {
                name: group.tasks[index].name,
                subitems: group.tasks[index].subitems.push(SubitemDataView { name }),
            };
            lemma_total_subitems_update(group.tasks, index, grown);
        }
    }
}

/// A task and the group that holds it keep the same list of its subitems.
/// If the two lists agree, and the task adds a subitem and the group is told
/// to add one under the same name at the task's position, the lists agree
/// again: in what the group next hands the task, the subitems are those the
/// task holds. For an empty name neither list changes.
pub proof fn lemma_subitem_lists_converge(
    group: GroupView,
    task: TaskView,
    index: int,
    name: Seq<char>,
)
    requires
        0 <= index < group.tasks.len(),
        group.task_props(index).subitems == task.subitems,
    ensures
        group.with_subitem(index, name).task_props(index).subitems == task.with_subitem(
            name,
        ).subitems,
        group.with_subitem(index, name).task_props(index).name == group.task_props(index).name,
        TaskView::subitem_report(name) is Some <==> task.with_subitem(name) != task,
{
    if name.len() > 0 {
        assert(task.with_subitem(name).subitems.len() == task.subitems.len() + 1);
    }
}

/// A task that a group has just added appears under its name, in the
/// group's color, collapsed, without subitems and with every other field at
/// its default.
pub proof fn lemma_new_task_defaults(group: GroupView, name: Seq<char>)
    requires
        name.len() > 0,
    ensures
        TaskView::mounted(group.with_task(name).task_props(group.tasks.len() as int)) == (TaskView {
            name,
            date: "2024-08-11"@,
            area: "Area 1"@,
            owner: "Owner 1"@,
            notes: "Sample Note"@,
            files: "0"@,
            budget: "$0"@,
            progress: Seq::empty(),
            color: group.color,
            subitems: Seq::empty(),
            expanded: false,
        }),
{
}

/// A subitem that a task has just added appears under its name, with every
/// other field at its default.
pub proof fn lemma_new_subitem_defaults(task: TaskView, name: Seq<char>)
    requires
        name.len() > 0,
    ensures
        SubitemView::mounted(task.with_subitem(name).subitem_props(task.subitems.len() as int)) == (
        SubitemView {
            name,
            date: "2024-08-11"@,
            area: "Area 2"@,
            people: "Person 1"@,
            notes: "Sample Subitem Note"@,
            files: "0"@,
            budget: "$0"@,
        }),
{
}

} // verus!
