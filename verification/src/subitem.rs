//! The subitem component: a leaf of the board that edits its own fields.

use vstd::prelude::*;

use crate::event::{text_of, KeyDown};
use crate::palette::Color;

verus! {

/// What a task hands one of its subitems each time it is shown.
#[derive(Debug, PartialEq, Eq)]
pub struct SubitemProps {
    /// The subitem's name as the task holds it.
    pub name: String,
    /// Display color, that of the group.
    pub color: Color,
}

/// Model of a [`SubitemProps`].
pub struct SubitemPropsView {
    pub name: Seq<char>,
    pub color: Color,
}

impl View for SubitemProps {
    type V = SubitemPropsView;

    open spec fn view(&self) -> SubitemPropsView {
        SubitemPropsView { name: self.name@, color: self.color }
    }
}

impl Clone for SubitemProps {
    fn clone(&self) -> (copy: Self)
        ensures
            copy@ == self@,
    {
        SubitemProps { name: self.name.clone(), color: self.color }
    }
}

/// The fields of a subitem.
#[derive(Clone, Copy, Debug, PartialEq, Eq, Structural)]
pub enum SubitemField {
    Name,
    Date,
    Area,
    People,
    Notes,
    Files,
    Budget,
}

/// State of a subitem: the text of each of its fields.
#[derive(Debug, PartialEq, Eq)]
pub struct Subitem {
    pub name: String,
    pub date: String,
    pub area: String,
    pub people: String,
    pub notes: String,
    pub files: String,
    pub budget: String,
}

/// Model of a [`Subitem`].
pub struct SubitemView {
    pub name: Seq<char>,
    pub date: Seq<char>,
    pub area: Seq<char>,
    pub people: Seq<char>,
    pub notes: Seq<char>,
    pub files: Seq<char>,
    pub budget: Seq<char>,
}

impl View for Subitem {
    type V = SubitemView;

    open spec fn view(&self) -> SubitemView {
        SubitemView {
            name: self.name@,
            date: self.date@,
            area: self.area@,
            people: self.people@,
            notes: self.notes@,
            files: self.files@,
            budget: self.budget@,
        }
    }
}

impl Clone for Subitem {
    fn clone(&self) -> (copy: Self)
        ensures
            copy@ == self@,
    {
        Subitem {
            name: self.name.clone(),
            date: self.date.clone(),
            area: self.area.clone(),
            people: self.people.clone(),
            notes: self.notes.clone(),
            files: self.files.clone(),
            budget: self.budget.clone(),
        }
    }
}

impl SubitemView {
    /// A subitem as it first appears: named as the task says, every other
    /// field at its default.
    pub open spec fn mounted(props: SubitemPropsView) -> SubitemView {
        SubitemView {
            name: props.name,
            date: "2024-08-11"@,
            area: "Area 2"@,
            people: "Person 1"@,
            notes: "Sample Subitem Note"@,
            files: "0"@,
            budget: "$0"@,
        }
    }

    /// The text of a field.
    pub open spec fn field(self, field: SubitemField) -> Seq<char> {
        match field {
            SubitemField::Name => self.name,
            SubitemField::Date => self.date,
            SubitemField::Area => self.area,
            SubitemField::People => self.people,
            SubitemField::Notes => self.notes,
            SubitemField::Files => self.files,
            SubitemField::Budget => self.budget,
        }
    }

    /// The subitem with `text` in that field, all else as before.
    pub open spec fn with_field(self, field: SubitemField, text: Seq<char>) -> SubitemView {
        match field {
            SubitemField::Name => SubitemView { name: text, ..self },
            SubitemField::Date => SubitemView { date: text, ..self },
            SubitemField::Area => SubitemView { area: text, ..self },
            SubitemField::People => SubitemView { people: text, ..self },
            SubitemField::Notes => SubitemView { notes: text, ..self },
            SubitemField::Files => SubitemView { files: text, ..self },
            SubitemField::Budget => SubitemView { budget: text, ..self },
        }
    }

    /// The subitem after a key press in one of its fields: a confirmed text
    /// replaces the field's, anything else changes nothing.
    pub open spec fn after_key(self, field: SubitemField, event: KeyDown) -> SubitemView {
        match event.spec_committed() {
            Some(text) => self.with_field(field, text),
            None => self,
        }
    }
}

/// Makes the state of a subitem that appears with what it is handed.
pub fn subitem(props: &SubitemProps) -> (state: Subitem)
    ensures
        state@ == SubitemView::mounted(props@),
{
    Subitem {
        name: props.name.clone(),
        date: "2024-08-11".to_owned(),
        area: "Area 2".to_owned(),
        people: "Person 1".to_owned(),
        notes: "Sample Subitem Note".to_owned(),
        files: "0".to_owned(),
        budget: "$0".to_owned(),
    }
}

impl Subitem {
    /// The text of a field.
    pub fn field(&self, field: SubitemField) -> (text: &String)
        ensures
            text@ == self@.field(field),
    {
        match field {
            SubitemField::Name => &self.name,
            SubitemField::Date => &self.date,
            SubitemField::Area => &self.area,
            SubitemField::People => &self.people,
            SubitemField::Notes => &self.notes,
            SubitemField::Files => &self.files,
            SubitemField::Budget => &self.budget,
        }
    }

    /// Writes `text` into a field. No other field changes.
    pub fn set_field(&mut self, field: SubitemField, text: String)
        ensures
            final(self)@ == old(self)@.with_field(field, text@),
    {
        match field {
            SubitemField::Name => {
                self.name = text;
            },
            SubitemField::Date => {
                self.date = text;
            },
            SubitemField::Area => {
                self.area = text;
            },
            SubitemField::People => {
                self.people = text;
            },
            SubitemField::Notes => {
                self.notes = text;
            },
            SubitemField::Files => {
                self.files = text;
            },
            SubitemField::Budget => {
                self.budget = text;
            },
        }
    }

    /// Takes over the name that the task holds for this subitem.
    pub fn sync_name(&mut self, name: &String)
        ensures
            final(self)@ == old(self)@.with_field(SubitemField::Name, name@),
    {
        self.name = name.clone();
    }

    /// Handles a key press in one of the fields. The commit key on the field
    /// writes its text into the field, and the result is that text, for whom
    /// it is reported to. Any other key press changes nothing and reports
    /// nothing.
    pub fn on_input_change(&mut self, field: SubitemField, event: &KeyDown) -> (report: Option<
        String,
    >)
        ensures
            final(self)@ == old(self)@.after_key(field, *event),
            text_of(report) == event.spec_committed(),
    {
        match event.committed() {
            Some(text) => {
                self.set_field(field, text.clone());
                Some(text)
            },
            None => None,
        }
    }
}

/// Confirming a text in one field of a subitem puts it there and leaves
/// every other field as it was.
pub proof fn lemma_subitem_commit_is_local(
    state: SubitemView,
    field: SubitemField,
    other: SubitemField,
    text: Seq<char>,
)
    ensures
        state.with_field(field, text).field(field) == text,
        other != field ==> state.with_field(field, text).field(other) == state.field(other),
{
}

/// A key press that confirms nothing, be it another key than the commit key
/// or a target that is no input field, leaves a subitem as it was.
pub proof fn lemma_subitem_ignores_other_keys(
    state: SubitemView,
    field: SubitemField,
    event: KeyDown,
)
    requires
        event.key@ != crate::event::commit_key() || event.input_value is None,
    ensures
        state.after_key(field, event) == state,
{
}

} // verus!
