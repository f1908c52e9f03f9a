//! Key presses as the components read them, and the rule by which a key press
//! confirms the text of an input field.

use vstd::prelude::*;

verus! {

/// A key press aimed at some element of the page.
#[derive(Debug, PartialEq, Eq)]
pub struct KeyDown {
    /// Name of the key that was pressed.
    pub key: String,
    /// Text held by the input field the key press was aimed at, or `None`
    /// when its target is not an input field.
    pub input_value: Option<String>,
}

/// Name of the key that confirms a field.
pub open spec fn commit_key() -> Seq<char> {
    "Enter"@
}

/// The text of an optional string.
pub open spec fn text_of(value: Option<String>) -> Option<Seq<char>> {
    match value {
        Some(s) => Some(s@),
        None => None,
    }
}

impl Clone for KeyDown {
    fn clone(&self) -> (copy: Self)
        ensures
            copy.key@ == self.key@,
            text_of(copy.input_value) == text_of(self.input_value),
    {
        KeyDown {
            key: self.key.clone(),
            input_value: match &self.input_value {
                Some(value) => Some(value.clone()),
                None => None,
            },
        }
    }
}

impl KeyDown {
    /// The text this key press confirms: that of the targeted input field when
    /// the key is the commit key, and nothing for any other key or target.
    pub open spec fn spec_committed(&self) -> Option<Seq<char>> {
        if self.key@ == commit_key() {
            text_of(self.input_value)
        } else {
            None
        }
    }

    /// The text this key press submits on a row that adds an entry: the
    /// confirmed text, unless it is empty.
    pub open spec fn spec_submitted(&self) -> Option<Seq<char>> {
        match self.spec_committed() {
            Some(text) => if text.len() > 0 {
                Some(text)
            } else {
                None
            },
            None => None,
        }
    }

    /// Whether the pressed key is the commit key.
    pub fn is_commit(&self) -> (b: bool)
        ensures
            b == (self.key@ == commit_key()),
    {
        let enter = "Enter".to_owned();
        self.key == enter
    }

    /// The text this key press confirms, if any.
    pub fn committed(&self) -> (text: Option<String>)
        ensures
            text_of(text) == self.spec_committed(),
    {
        if self.is_commit() {
            match &self.input_value {
                Some(value) => Some(value.clone()),
                None => None,
            }
        } else {
            None
        }
    }

    /// The text this key press submits on a row that adds an entry, if any.
    pub fn submitted(&self) -> (text: Option<String>)
        ensures
            text_of(text) == self.spec_submitted(),
    {
        match self.committed() {
            Some(value) => if value.as_str().is_empty() {
                None
            } else {
                Some(value)
            },
            None => None,
        }
    }
}

} // verus!
