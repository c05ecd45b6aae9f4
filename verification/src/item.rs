//! One inbound notification.

use vstd::prelude::*;

verus! {

/// One notification as a producer handed it in: a text payload and,
/// optionally, who sent it. An item does not change once it is made.
#[derive(Debug)]
pub struct Item {
    text: String,
    origin: Option<String>,
}

/// The mathematical value of an [`Item`].
pub struct ItemView {
    /// The payload.
    pub text: Seq<char>,
    /// The sender, where one was given. It is used for display only.
    pub origin: Option<Seq<char>>,
}

impl View for Item {
    type V = ItemView;

    closed spec fn view(&self) -> ItemView {
        ItemView {
            text: self.text@,
            origin: match self.origin {
                Some(origin) => Some(origin@),
                None => None,
            },
        }
    }
}

impl Item {
    /// Makes an item from its payload and its optional sender.
    pub fn new(text: String, origin: Option<String>) -> (item: Item)
        ensures
            item@.text == text@,
            item@.origin == match origin {
                Some(o) => Some(o@),
                None => None::<Seq<char>>,
            },
    {
        Item { text, origin }
    }

    /// The payload.
    pub fn text(&self) -> (text: &str)
        ensures
            text@ == self@.text,
    {
        self.text.as_str()
    }

    /// The sender, where one was given.
    pub fn origin(&self) -> (origin: Option<&str>)
        ensures
            origin matches Some(o) ==> self@.origin == Some(o@),
            origin is None ==> self@.origin is None,
    {
        match &self.origin {
            Some(origin) => Some(origin.as_str()),
            None => None,
        }
    }
}

} // verus!
