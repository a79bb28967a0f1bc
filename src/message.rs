use vstd::prelude::*;

verus! {

/// An immutable textual payload carried from a producer to subscribers.
#[derive(Clone, Debug, PartialEq, Eq)]
pub struct Message {
    text: String,
}

impl View for Message {
    type V = Seq<char>;

    closed spec fn view(&self) -> Seq<char> {
        self.text@
    }
}

impl Message {
    /// Wraps `text` as a message.
    pub fn new(text: String) -> (m: Message)
        ensures
            m@ == text@,
    {
        Message { text }
    }

    /// The payload.
    pub fn text(&self) -> (r: &str)
        ensures
            r@ == self@,
    {
        self.text.as_str()
    }
}

} // verus!
