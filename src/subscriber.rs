use vstd::prelude::*;

use crate::bus::{DeliveryFailed, Sink};
use crate::message::Message;

verus! {

/// What a subscriber reacts to.
pub enum Msg {
    /// Its own button was pressed.
    LocalClicked,
    /// A message arrived from the bus.
    NewMessage(String),
}

/// The state of a subscriber widget: the message on display, replaced by
/// each new one (last write wins, nothing buffered).
pub struct Subscriber {
    message: String,
    history: Ghost<Seq<Seq<char>>>,
}

impl Subscriber {
    /// The message on display.
    pub closed spec fn shown(&self) -> Seq<char> {
        self.message@
    }

    /// Every message that has arrived, oldest first.
    pub closed spec fn arrived(&self) -> Seq<Seq<char>> {
        self.history@
    }

    /// A subscriber that has received nothing yet.
    pub fn new() -> (s: Subscriber)
        ensures
            s.shown() == "No message yet."@,
            s.arrived() == Seq::<Seq<char>>::empty(),
    {
        Subscriber { message: "No message yet.".to_owned(), history: Ghost(Seq::empty()) }
    }

    /// Applies `msg`; the result says whether the display must be redrawn,
    /// which it always must.
    pub fn update(&mut self, msg: Msg) -> (redraw: bool)
        ensures
            redraw,
            match msg {
                Msg::LocalClicked => {
                    &&& final(self).shown() == "local clicked"@
                    &&& final(self).arrived() == old(self).arrived()
                },
                Msg::NewMessage(s) => {
                    &&& final(self).shown() == s@
                    &&& final(self).arrived() == old(self).arrived().push(s@)
                },
            },
    {
        match msg {
            Msg::LocalClicked => {
                self.message = "local clicked".to_owned();
            },
            Msg::NewMessage(s) => {
                self.history = Ghost(self.history@.push(s@));
                self.message = s;
            },
        }
        true
    }

    /// The message on display.
    pub fn message(&self) -> (r: &str)
        ensures
            r@ == self.shown(),
    {
        self.message.as_str()
    }
}

/// A subscriber shows each delivered message and never refuses one.
impl Sink for Subscriber {
    open spec fn received(&self) -> Seq<Seq<char>> {
        self.arrived()
    }

    open spec fn current(&self) -> Seq<char> {
        self.shown()
    }

    open spec fn refuses(&self, m: Seq<char>) -> bool {
        false
    }

    fn deliver(&mut self, m: &Message) -> (r: Result<(), DeliveryFailed>) {
        let text = m.text().to_owned();
        self.update(Msg::NewMessage(text));
        Ok(())
    }
}

} // verus!
