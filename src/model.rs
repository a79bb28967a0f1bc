use vstd::prelude::*;

verus! {

/// What the page state reacts to.
pub enum Msg {
    /// The "+1" button was pressed.
    AddOne,
    /// The text field now holds this text.
    UpdateText(String),
}

/// The upper-case form of `s`, as `str::to_uppercase` computes it.
pub uninterp spec fn upper_of(s: Seq<char>) -> Seq<char>;

/// Relies on `str::to_uppercase`: the result depends on the characters of
/// `s` alone.
#[verifier::external_body]
fn to_upper(s: &str) -> (r: String)
    ensures
        r@ == upper_of(s@),
{
    s.to_uppercase()
}

/// The page state: a counter, the list of values it has shown before each
/// step, and the text field's content in upper case.
pub struct Model {
    value: i64,
    listy: Vec<i64>,
    content: String,
}

impl Model {
    /// The counter.
    pub closed spec fn counter(&self) -> int {
        self.value as int
    }

    /// The list of values on display.
    pub closed spec fn items(&self) -> Seq<i64> {
        self.listy@
    }

    /// The text on display.
    pub closed spec fn text(&self) -> Seq<char> {
        self.content@
    }

    /// The state the page starts in: counter 0, list 1, 2, 3, no text.
    pub fn new() -> (m: Model)
        ensures
            m.counter() == 0,
            m.items() == seq![1i64, 2, 3],
            m.text() == Seq::<char>::empty(),
    {
        let mut listy: Vec<i64> = Vec::new();
        listy.push(1);
        listy.push(2);
        listy.push(3);
        let content = String::new();
        Model { value: 0, listy, content }
    }

    /// Applies `msg`: `AddOne` appends the counter to the list and then
    /// increments it; `UpdateText` stores the text in upper case. The result
    /// says whether the page must be redrawn, which it always must.
    pub fn update(&mut self, msg: Msg) -> (redraw: bool)
        requires
            msg is AddOne ==> old(self).counter() < i64::MAX,
        ensures
            redraw,
            match msg {
                Msg::AddOne => {
                    &&& final(self).items() == old(self).items().push(old(self).counter() as i64)
                    &&& final(self).counter() == old(self).counter() + 1
                    &&& final(self).text() == old(self).text()
                },
                Msg::UpdateText(s) => {
                    &&& final(self).text() == upper_of(s@)
                    &&& final(self).counter() == old(self).counter()
                    &&& final(self).items() == old(self).items()
                },
            },
    {
        match msg {
            Msg::AddOne => {
                self.listy.push(self.value);
                self.value = self.value + 1;
            },
            Msg::UpdateText(s) => {
                self.content = to_upper(s.as_str());
            },
        }
        true
    }

    /// The list as it is laid out: each value, and whether a non-breaking
    /// space goes before it (for every value but the first).
    pub fn rows(&self) -> (r: Vec<(i64, bool)>)
        ensures
            r@.len() == self.items().len(),
            forall|i: int| 0 <= i < r@.len() ==> #[trigger] r@[i] == (self.items()[i], i != 0),
    {
        let mut r: Vec<(i64, bool)> = Vec::new();
        let mut i: usize = 0;
        while i < self.listy.len()
            invariant
                i <= self.listy.len(),
                r@.len() == i,
                forall|k: int| 0 <= k < i ==> #[trigger] r@[k] == (self.listy@[k], k != 0),
            decreases self.listy.len() - i,
        {
            r.push((self.listy[i], i != 0));
            i = i + 1;
        }
        r
    }

    /// The counter.
    pub fn value(&self) -> (v: i64)
        ensures
            v == self.counter(),
    {
        self.value
    }

    /// The list of values on display.
    pub fn listy(&self) -> (r: &[i64])
        ensures
            r@ == self.items(),
    {
        self.listy.as_slice()
    }

    /// The text on display.
    pub fn content(&self) -> (r: &str)
        ensures
            r@ == self.text(),
    {
        self.content.as_str()
    }
}

} // verus!
