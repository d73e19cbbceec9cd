use vstd::prelude::*;

verus! {

/// The text that remains of `s` once its leading and trailing white space is
/// gone, as `str::trim` gives it.
pub uninterp spec fn trimmed(s: Seq<char>) -> Seq<char>;

/// Relies on `str::trim`: the text without its leading and trailing white
/// space. What remains depends on the characters of `s` alone.
#[verifier::external_body]
fn trim_text(s: &str) -> (r: &str)
    ensures
        r@ == trimmed(s@),
{
    s.trim()
}

/// Relies on `String::push`: the character is appended at the end.
#[verifier::external_body]
fn push_char(s: &mut String, c: char)
    ensures
        final(s)@ == old(s)@.push(c),
{
    s.push(c)
}

/// The characters typed since the last submit. There is no editing: each
/// character is appended as it comes.
#[derive(Debug)]
pub struct InputBuffer {
    text: String,
}

impl View for InputBuffer {
    type V = Seq<char>;

    closed spec fn view(&self) -> Seq<char> {
        self.text@
    }
}

impl InputBuffer {
    /// Nothing typed yet.
    pub fn new() -> (r: InputBuffer)
        ensures
            r@ == Seq::<char>::empty(),
    {
        InputBuffer { text: String::new() }
    }

    /// What has been typed so far.
    pub fn as_str(&self) -> (r: &str)
        ensures
            r@ == self@,
    {
        self.text.as_str()
    }

    /// Appends a typed character.
    pub fn on_char(&mut self, c: char)
        ensures
            final(self)@ == old(self)@.push(c),
    {
        push_char(&mut self.text, c);
    }

    /// Forgets what was typed.
    pub fn clear(&mut self)
        ensures
            final(self)@ == Seq::<char>::empty(),
    {
        self.text = String::new();
    }

    /// Hands out what was typed, trimmed, and starts afresh.
    pub fn take_answer(&mut self) -> (r: String)
        ensures
            r@ == trimmed(old(self)@),
            final(self)@ == Seq::<char>::empty(),
    {
        let answer = trim_text(self.text.as_str()).to_owned();
        self.text = String::new();
        answer
    }
}

} // verus!
