//! The text buffer behind the "new note name" and "search query" fields.

use vstd::prelude::*;

verus! {

/// `String::push` appends the character to the end of the string.
pub assume_specification[ String::push ](s: &mut String, ch: char)
    ensures
        final(s)@ == old(s)@.push(ch),
;

/// `String::pop` removes the last character and returns it, or returns `None`
/// and leaves the string alone when it is empty.
pub assume_specification[ String::pop ](s: &mut String) -> (last: Option<char>)
    ensures
        old(s)@.len() == 0 ==> last is None && final(s)@ == old(s)@,
        old(s)@.len() > 0 ==> last == Some(old(s)@.last()) && final(s)@ == old(s)@.drop_last(),
;

/// `String::clear` removes every character.
pub assume_specification[ String::clear ](s: &mut String)
    ensures
        final(s)@ == Seq::<char>::empty(),
;

/// A growable line of text. Any character may be pushed; which keys reach the
/// buffer is decided by the code that owns it.
#[derive(Debug, Clone, PartialEq)]
pub struct TextInput {
    value: String,
}

impl View for TextInput {
    type V = Seq<char>;

    closed spec fn view(&self) -> Seq<char> {
        self.value@
    }
}

impl TextInput {
    /// An empty buffer.
    pub fn new() -> (input: TextInput)
        ensures
            input@ == Seq::<char>::empty(),
    {
        TextInput { value: String::new() }
    }

    /// A copy of the text.
    pub fn get(&self) -> (text: String)
        ensures
            text@ == self@,
    {
        self.value.clone()
    }

    /// Removes the whole text.
    pub fn clear(&mut self)
        ensures
            final(self)@ == Seq::<char>::empty(),
    {
        self.value.clear()
    }

    /// Appends one character.
    pub fn push(&mut self, c: char)
        ensures
            final(self)@ == old(self)@.push(c),
    {
        self.value.push(c)
    }

    /// Removes the last character and returns it; `None` on an empty buffer,
    /// which stays empty.
    pub fn pop(&mut self) -> (last: Option<char>)
        ensures
            old(self)@.len() == 0 ==> last is None && final(self)@ == old(self)@,
            old(self)@.len() > 0 ==> last == Some(old(self)@.last()) && final(self)@ == old(
                self,
            )@.drop_last(),
    {
        self.value.pop()
    }
}

} // verus!
