//! A one-line input prompt with a cursor.

use vstd::prelude::*;

verus! {

/// A key press the prompt reacts to.
#[derive(PartialEq, Eq, Structural)]
pub enum KeyInput {
    Char(char),
    Backspace,
    Delete,
    Left,
    Right,
    Other,
}

/// The characters typed so far and the cursor position among them.
pub struct Prompt {
    dex: usize,
    chars: Vec<char>,
}

impl View for Prompt {
    /// The characters, and the cursor position.
    type V = (Seq<char>, nat);

    closed spec fn view(&self) -> (Seq<char>, nat) {
        (self.chars@, self.dex as nat)
    }
}

/// The characters and cursor after the key `input`: Enter empties a
/// non-empty line, a character is inserted at the cursor, Backspace and Delete
/// remove the character before and under the cursor, Left and Right move it.
pub open spec fn after_key(v: (Seq<char>, nat), input: KeyInput) -> (Seq<char>, nat) {
    let (chars, dex) = v;
    match input {
        KeyInput::Char(c) => if c == '\n' {
            if chars.len() == 0 {
                v
            } else {
                (Seq::empty(), 0)
            }
        } else {
            (chars.insert(dex as int, c), dex + 1)
        },
        KeyInput::Backspace => if dex > 0 {
            (chars.remove(dex - 1), (dex - 1) as nat)
        } else {
            v
        },
        KeyInput::Delete => if dex < chars.len() {
            (chars.remove(dex as int), dex)
        } else {
            v
        },
        KeyInput::Left => if dex > 0 {
            (chars, (dex - 1) as nat)
        } else {
            v
        },
        KeyInput::Right => if dex < chars.len() {
            (chars, dex + 1)
        } else {
            v
        },
        KeyInput::Other => v,
    }
}

/// Relies on std's `FromIterator<&char> for String`: the characters in order.
#[verifier::external_body]
fn string_of_chars(chars: &Vec<char>) -> (r: String)
    ensures
        r@ == chars@,
{
    chars.iter().collect()
}

impl Prompt {
    /// The cursor stands within the characters or just after them.
    pub open spec fn wf(&self) -> bool {
        self@.1 <= self@.0.len()
    }

    /// An empty prompt.
    pub fn new() -> (r: Self)
        ensures
            r.wf(),
            r@ == (Seq::<char>::empty(), 0nat),
    {
        Prompt { dex: 0, chars: Vec::new() }
    }

    /// Reacts to one key: Enter hands out the line, the other keys edit it.
    pub fn handle_input(&mut self, input: &KeyInput) -> (r: Option<String>)
        requires
            old(self).wf(),
            old(self)@.0.len() < usize::MAX,
        ensures
            final(self).wf(),
            final(self)@ == after_key(old(self)@, *input),
            (*input == KeyInput::Char('\n') && old(self)@.0.len() > 0) ==> (r matches Some(s)
                && s@ == old(self)@.0),
            !(*input == KeyInput::Char('\n') && old(self)@.0.len() > 0) ==> r is None,
    {
        match input {
            KeyInput::Char('\n') => self.finalize(),
            KeyInput::Backspace => self.back(),
            KeyInput::Delete => self.delete(),
            KeyInput::Left => self.left(),
            KeyInput::Right => self.right(),
            KeyInput::Char(c) => self.new_key(*c),
            KeyInput::Other => None,
        }
    }

    /// Moves the cursor one character to the left, if it can.
    pub fn left(&mut self) -> (r: Option<String>)
        requires
            old(self).wf(),
        ensures
            final(self).wf(),
            final(self)@.0 == old(self)@.0,
            final(self)@.1 == if old(self)@.1 > 0 { (old(self)@.1 - 1) as nat } else { 0 },
            r is None,
    {
        if self.dex > 0 {
            self.dex = self.dex - 1;
        }
        None
    }

    /// Moves the cursor one character to the right, if it can.
    pub fn right(&mut self) -> (r: Option<String>)
        requires
            old(self).wf(),
        ensures
            final(self).wf(),
            final(self)@.0 == old(self)@.0,
            final(self)@.1 == if old(self)@.1 < old(self)@.0.len() {
                old(self)@.1 + 1
            } else {
                old(self)@.1
            },
            r is None,
    {
        if self.dex < self.chars.len() {
            self.dex = self.dex + 1;
        }
        None
    }

    /// Removes the character under the cursor, if there is one.
    pub fn delete(&mut self) -> (r: Option<String>)
        requires
            old(self).wf(),
        ensures
            final(self).wf(),
            final(self)@.1 == old(self)@.1,
            final(self)@.0 == if old(self)@.1 < old(self)@.0.len() {
                old(self)@.0.remove(old(self)@.1 as int)
            } else {
                old(self)@.0
            },
            r is None,
    {
        if self.dex < self.chars.len() {
            self.chars.remove(self.dex);
        }
        None
    }

    /// Removes the character before the cursor and moves the cursor onto its
    /// place; nothing at the start of the line.
    pub fn back(&mut self) -> (r: Option<String>)
        requires
            old(self).wf(),
        ensures
            final(self).wf(),
            old(self)@.1 > 0 ==> final(self)@ == (
                old(self)@.0.remove(old(self)@.1 - 1),
                (old(self)@.1 - 1) as nat,
            ),
            old(self)@.1 == 0 ==> final(self)@ == old(self)@,
            r is None,
    {
        if self.dex > 0 {
            self.dex = self.dex - 1;
            self.chars.remove(self.dex);
        }
        None
    }

    /// Inserts `chr` at the cursor and moves the cursor past it.
    pub fn new_key(&mut self, chr: char) -> (r: Option<String>)
        requires
            old(self).wf(),
            old(self)@.0.len() < usize::MAX,
        ensures
            final(self).wf(),
            final(self)@ == (old(self)@.0.insert(old(self)@.1 as int, chr), old(self)@.1 + 1),
            r is None,
    {
        self.chars.insert(self.dex, chr);
        self.dex = self.dex + 1;
        None
    }

    /// Hands out the line and empties the prompt; `None` on an empty line.
    pub fn finalize(&mut self) -> (r: Option<String>)
        requires
            old(self).wf(),
        ensures
            final(self).wf(),
            old(self)@.0.len() == 0 ==> r is None && final(self)@ == old(self)@,
            old(self)@.0.len() > 0 ==> (r matches Some(s) && s@ == old(self)@.0),
            old(self)@.0.len() > 0 ==> final(self)@ == (Seq::<char>::empty(), 0nat),
    {
        if self.chars.len() == 0 {
            return None;
        }
        let message = string_of_chars(&self.chars);
        self.chars.clear();
        self.dex = 0;
        Some(message)
    }
}

impl Default for Prompt {
    fn default() -> (r: Self)
        ensures
            r.wf(),
            r@ == (Seq::<char>::empty(), 0nat),
    {
        Prompt::new()
    }
}

} // verus!
