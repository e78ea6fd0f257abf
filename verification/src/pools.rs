//! The four pools of characters that a generated password draws from.

use vstd::prelude::*;

verus! {

/// The lowercase letters.
pub const LOWERCASE: &'static str = "abcdefghijklmnopqrstuvwxyz";

/// The uppercase letters.
pub const UPPERCASE: &'static str = "ABCDEFGHIJKLMNOPQRSTUVWXYZ";

/// The digits.
pub const DIGITS: &'static str = "0123456789";

/// The symbols.
pub const SYMBOLS: &'static str = "!@#$%^&*()-_=+[]{};:,.<>?";

/// The number of pools.
pub const CLASS_COUNT: usize = 4;

/// One of the four classes of characters.
#[derive(Clone, Copy, Debug, PartialEq, Eq, Structural)]
pub enum CharClass {
    Lowercase,
    Uppercase,
    Digit,
    Symbol,
}

impl CharClass {
    /// The characters of the class, in the order of its pool.
    pub open spec fn pool(self) -> Seq<char> {
        match self {
            CharClass::Lowercase => LOWERCASE@,
            CharClass::Uppercase => UPPERCASE@,
            CharClass::Digit => DIGITS@,
            CharClass::Symbol => SYMBOLS@,
        }
    }

    /// Whether the class has the character.
    pub open spec fn holds(self, c: char) -> bool {
        self.pool().contains(c)
    }

    /// The class that a draw below [`CLASS_COUNT`] selects.
    pub open spec fn selected(draw: int) -> CharClass {
        if draw == 0 {
            CharClass::Lowercase
        } else if draw == 1 {
            CharClass::Uppercase
        } else if draw == 2 {
            CharClass::Digit
        } else {
            CharClass::Symbol
        }
    }

    /// The pool of the class as text.
    pub fn pool_text(self) -> (text: &'static str)
        ensures
            text@ == self.pool(),
    {
        match self {
            CharClass::Lowercase => LOWERCASE,
            CharClass::Uppercase => UPPERCASE,
            CharClass::Digit => DIGITS,
            CharClass::Symbol => SYMBOLS,
        }
    }

    /// How many characters the class has: 26 letters, 10 digits, 25 symbols.
    pub fn size(self) -> (count: usize)
        ensures
            count == self.pool().len(),
            count == match self {
                CharClass::Lowercase => 26int,
                CharClass::Uppercase => 26int,
                CharClass::Digit => 10int,
                CharClass::Symbol => 25int,
            },
    {
        proof {
            reveal_strlit("abcdefghijklmnopqrstuvwxyz");
            reveal_strlit("ABCDEFGHIJKLMNOPQRSTUVWXYZ");
            reveal_strlit("0123456789");
            reveal_strlit("!@#$%^&*()-_=+[]{};:,.<>?");
        }
        match self {
            CharClass::Lowercase => 26,
            CharClass::Uppercase => 26,
            CharClass::Digit => 10,
            CharClass::Symbol => 25,
        }
    }

    /// The character of the class that stands at `draw` in its pool.
    pub fn pick(self, draw: usize) -> (c: char)
        requires
            draw < self.pool().len(),
        ensures
            c == self.pool()[draw as int],
            self.holds(c),
    {
        self.pool_text().get_char(draw)
    }

    /// The class that a draw selects: the first three draws name the letters
    /// and the digits, every other draw the symbols.
    pub fn of_draw(draw: usize) -> (class: CharClass)
        ensures
            class == CharClass::selected(draw as int),
    {
        if draw == 0 {
            CharClass::Lowercase
        } else if draw == 1 {
            CharClass::Uppercase
        } else if draw == 2 {
            CharClass::Digit
        } else {
            CharClass::Symbol
        }
    }
}

} // verus!
