//! The generator of strong passwords.

use crate::pools::{CharClass, CLASS_COUNT};
use crate::random::{random_below, shuffle};
use crate::text::string_from_chars;
use vstd::prelude::*;
use vstd::seq_lib::{to_multiset_contains, to_multiset_len};

verus! {

/// The length of every generated password.
pub const PASSWORD_LENGTH: usize = 20;

/// Whether a text has a character of the class.
pub open spec fn has_class(text: Seq<char>, class: CharClass) -> bool {
    exists|i: int| 0 <= i < text.len() && class.holds(#[trigger] text[i])
}

/// Whether a character belongs to one of the four pools.
pub open spec fn in_some_pool(c: char) -> bool {
    CharClass::Lowercase.holds(c) || CharClass::Uppercase.holds(c) || CharClass::Digit.holds(c)
        || CharClass::Symbol.holds(c)
}

/// Whether every character of a text belongs to one of the four pools.
pub open spec fn within_pools(text: Seq<char>) -> bool {
    forall|i: int| 0 <= i < text.len() ==> in_some_pool(#[trigger] text[i])
}

/// What holds of every generated password: it has twenty characters, at
/// least one of each class, and none from outside the pools.
pub open spec fn is_strong_password(text: Seq<char>) -> bool {
    &&& text.len() == PASSWORD_LENGTH
    &&& has_class(text, CharClass::Lowercase)
    &&& has_class(text, CharClass::Uppercase)
    &&& has_class(text, CharClass::Digit)
    &&& has_class(text, CharClass::Symbol)
    &&& within_pools(text)
}

/// A text made of the same characters, each as often, has a class if the
/// other has it.
pub proof fn lemma_rearranged_has_class(before: Seq<char>, after: Seq<char>, class: CharClass)
    requires
        before.to_multiset() == after.to_multiset(),
        has_class(before, class),
    ensures
        has_class(after, class),
{
    let i = choose|i: int| 0 <= i < before.len() && class.holds(#[trigger] before[i]);
    let c = before[i];
    assert(before.contains(c));
    to_multiset_contains(before, c);
    to_multiset_contains(after, c);
    let j = choose|j: int| 0 <= j < after.len() && after[j] == c;
    assert(class.holds(after[j]));
}

/// Rearranging a password keeps it strong.
pub proof fn lemma_rearranged_strong(before: Seq<char>, after: Seq<char>)
    requires
        before.to_multiset() == after.to_multiset(),
        is_strong_password(before),
    ensures
        is_strong_password(after),
{
    to_multiset_len(before);
    to_multiset_len(after);
    lemma_rearranged_has_class(before, after, CharClass::Lowercase);
    lemma_rearranged_has_class(before, after, CharClass::Uppercase);
    lemma_rearranged_has_class(before, after, CharClass::Digit);
    lemma_rearranged_has_class(before, after, CharClass::Symbol);
    assert forall|j: int| 0 <= j < after.len() implies in_some_pool(#[trigger] after[j]) by {
        let c = after[j];
        assert(after.contains(c));
        to_multiset_contains(after, c);
        to_multiset_contains(before, c);
        let i = choose|i: int| 0 <= i < before.len() && before[i] == c;
        assert(in_some_pool(before[i]));
    }
}

/// A character of the class, chosen at random from its pool.
pub fn random_of(class: CharClass) -> (c: char)
    ensures
        class.holds(c),
{
    let draw = random_below(class.size());
    class.pick(draw)
}

/// A lowercase letter chosen at random.
pub fn get_random_lowercase() -> (c: char)
    ensures
        CharClass::Lowercase.holds(c),
{
    random_of(CharClass::Lowercase)
}

/// An uppercase letter chosen at random.
pub fn get_random_uppercase() -> (c: char)
    ensures
        CharClass::Uppercase.holds(c),
{
    random_of(CharClass::Uppercase)
}

/// A digit chosen at random.
pub fn get_random_number() -> (c: char)
    ensures
        CharClass::Digit.holds(c),
{
    random_of(CharClass::Digit)
}

/// A symbol chosen at random.
pub fn get_random_symbol() -> (c: char)
    ensures
        CharClass::Symbol.holds(c),
{
    random_of(CharClass::Symbol)
}

/// A new password of twenty characters. One character of each class comes
/// first, the rest are drawn from a class that is itself drawn at random,
/// and the whole is shuffled, so that no position tells its class.
pub fn generate_random_password() -> (password: String)
    ensures
        is_strong_password(password@),
{
    let mut chars: Vec<char> = Vec::new();
    chars.push(get_random_lowercase());
    chars.push(get_random_uppercase());
    chars.push(get_random_number());
    chars.push(get_random_symbol());
    while chars.len() < PASSWORD_LENGTH
        invariant
            4 <= chars.len() <= PASSWORD_LENGTH,
            CharClass::Lowercase.holds(chars@[0]),
            CharClass::Uppercase.holds(chars@[1]),
            CharClass::Digit.holds(chars@[2]),
            CharClass::Symbol.holds(chars@[3]),
            within_pools(chars@),
        decreases PASSWORD_LENGTH - chars.len(),
    {
        let class = CharClass::of_draw(random_below(CLASS_COUNT));
        chars.push(random_of(class));
    }
    let ghost drawn = chars@;
    shuffle(&mut chars);
    proof {
        lemma_rearranged_strong(drawn, chars@);
    }
    string_from_chars(chars)
}

} // verus!
