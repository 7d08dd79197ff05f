//! Lobby codes: short, typed in by hand.

use rand::distr::Alphanumeric;
use rand::Rng;
use vstd::prelude::*;

verus! {

/// Number of characters of a lobby code.
pub const LOBBY_CODE_LENGTH: usize = 6;

/// An ASCII letter or digit.
pub open spec fn is_alphanumeric(c: char) -> bool {
    ||| 'a' <= c <= 'z'
    ||| 'A' <= c <= 'Z'
    ||| '0' <= c <= '9'
}

/// Every character is an ASCII letter or digit.
pub open spec fn all_alphanumeric(text: Seq<char>) -> bool {
    forall|i: int| 0 <= i < text.len() ==> is_alphanumeric(#[trigger] text[i])
}

/// A lobby code is six ASCII letters or digits.
pub open spec fn is_lobby_code(text: Seq<char>) -> bool {
    text.len() == LOBBY_CODE_LENGTH && all_alphanumeric(text)
}

/// Samples `length` times from rand's `Alphanumeric` with the thread's
/// generator (`rand::rng`) and collects the characters. Trusted: the
/// result has `length` characters, and each is one of a-z, A-Z, 0-9, as
/// the distribution documents. Which ones is up to chance.
#[verifier::external_body]
fn random_alphanumeric(length: usize) -> (text: String)
    ensures
        text@.len() == length,
        all_alphanumeric(text@),
{
    rand::rng().sample_iter(&Alphanumeric).take(length).map(char::from).collect()
}

/// The characters of lobby codes, each once.
pub open spec fn alphabet_text() -> Seq<char> {
    "ABCDEFGHIJKLMNOPQRSTUVWXYZabcdefghijklmnopqrstuvwxyz0123456789"@
}

/// Number of characters of the alphabet.
pub const ALPHABET_LENGTH: usize = 62;

/// The alphabet holds the ASCII letters and digits and nothing else.
pub proof fn lemma_alphabet()
    ensures
        alphabet_text().len() == ALPHABET_LENGTH,
        forall|i: int| 0 <= i < ALPHABET_LENGTH ==> is_alphanumeric(#[trigger] alphabet_text()[i]),
        forall|c: char|
            is_alphanumeric(c) ==> 0 <= alphabet_position(c) < ALPHABET_LENGTH
                && alphabet_text()[alphabet_position(c)] == c,
{
    reveal_strlit("ABCDEFGHIJKLMNOPQRSTUVWXYZabcdefghijklmnopqrstuvwxyz0123456789");
}

/// Where a letter or digit stands in the alphabet.
pub open spec fn alphabet_position(c: char) -> int {
    if 'A' <= c <= 'Z' {
        c as int - 'A' as int
    } else if 'a' <= c <= 'z' {
        26 + (c as int - 'a' as int)
    } else {
        52 + (c as int - '0' as int)
    }
}

/// The alphabet.
pub fn alphabet() -> (letters: &'static str)
    ensures
        letters@ == alphabet_text(),
{
    "ABCDEFGHIJKLMNOPQRSTUVWXYZabcdefghijklmnopqrstuvwxyz0123456789"
}

/// `text` begins with `prefix`.
pub open spec fn starts_with(text: Seq<char>, prefix: Seq<char>) -> bool {
    prefix.len() <= text.len() && text.subrange(0, prefix.len() as int) == prefix
}

/// Draws a lobby code at random.
pub fn generate_lobby_code() -> (code: String)
    ensures
        is_lobby_code(code@),
{
    random_alphanumeric(LOBBY_CODE_LENGTH)
}

} // verus!
