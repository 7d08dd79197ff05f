//! Comparing free-text guesses with the answers, ignoring case and
//! surrounding white space.

use vstd::prelude::*;

verus! {

/// What `str::trim` leaves of a text.
pub uninterp spec fn trimmed(text: Seq<char>) -> Seq<char>;

/// What `str::to_lowercase` makes of a text.
pub uninterp spec fn lowercased(text: Seq<char>) -> Seq<char>;

/// The key under which a text is compared: trimmed, then lowercased.
pub open spec fn normalized(text: Seq<char>) -> Seq<char> {
    lowercased(trimmed(text))
}

/// Calls `str::trim`, which returns the text without its leading and
/// trailing Unicode white space. Trusted: the result is `trimmed` of the
/// argument, a function of the characters alone.
#[verifier::external_body]
fn trim(text: &str) -> (inner: &str)
    ensures
        inner@ == trimmed(text@),
{
    text.trim()
}

/// Calls `str::to_lowercase`, which returns the text with every character
/// replaced by its Unicode lowercase mapping. Trusted: the result is
/// `lowercased` of the argument, a function of the characters alone.
#[verifier::external_body]
fn to_lowercase(text: &str) -> (lower: String)
    ensures
        lower@ == lowercased(text@),
{
    text.to_lowercase()
}

/// The key of a text: without surrounding white space, in lower case.
pub fn normalize(text: &str) -> (key: String)
    ensures
        key@ == normalized(text@),
{
    to_lowercase(trim(text))
}

/// Answer `i` is still open and its key is the guess.
pub open spec fn is_open_match(
    keys: Seq<Seq<char>>,
    found: Seq<bool>,
    guess: Seq<char>,
    i: int,
) -> bool {
    0 <= i < keys.len() && i < found.len() && !found[i] && keys[i] == guess
}

/// The first open match at or after `start`, if there is one.
pub open spec fn first_open_match_from(
    keys: Seq<Seq<char>>,
    found: Seq<bool>,
    guess: Seq<char>,
    start: int,
) -> Option<int>
    decreases keys.len() - start,
{
    if start < 0 || start >= keys.len() {
        None
    } else if is_open_match(keys, found, guess, start) {
        Some(start)
    } else {
        first_open_match_from(keys, found, guess, start + 1)
    }
}

/// The first answer that is still open and whose key is the guess.
pub open spec fn first_open_match(keys: Seq<Seq<char>>, found: Seq<bool>, guess: Seq<char>) -> Option<
    int,
> {
    first_open_match_from(keys, found, guess, 0)
}

/// `first_open_match_from` returns the least matching index from `start`
/// on, and nothing exactly when no index from `start` on matches.
pub proof fn lemma_first_open_match_from(
    keys: Seq<Seq<char>>,
    found: Seq<bool>,
    guess: Seq<char>,
    start: int,
)
    requires
        0 <= start,
    ensures
        match first_open_match_from(keys, found, guess, start) {
            Some(i) => {
                &&& start <= i
                &&& is_open_match(keys, found, guess, i)
                &&& forall|j: int| start <= j < i ==> !is_open_match(keys, found, guess, j)
            },
            None => forall|j: int| start <= j ==> !is_open_match(keys, found, guess, j),
        },
    decreases keys.len() - start,
{
    if start < keys.len() && !is_open_match(keys, found, guess, start) {
        lemma_first_open_match_from(keys, found, guess, start + 1);
    }
}

/// The found-flags of a list of answers, in order.
pub open spec fn flags_of(entries: Seq<(String, bool)>) -> Seq<bool> {
    entries.map_values(|entry: (String, bool)| entry.1)
}

/// The values of a list of texts, in order.
pub open spec fn texts_of(keys: Seq<String>) -> Seq<Seq<char>> {
    keys.map_values(|key: String| key@)
}

/// Finds the first entry that has not been found yet and whose key equals
/// the guess. `keys[i]` is the key of `entries[i]`.
pub fn find_open_match(keys: &Vec<String>, entries: &Vec<(String, bool)>, guess: &String) -> (hit:
    Option<usize>)
    requires
        keys.len() == entries.len(),
    ensures
        match hit {
            Some(i) => first_open_match(texts_of(keys@), flags_of(entries@), guess@) == Some(
                i as int,
            ),
            None => first_open_match(texts_of(keys@), flags_of(entries@), guess@) is None,
        },
{
    let ghost texts = texts_of(keys@);
    let ghost flags = flags_of(entries@);
    let mut i: usize = 0;
    while i < keys.len()
        invariant
            i <= keys.len(),
            keys.len() == entries.len(),
            texts == texts_of(keys@),
            flags == flags_of(entries@),
            first_open_match(texts, flags, guess@) == first_open_match_from(
                texts,
                flags,
                guess@,
                i as int,
            ),
        decreases keys.len() - i,
    {
        if !entries[i].1 && keys[i] == *guess {
            assert(is_open_match(texts, flags, guess@, i as int));
            return Some(i);
        }
        assert(!is_open_match(texts, flags, guess@, i as int));
        i += 1;
    }
    None
}

} // verus!
