//! Building an identifier out of three words, and drawing the words at random.

use crate::case::{capitalize, capitalized};
use crate::words::{ADJECTIVES, NOUNS, VERBS};
use rand::rngs::ThreadRng;
use rand::seq::SliceRandom;
use vstd::prelude::*;

verus! {

/// A word as it stands in an identifier: capitalised on request, else as it is.
pub open spec fn styled(word: Seq<char>, capital: bool) -> Seq<char> {
    if capital {
        capitalized(word)
    } else {
        word
    }
}

/// Three parts in their order, with the separator between each two neighbours
/// and neither before the first nor after the last.
pub open spec fn joined(
    first: Seq<char>,
    second: Seq<char>,
    third: Seq<char>,
    separator: Seq<char>,
) -> Seq<char> {
    first + separator + second + separator + third
}

/// The identifier made of the three given words.
pub open spec fn id_text(
    adjective: Seq<char>,
    noun: Seq<char>,
    verb: Seq<char>,
    separator: Seq<char>,
    capital: bool,
) -> Seq<char> {
    joined(styled(adjective, capital), styled(noun, capital), styled(verb, capital), separator)
}

/// `(i, j, k)` points at an adjective, a noun and a verb of the vocabulary.
pub open spec fn is_pick(i: int, j: int, k: int) -> bool {
    &&& 0 <= i < ADJECTIVES@.len()
    &&& 0 <= j < NOUNS@.len()
    &&& 0 <= k < VERBS@.len()
}

/// The identifier made of the words that the pick `(i, j, k)` points at.
pub open spec fn id_of_pick(i: int, j: int, k: int, separator: Seq<char>, capital: bool) -> Seq<
    char,
> {
    id_text(ADJECTIVES@[i]@, NOUNS@[j]@, VERBS@[k]@, separator, capital)
}

/// `text` is an identifier that some pick from the vocabulary gives.
pub open spec fn is_id(text: Seq<char>, separator: Seq<char>, capital: bool) -> bool {
    exists|i: int, j: int, k: int|
        is_pick(i, j, k) && text == #[trigger] id_of_pick(i, j, k, separator, capital)
}

/// The generator that `rand` keeps for the current thread.
#[verifier::external_type_specification]
#[verifier::external_body]
pub struct ExThreadRng(ThreadRng);

/// Trusted: `rand::thread_rng`, which hands out the thread's generator, seeded
/// by the operating system on first use. Nothing is claimed of what it
/// returns. It panics only where the operating system gives no entropy to seed
/// the generator with, which depends on no argument and so cannot be ruled out
/// here.
pub assume_specification[ rand::thread_rng ]() -> (rng: ThreadRng);

/// Trusted: `rand::seq::SliceRandom::choose` on a slice. It returns `None` for
/// an empty slice and otherwise a reference to the entry at an index that it
/// draws below the length, so the result is one of the entries; which one is
/// left open, as it depends on the generator. Like `rand::thread_rng`, it
/// panics only where the operating system refuses the entropy for a reseeding.
/// Nothing is proved of this; Verus takes the contract as given.
#[verifier::external_body]
fn pick_word(list: &[&'static str], rng: &mut ThreadRng) -> (picked: Option<&'static str>)
    ensures
        list@.len() == 0 ==> picked is None,
        list@.len() > 0 ==> picked is Some,
        picked matches Some(word) ==> exists|i: int| 0 <= i < list@.len() && list@[i] == word,
{
    list.choose(rng).copied()
}

/// Joins the three given words into an identifier: each word capitalised if
/// `should_capitalize` is set, the separator between each two neighbours.
pub fn compose(
    adjective: &str,
    noun: &str,
    verb: &str,
    separator: &str,
    should_capitalize: bool,
) -> (out: String)
    ensures
        out@ == id_text(adjective@, noun@, verb@, separator@, should_capitalize),
{
    let mut out = if should_capitalize {
        capitalize(adjective)
    } else {
        String::from_str(adjective)
    };
    out.append(separator);
    if should_capitalize {
        let second = capitalize(noun);
        out.append(second.as_str());
    } else {
        out.append(noun);
    }
    out.append(separator);
    if should_capitalize {
        let third = capitalize(verb);
        out.append(third.as_str());
    } else {
        out.append(verb);
    }
    out
}

/// Generates an identifier: an adjective, a noun and a verb, each drawn at
/// random from its list, joined by `separator` and capitalised if
/// `should_capitalize` is set.
pub fn id(separator: &str, should_capitalize: bool) -> (out: String)
    ensures
        is_id(out@, separator@, should_capitalize),
{
    let mut rng = rand::thread_rng();
    let adjective = pick_word(&ADJECTIVES, &mut rng).unwrap();
    let noun = pick_word(&NOUNS, &mut rng).unwrap();
    let verb = pick_word(&VERBS, &mut rng).unwrap();
    let out = compose(adjective, noun, verb, separator, should_capitalize);
    proof {
        let i = choose|i: int| 0 <= i < ADJECTIVES@.len() && ADJECTIVES@[i] == adjective;
        let j = choose|j: int| 0 <= j < NOUNS@.len() && NOUNS@[j] == noun;
        let k = choose|k: int| 0 <= k < VERBS@.len() && VERBS@[k] == verb;
        assert(is_pick(i, j, k));
        assert(out@ == id_of_pick(i, j, k, separator@, should_capitalize));
    }
    out
}

} // verus!
