//! What holds of every identifier that the vocabulary gives.

use crate::case::{
    capital_of, capitals, has_no_capital, is_lowercase_letter, is_uppercase_letter,
    lemma_capitalized_lowercase, lemma_no_capital_no_capitals, uncapitalized,
};
use crate::generator::{id_of_pick, id_text, is_pick, styled};
use crate::split::{is_mark, lemma_mark_sets_apart, lemma_split_joined, sets_apart, split};
use crate::words::{is_word, lemma_vocabulary_is_sound, ADJECTIVES, NOUNS, VERBS};
use vstd::prelude::*;

verus! {

/// The three words of a pick as they stand in its identifier.
pub open spec fn parts_of_pick(i: int, j: int, k: int, capital: bool) -> Seq<Seq<char>> {
    seq![
        styled(ADJECTIVES@[i]@, capital),
        styled(NOUNS@[j]@, capital),
        styled(VERBS@[k]@, capital),
    ]
}

/// A part of an identifier with its capitalisation taken back, where it was
/// applied.
pub open spec fn unstyled(part: Seq<char>, capital: bool) -> Seq<char> {
    if capital {
        uncapitalized(part)
    } else {
        part
    }
}

/// Whether `c` can stand in a word of an identifier: a lowercase letter can,
/// and in a capitalised identifier an uppercase letter can too.
pub open spec fn can_stand_in_word(c: char, capital: bool) -> bool {
    is_lowercase_letter(c) || (capital && is_uppercase_letter(c))
}

/// The separator holds a character that cannot stand in a word of an
/// identifier.
pub open spec fn has_mark(separator: Seq<char>, capital: bool) -> bool {
    exists|n: int|
        0 <= n < separator.len() && !can_stand_in_word(#[trigger] separator[n], capital)
}

/// A word of the vocabulary, styled, is made of characters that can stand in a
/// word, and is not empty.
proof fn lemma_styled_word(word: Seq<char>, capital: bool)
    requires
        is_word(word),
    ensures
        styled(word, capital).len() == word.len(),
        forall|n: int|
            0 <= n < word.len() ==> can_stand_in_word(#[trigger] styled(word, capital)[n], capital),
        unstyled(styled(word, capital), capital) == word,
{
    if capital {
        lemma_capitalized_lowercase(word);
        assert forall|n: int| 0 <= n < word.len() implies can_stand_in_word(
            #[trigger] styled(word, capital)[n],
            capital,
        ) by {
            if n > 0 {
                assert(is_lowercase_letter(word[n]));
            }
        }
    }
}

/// The words that a pick points at are words.
proof fn lemma_picked_words(i: int, j: int, k: int)
    requires
        is_pick(i, j, k),
    ensures
        is_word(ADJECTIVES@[i]@),
        is_word(NOUNS@[j]@),
        is_word(VERBS@[k]@),
{
    lemma_vocabulary_is_sound();
}

/// The three parts of an identifier are never empty, and the identifier
/// splits on its separator into exactly these three parts if, and only if, the
/// separator sets them apart: if it is not empty and is found at the two
/// joints and nowhere else.
pub proof fn lemma_id_splits_into_its_words(
    i: int,
    j: int,
    k: int,
    separator: Seq<char>,
    capital: bool,
)
    requires
        is_pick(i, j, k),
    ensures
        forall|n: int| 0 <= n < 3 ==> (#[trigger] parts_of_pick(i, j, k, capital)[n]).len() > 0,
        split(id_of_pick(i, j, k, separator, capital), separator) == parts_of_pick(
            i,
            j,
            k,
            capital,
        ) <==> sets_apart(
            separator,
            styled(ADJECTIVES@[i]@, capital),
            styled(NOUNS@[j]@, capital),
            styled(VERBS@[k]@, capital),
        ),
{
    lemma_picked_words(i, j, k);
    lemma_styled_word(ADJECTIVES@[i]@, capital);
    lemma_styled_word(NOUNS@[j]@, capital);
    lemma_styled_word(VERBS@[k]@, capital);
    lemma_split_joined(
        styled(ADJECTIVES@[i]@, capital),
        styled(NOUNS@[j]@, capital),
        styled(VERBS@[k]@, capital),
        separator,
    );
}

/// A separator with a character that cannot stand in a word sets the words of
/// every identifier apart: the identifier splits on it into exactly three
/// parts, the adjective, the noun and the verb as they were styled.
pub proof fn lemma_marked_separator_splits_id(
    i: int,
    j: int,
    k: int,
    separator: Seq<char>,
    capital: bool,
)
    requires
        is_pick(i, j, k),
        has_mark(separator, capital),
    ensures
        split(id_of_pick(i, j, k, separator, capital), separator) == parts_of_pick(
            i,
            j,
            k,
            capital,
        ),
        split(id_of_pick(i, j, k, separator, capital), separator).len() == 3,
{
    lemma_picked_words(i, j, k);
    let first = styled(ADJECTIVES@[i]@, capital);
    let second = styled(NOUNS@[j]@, capital);
    let third = styled(VERBS@[k]@, capital);
    lemma_styled_word(ADJECTIVES@[i]@, capital);
    lemma_styled_word(NOUNS@[j]@, capital);
    lemma_styled_word(VERBS@[k]@, capital);
    let n = choose|n: int|
        0 <= n < separator.len() && !can_stand_in_word(#[trigger] separator[n], capital);
    let mark = separator[n];
    assert(is_mark(mark, separator, first, second, third));
    lemma_mark_sets_apart(first, second, third, separator, mark);
    lemma_split_joined(first, second, third, separator);
}

/// Each part of an identifier is a word of its list: the first an adjective,
/// the second a noun, the third a verb, once the capitalisation is taken back
/// where it was applied.
pub proof fn lemma_parts_are_vocabulary_words(i: int, j: int, k: int, capital: bool)
    requires
        is_pick(i, j, k),
    ensures
        unstyled(parts_of_pick(i, j, k, capital)[0], capital) == ADJECTIVES@[i]@,
        unstyled(parts_of_pick(i, j, k, capital)[1], capital) == NOUNS@[j]@,
        unstyled(parts_of_pick(i, j, k, capital)[2], capital) == VERBS@[k]@,
{
    lemma_picked_words(i, j, k);
    lemma_styled_word(ADJECTIVES@[i]@, capital);
    lemma_styled_word(NOUNS@[j]@, capital);
    lemma_styled_word(VERBS@[k]@, capital);
}

/// Without capitalisation every character of an identifier is a lowercase
/// letter or a character of the separator; so the identifier holds no
/// uppercase letter unless the separator brings one.
pub proof fn lemma_plain_id_has_no_capital(i: int, j: int, k: int, separator: Seq<char>)
    requires
        is_pick(i, j, k),
    ensures
        forall|n: int|
            0 <= n < id_of_pick(i, j, k, separator, false).len() ==> {
                let c = #[trigger] id_of_pick(i, j, k, separator, false)[n];
                is_lowercase_letter(c) || separator.contains(c)
            },
        has_no_capital(separator) ==> has_no_capital(id_of_pick(i, j, k, separator, false)),
{
    lemma_picked_words(i, j, k);
    let a = ADJECTIVES@[i]@;
    let b = NOUNS@[j]@;
    let c = VERBS@[k]@;
    let s = separator.len();
    let text = id_of_pick(i, j, k, separator, false);
    assert forall|n: int| 0 <= n < text.len() implies is_lowercase_letter(#[trigger] text[n])
        || separator.contains(text[n]) by {
        if n < a.len() {
            assert(is_lowercase_letter(a[n]));
        } else if n < a.len() + s {
            assert(text[n] == separator[n - a.len()]);
        } else if n < a.len() + s + b.len() {
            assert(is_lowercase_letter(b[n - a.len() - s]));
        } else if n < a.len() + s + b.len() + s {
            assert(text[n] == separator[n - a.len() - s - b.len()]);
        } else {
            assert(is_lowercase_letter(c[n - a.len() - s - b.len() - s]));
        }
    }
    if has_no_capital(separator) {
        assert forall|n: int| 0 <= n < text.len() implies !is_uppercase_letter(
            #[trigger] text[n],
        ) by {
            if separator.contains(text[n]) {
                let m = choose|m: int| 0 <= m < separator.len() && separator[m] == text[n];
                assert(!is_uppercase_letter(separator[m]));
            }
        }
    }
}

/// With capitalisation each of the three parts begins with an uppercase
/// letter, and these three are the only uppercase letters of the identifier
/// besides those that the separator brings.
pub proof fn lemma_capitalized_id_has_three_capitals(
    i: int,
    j: int,
    k: int,
    separator: Seq<char>,
)
    requires
        is_pick(i, j, k),
    ensures
        forall|n: int|
            0 <= n < 3 ==> is_uppercase_letter((#[trigger] parts_of_pick(i, j, k, true)[n])[0]),
        capitals(id_of_pick(i, j, k, separator, true)) == seq![capital_of(ADJECTIVES@[i]@[0])]
            + capitals(separator) + seq![capital_of(NOUNS@[j]@[0])] + capitals(separator)
            + seq![capital_of(VERBS@[k]@[0])],
        capitals(id_of_pick(i, j, k, separator, true)).len() == 3 + 2 * capitals(separator).len(),
        has_no_capital(separator) ==> capitals(id_of_pick(i, j, k, separator, true)).len() == 3,
{
    lemma_picked_words(i, j, k);
    let a = styled(ADJECTIVES@[i]@, true);
    let b = styled(NOUNS@[j]@, true);
    let c = styled(VERBS@[k]@, true);
    lemma_capitalized_lowercase(ADJECTIVES@[i]@);
    lemma_capitalized_lowercase(NOUNS@[j]@);
    lemma_capitalized_lowercase(VERBS@[k]@);
    let upper = |c: char| is_uppercase_letter(c);
    Seq::filter_distributes_over_add(a, separator, upper);
    Seq::filter_distributes_over_add(a + separator, b, upper);
    Seq::filter_distributes_over_add(a + separator + b, separator, upper);
    Seq::filter_distributes_over_add(a + separator + b + separator, c, upper);
    if has_no_capital(separator) {
        lemma_no_capital_no_capitals(separator);
    }
}

/// With an empty separator the identifier is the three styled words written
/// one after the other, with nothing put between them.
pub proof fn lemma_empty_separator_adds_nothing(
    adjective: Seq<char>,
    noun: Seq<char>,
    verb: Seq<char>,
    capital: bool,
)
    ensures
        id_text(adjective, noun, verb, Seq::<char>::empty(), capital) == styled(adjective, capital)
            + styled(noun, capital) + styled(verb, capital),
        id_text(adjective, noun, verb, Seq::<char>::empty(), capital).len() == styled(
            adjective,
            capital,
        ).len() + styled(noun, capital).len() + styled(verb, capital).len(),
{
    let e = Seq::<char>::empty();
    let a = styled(adjective, capital);
    let b = styled(noun, capital);
    let c = styled(verb, capital);
    assert(a + e + b + e + c =~= a + b + c);
}

} // verus!
