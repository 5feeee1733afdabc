//! Splitting a text on a separator, and when a joined text splits back into
//! its parts.

use crate::generator::joined;
use vstd::prelude::*;

verus! {

/// `pattern` stands in `text` at position `at`.
pub open spec fn occurs_at(text: Seq<char>, pattern: Seq<char>, at: int) -> bool {
    &&& 0 <= at
    &&& at + pattern.len() <= text.len()
    &&& text.subrange(at, at + pattern.len()) == pattern
}

/// The pieces of `text` between the occurrences of `separator`, where the
/// search for the next occurrence starts at position `at` and, after each
/// occurrence found, goes on behind it. A text in which nothing is found is
/// one piece; so is every text when the separator is empty.
pub open spec fn split_from(text: Seq<char>, separator: Seq<char>, at: int) -> Seq<Seq<char>>
    decreases text.len(), text.len() - at,
{
    if separator.len() == 0 || at < 0 || at + separator.len() > text.len() {
        seq![text]
    } else if occurs_at(text, separator, at) {
        seq![text.subrange(0, at)] + split_from(
            text.subrange(at + separator.len(), text.len() as int),
            separator,
            0,
        )
    } else {
        split_from(text, separator, at + 1)
    }
}

/// The pieces of `text` between the occurrences of a non-empty `separator`,
/// taken from left to right without overlap.
pub open spec fn split(text: Seq<char>, separator: Seq<char>) -> Seq<Seq<char>> {
    split_from(text, separator, 0)
}

/// In `part` followed by the separator, the separator is found behind the part
/// and nowhere before.
pub open spec fn found_only_behind(part: Seq<char>, separator: Seq<char>) -> bool {
    forall|p: int| 0 <= p < part.len() ==> !occurs_at(part + separator, separator, p)
}

/// The separator is found nowhere in `text`.
pub open spec fn never_found(text: Seq<char>, separator: Seq<char>) -> bool {
    forall|p: int| !occurs_at(text, separator, p)
}

/// The separator is not empty and is found, in the three parts joined by it,
/// at the two joints and nowhere else on the way from left to right.
pub open spec fn sets_apart(
    separator: Seq<char>,
    first: Seq<char>,
    second: Seq<char>,
    third: Seq<char>,
) -> bool {
    &&& separator.len() > 0
    &&& found_only_behind(first, separator)
    &&& found_only_behind(second, separator)
    &&& never_found(third, separator)
}

/// `mark` is a character of the separator that none of the three parts holds.
pub open spec fn is_mark(
    mark: char,
    separator: Seq<char>,
    first: Seq<char>,
    second: Seq<char>,
    third: Seq<char>,
) -> bool {
    &&& separator.contains(mark)
    &&& !first.contains(mark)
    &&& !second.contains(mark)
    &&& !third.contains(mark)
}

/// Whether the separator stands at a position before the end of `part` is the
/// same in `part + separator` and in any text that goes on behind it.
proof fn lemma_occurrence_in_front(
    part: Seq<char>,
    separator: Seq<char>,
    rest: Seq<char>,
    p: int,
)
    requires
        0 <= p <= part.len(),
    ensures
        occurs_at(part + separator + rest, separator, p) <==> occurs_at(
            part + separator,
            separator,
            p,
        ),
{
    let n = separator.len() as int;
    assert((part + separator + rest).subrange(p, p + n) =~= (part + separator).subrange(p, p + n));
}

/// The search that starts at `at` and meets the separator first at `p` cuts
/// the text there and goes on behind the separator.
proof fn lemma_search_finds(text: Seq<char>, separator: Seq<char>, at: int, p: int)
    requires
        separator.len() > 0,
        0 <= at <= p,
        occurs_at(text, separator, p),
        forall|q: int| at <= q < p ==> !occurs_at(text, separator, q),
    ensures
        split_from(text, separator, at) == seq![text.subrange(0, p)] + split(
            text.subrange(p + separator.len(), text.len() as int),
            separator,
        ),
    decreases p - at,
{
    if at < p {
        lemma_search_finds(text, separator, at + 1, p);
    }
}

/// The search that meets no separator from `at` on leaves the text in one
/// piece.
proof fn lemma_search_finds_nothing(text: Seq<char>, separator: Seq<char>, at: int)
    requires
        0 <= at,
        forall|q: int| at <= q ==> !occurs_at(text, separator, q),
    ensures
        split_from(text, separator, at) == seq![text],
    decreases text.len() - at,
{
    if separator.len() > 0 && at + separator.len() <= text.len() {
        lemma_search_finds_nothing(text, separator, at + 1);
    }
}

/// Where the separator stands at `p`, the first piece that the search from
/// `at` cuts off ends at `p` or before.
proof fn lemma_first_piece_is_short(text: Seq<char>, separator: Seq<char>, at: int, p: int)
    requires
        separator.len() > 0,
        0 <= at <= p,
        occurs_at(text, separator, p),
    ensures
        split_from(text, separator, at).len() >= 1,
        split_from(text, separator, at)[0].len() <= p,
    decreases p - at,
{
    if !occurs_at(text, separator, at) {
        lemma_first_piece_is_short(text, separator, at + 1, p);
    }
}

/// A text made of a part, the separator and a rest splits into the part and
/// the pieces of the rest if the separator is found only behind the part, and
/// else begins with a piece that is shorter than the part.
proof fn lemma_split_front(part: Seq<char>, separator: Seq<char>, rest: Seq<char>)
    requires
        separator.len() > 0,
    ensures
        found_only_behind(part, separator) ==> split(part + separator + rest, separator) == seq![
            part,
        ] + split(rest, separator),
        !found_only_behind(part, separator) ==> split(part + separator + rest, separator)[0].len()
            < part.len(),
{
    let text = part + separator + rest;
    let n = separator.len() as int;
    let end = part.len() as int;
    if found_only_behind(part, separator) {
        assert forall|q: int| 0 <= q < end implies !occurs_at(text, separator, q) by {
            lemma_occurrence_in_front(part, separator, rest, q);
        }
        assert(text.subrange(end, end + n) =~= separator);
        assert(text.subrange(0, end) =~= part);
        assert(text.subrange(end + n, text.len() as int) =~= rest);
        lemma_search_finds(text, separator, 0, end);
    } else {
        let p = choose|p: int| 0 <= p < part.len() && occurs_at(part + separator, separator, p);
        lemma_occurrence_in_front(part, separator, rest, p);
        lemma_first_piece_is_short(text, separator, 0, p);
    }
}

/// A text splits into itself alone if the separator is never found in it, and
/// else begins with a piece that is shorter than the text.
proof fn lemma_split_last(text: Seq<char>, separator: Seq<char>)
    requires
        separator.len() > 0,
    ensures
        never_found(text, separator) ==> split(text, separator) == seq![text],
        !never_found(text, separator) ==> split(text, separator)[0].len() < text.len(),
{
    if never_found(text, separator) {
        lemma_search_finds_nothing(text, separator, 0);
    } else {
        let p = choose|p: int| occurs_at(text, separator, p);
        lemma_first_piece_is_short(text, separator, 0, p);
    }
}

/// Splitting gives at least one piece.
proof fn lemma_split_gives_a_piece(text: Seq<char>, separator: Seq<char>, at: int)
    ensures
        split_from(text, separator, at).len() >= 1,
    decreases text.len(), text.len() - at,
{
    if separator.len() == 0 || at < 0 || at + separator.len() > text.len() {
    } else if occurs_at(text, separator, at) {
    } else {
        lemma_split_gives_a_piece(text, separator, at + 1);
    }
}

/// Three parts joined by a separator split back into exactly these three
/// parts if, and only if, the separator sets them apart.
pub proof fn lemma_split_joined(
    first: Seq<char>,
    second: Seq<char>,
    third: Seq<char>,
    separator: Seq<char>,
)
    ensures
        split(joined(first, second, third, separator), separator) == seq![first, second, third]
            <==> sets_apart(separator, first, second, third),
{
    let text = joined(first, second, third, separator);
    let tail = second + separator + third;
    let parts = seq![first, second, third];
    let pieces = split(text, separator);
    if separator.len() == 0 {
        assert(pieces.len() == 1);
    } else {
        assert(text =~= first + separator + tail);
        lemma_split_front(first, separator, tail);
        lemma_split_front(second, separator, third);
        lemma_split_last(third, separator);
        lemma_split_gives_a_piece(text, separator, 0);
        lemma_split_gives_a_piece(tail, separator, 0);
        lemma_split_gives_a_piece(third, separator, 0);
        if !found_only_behind(first, separator) {
            assert(pieces[0] != parts[0]);
        } else if !found_only_behind(second, separator) {
            assert(pieces[1] == split(tail, separator)[0]);
            assert(pieces[1] != parts[1]);
        } else if !never_found(third, separator) {
            assert(pieces[2] == split(third, separator)[0]);
            assert(pieces[2] != parts[2]);
        } else {
            assert(pieces =~= parts);
        }
    }
}

/// A separator with a character that none of the three parts holds sets the
/// parts apart.
pub proof fn lemma_mark_sets_apart(
    first: Seq<char>,
    second: Seq<char>,
    third: Seq<char>,
    separator: Seq<char>,
    mark: char,
)
    requires
        is_mark(mark, separator, first, second, third),
    ensures
        sets_apart(separator, first, second, third),
{
    lemma_mark_keeps_front_clear(first, separator, mark);
    lemma_mark_keeps_front_clear(second, separator, mark);
    let k = choose|k: int| 0 <= k < separator.len() && separator[k] == mark;
    assert forall|p: int| !occurs_at(third, separator, p) by {
        if occurs_at(third, separator, p) {
            assert(third.subrange(p, p + separator.len())[k] == separator[k]);
            assert(third[p + k] == mark);
        }
    }
}

/// Before the end of a part that lacks a character of the separator, the
/// separator cannot begin: its first such character would fall into the part,
/// or onto an earlier place of the separator that follows.
proof fn lemma_mark_keeps_front_clear(part: Seq<char>, separator: Seq<char>, mark: char)
    requires
        separator.contains(mark),
        !part.contains(mark),
    ensures
        found_only_behind(part, separator),
{
    let some = choose|k: int| 0 <= k < separator.len() && separator[k] == mark;
    lemma_least_index(separator, mark, some);
    let k = choose|k: int|
        0 <= k < separator.len() && separator[k] == mark && forall|m: int|
            0 <= m < k ==> separator[m] != mark;
    let text = part + separator;
    assert forall|p: int| 0 <= p < part.len() implies !occurs_at(text, separator, p) by {
        if occurs_at(text, separator, p) {
            assert(text.subrange(p, p + separator.len())[k] == separator[k]);
            assert(text[p + k] == mark);
            if p + k < part.len() {
                assert(part[p + k] == mark);
            } else {
                assert(text[p + k] == separator[p + k - part.len()]);
            }
        }
    }
}

/// Below any position of `mark` in the separator there is a least one.
proof fn lemma_least_index(separator: Seq<char>, mark: char, upper: int)
    requires
        0 <= upper < separator.len(),
        separator[upper] == mark,
    ensures
        exists|k: int|
            0 <= k < separator.len() && separator[k] == mark && forall|m: int|
                0 <= m < k ==> separator[m] != mark,
    decreases upper,
{
    if exists|m: int| 0 <= m < upper && separator[m] == mark {
        let lower = choose|m: int| 0 <= m < upper && separator[m] == mark;
        lemma_least_index(separator, mark, lower);
    }
}

} // verus!
