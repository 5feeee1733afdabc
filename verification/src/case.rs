//! Capitalising the first character of a word.

use vstd::prelude::*;

verus! {

/// The lowercase letters of ASCII, of which every vocabulary word is made.
pub open spec fn is_lowercase_letter(c: char) -> bool {
    'a' <= c && c <= 'z'
}

/// The uppercase letters of ASCII.
pub open spec fn is_uppercase_letter(c: char) -> bool {
    'A' <= c && c <= 'Z'
}

/// The uppercase letter that belongs to the lowercase letter `c`.
pub open spec fn capital_of(c: char) -> char
    recommends
        is_lowercase_letter(c),
{
    ((c as u32) - 32) as char
}

/// The lowercase letter that belongs to the uppercase letter `c`.
pub open spec fn small_of(c: char) -> char
    recommends
        is_uppercase_letter(c),
{
    ((c as u32) + 32) as char
}

/// The uppercase mapping that Unicode gives to a character other than a
/// lowercase ASCII letter: one character or several. It stands for the tables
/// behind `char::to_uppercase`, which are not written out here.
pub uninterp spec fn unicode_uppercase(c: char) -> Seq<char>;

/// The uppercase form of `c`: the matching capital for a lowercase ASCII letter,
/// the Unicode mapping for every other character.
pub open spec fn uppercase_of(c: char) -> Seq<char> {
    if is_lowercase_letter(c) {
        seq![capital_of(c)]
    } else {
        unicode_uppercase(c)
    }
}

/// `s` with its first character replaced by `head`; the empty sequence has no
/// first character and stays empty.
pub open spec fn first_replaced(s: Seq<char>, head: Seq<char>) -> Seq<char> {
    if s.len() == 0 {
        s
    } else {
        head + s.subrange(1, s.len() as int)
    }
}

/// `s` with its first character in uppercase form and the rest untouched.
pub open spec fn capitalized(s: Seq<char>) -> Seq<char> {
    if s.len() == 0 {
        s
    } else {
        first_replaced(s, uppercase_of(s[0]))
    }
}

/// Trusted: `char::to_uppercase`, collected into a `String`. The standard
/// library documents that the iterator yields the uppercase mapping of the
/// character as one or more characters, without regard to context or language;
/// for a lowercase ASCII letter that mapping is the single matching capital.
/// Nothing is proved of this; Verus takes the contract as given.
#[verifier::external_body]
fn to_uppercase(c: char) -> (upper: String)
    ensures
        is_lowercase_letter(c) ==> upper@ == seq![capital_of(c)],
        !is_lowercase_letter(c) ==> upper@ == unicode_uppercase(c),
        upper@.len() >= 1,
{
    c.to_uppercase().collect()
}

/// Puts `head` in the place of the first character of `input`. An empty input
/// gives the empty string, whatever `head` is.
pub fn replace_first(input: &str, head: &str) -> (out: String)
    ensures
        out@ == first_replaced(input@, head@),
{
    let count: usize = input.unicode_len();
    if count == 0 {
        return String::new();
    }
    let rest = input.substring_char(1, count);
    let mut out = String::from_str(head);
    out.append(rest);
    out
}

/// Turns the first character of `input` into its uppercase form, which may be
/// longer than one character, and leaves the rest as it is. The empty string
/// comes back empty.
pub fn capitalize(input: &str) -> (out: String)
    ensures
        out@ == capitalized(input@),
        out@.len() >= input@.len(),
{
    if input.unicode_len() == 0 {
        String::new()
    } else {
        let upper = to_uppercase(input.get_char(0));
        replace_first(input, upper.as_str())
    }
}

/// `s` with a leading uppercase ASCII letter turned back into its lowercase
/// letter; any other sequence is left as it is.
pub open spec fn uncapitalized(s: Seq<char>) -> Seq<char> {
    if s.len() > 0 && is_uppercase_letter(s[0]) {
        seq![small_of(s[0])] + s.subrange(1, s.len() as int)
    } else {
        s
    }
}

/// No character of `s` is an uppercase ASCII letter.
pub open spec fn has_no_capital(s: Seq<char>) -> bool {
    forall|i: int| 0 <= i < s.len() ==> !is_uppercase_letter(#[trigger] s[i])
}

/// The uppercase ASCII letters of `s`, in their order.
pub open spec fn capitals(s: Seq<char>) -> Seq<char> {
    s.filter(|c: char| is_uppercase_letter(c))
}

/// Every character of `s` is a lowercase ASCII letter.
pub open spec fn is_lowercase(s: Seq<char>) -> bool {
    forall|i: int| 0 <= i < s.len() ==> is_lowercase_letter(#[trigger] s[i])
}

/// A sequence without an uppercase letter has no capitals to show.
pub proof fn lemma_no_capital_no_capitals(s: Seq<char>)
    requires
        has_no_capital(s),
    ensures
        capitals(s) == Seq::<char>::empty(),
    decreases s.len(),
{
    reveal(Seq::filter);
    if s.len() > 0 {
        assert(!is_uppercase_letter(s[s.len() - 1]));
        lemma_no_capital_no_capitals(s.drop_last());
    }
}

/// Capitalising a sequence that begins with a lowercase ASCII letter and goes
/// on in lowercase puts the matching capital in front and changes nothing
/// else: the length stays, the capital is the only one, and taking the capital
/// back gives the sequence again.
pub proof fn lemma_capitalized_lowercase(s: Seq<char>)
    requires
        s.len() > 0,
        is_lowercase(s),
    ensures
        capitalized(s) == seq![capital_of(s[0])] + s.subrange(1, s.len() as int),
        capitalized(s).len() == s.len(),
        is_uppercase_letter(capitalized(s)[0]),
        forall|i: int| 1 <= i < s.len() ==> capitalized(s)[i] == s[i],
        capitals(capitalized(s)) == seq![capital_of(s[0])],
        uncapitalized(capitalized(s)) == s,
{
    let head = seq![capital_of(s[0])];
    let rest = s.subrange(1, s.len() as int);
    assert(is_lowercase_letter(s[0]));
    assert(is_uppercase_letter(capital_of(s[0])));
    assert(small_of(capital_of(s[0])) == s[0]);
    assert(capitalized(s) == head + rest);
    assert((head + rest).subrange(1, s.len() as int) =~= rest);
    assert(seq![s[0]] + rest =~= s);
    assert(has_no_capital(rest)) by {
        assert forall|i: int| 0 <= i < rest.len() implies !is_uppercase_letter(
            #[trigger] rest[i],
        ) by {
            assert(is_lowercase_letter(s[i + 1]));
        }
    }
    lemma_no_capital_no_capitals(rest);
    assert(capitals(head) == head) by {
        reveal_with_fuel(Seq::filter, 2);
        assert(head.drop_last() =~= Seq::<char>::empty());
        assert(capitals(head) =~= head);
    }
    Seq::filter_distributes_over_add(head, rest, |c: char| is_uppercase_letter(c));
    assert(head + Seq::<char>::empty() =~= head);
}

} // verus!
