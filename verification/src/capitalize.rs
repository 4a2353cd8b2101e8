//! Capitalizing words: the first character of a word is replaced by its uppercase
//! mapping, the rest is kept.
use vstd::prelude::*;

verus! {

/// The uppercase mapping of a non-ASCII `c` that `char::to_uppercase` yields, as
/// Unicode's case tables define it.
pub uninterp spec fn char_uppercase(c: char) -> Seq<char>;

/// Whether `c` is an ASCII character.
pub open spec fn is_ascii_char(c: char) -> bool {
    (c as u32) < 128
}

/// Whether `c` is an ASCII lowercase letter.
pub open spec fn is_ascii_lower(c: char) -> bool {
    'a' <= c <= 'z'
}

/// The uppercase mapping that Unicode's case tables give for the lowercase letters of
/// Latin-1, of basic Greek and of basic Cyrillic: each maps to its capital, except
/// 'ß', which maps to "SS"; `None` for every other character.
pub open spec fn listed_upper(c: char) -> Option<Seq<char>> {
    let u = c as u32;
    if (0xE0 <= u <= 0xFE && u != 0xF7) || (0x3B1 <= u <= 0x3C1) || (0x3C3 <= u <= 0x3CB) || (
    0x430 <= u <= 0x44F) {
        Some(seq![(u - 0x20) as char])
    } else if 0x450 <= u <= 0x45F {
        Some(seq![(u - 0x50) as char])
    } else if u == 0xFF {
        Some(seq!['\u{178}'])
    } else if u == 0xB5 {
        Some(seq!['\u{39C}'])
    } else if u == 0x3C2 {
        Some(seq!['\u{3A3}'])
    } else if u == 0xDF {
        Some(seq!['S', 'S'])
    } else {
        None
    }
}

/// Every listed lowercase letter changes when it is capitalized.
pub proof fn lemma_listed_letters_change(c: char)
    ensures
        listed_upper(c) is Some ==> listed_upper(c)->0 != seq![c],
{
    if listed_upper(c) is Some {
        let u = listed_upper(c)->0;
        if u.len() == 1 {
            assert(u[0] != c);
        }
    }
}

/// The uppercase mapping of `c`: an ASCII lowercase letter maps to its capital, any
/// other ASCII character to itself, and a non-ASCII character to what Unicode's case
/// tables give.
pub open spec fn uppercase_of(c: char) -> Seq<char> {
    if is_ascii_lower(c) {
        seq![((c as u32) - 32) as char]
    } else if is_ascii_char(c) {
        seq![c]
    } else {
        char_uppercase(c)
    }
}

/// Calls `char::to_uppercase` and collects its characters into a `String`. The
/// contract claims what std documents: one or more characters, the Unicode uppercase
/// mapping of `c`, which on ASCII maps `a`..`z` to `A`..`Z` and leaves every other
/// character as it is, and on the lowercase letters of Latin-1, basic Greek and basic
/// Cyrillic gives their capitals (`listed_upper`); for other characters the mapping is
/// only named.
#[verifier::external_body]
fn to_uppercase(c: char) -> (r: String)
    ensures
        is_ascii_lower(c) ==> r@ == seq![((c as u32) - 32) as char],
        is_ascii_char(c) && !is_ascii_lower(c) ==> r@ == seq![c],
        !is_ascii_char(c) ==> r@ == char_uppercase(c),
        listed_upper(c) is Some ==> r@ == listed_upper(c)->0,
        r@.len() >= 1,
{
    c.to_uppercase().to_string()
}

/// `s` with its first character replaced by its uppercase mapping; the empty word
/// stays empty.
pub open spec fn spec_capitalize_first(s: Seq<char>) -> Seq<char> {
    if s.len() == 0 {
        Seq::empty()
    } else {
        uppercase_of(s[0]) + s.drop_first()
    }
}

/// Whether every character of `s` is ASCII.
pub open spec fn is_ascii_seq(s: Seq<char>) -> bool {
    forall|i: int| 0 <= i < s.len() ==> is_ascii_char(#[trigger] s[i])
}

/// On an ASCII word, capitalizing keeps the word ASCII and its length, and
/// capitalizing a second time changes nothing.
pub proof fn lemma_capitalize_ascii(s: Seq<char>)
    requires
        is_ascii_seq(s),
    ensures
        is_ascii_seq(spec_capitalize_first(s)),
        spec_capitalize_first(s).len() == s.len(),
        spec_capitalize_first(spec_capitalize_first(s)) == spec_capitalize_first(s),
{
    if s.len() > 0 {
        let c = s[0];
        assert(is_ascii_char(c));
        let t = spec_capitalize_first(s);
        let u = uppercase_of(c);
        assert(u.len() == 1);
        assert(is_ascii_char(u[0]));
        assert(!is_ascii_lower(u[0]));
        assert(t[0] == u[0]);
        assert(uppercase_of(t[0]) =~= seq![t[0]]);
        assert(t.drop_first() =~= s.drop_first());
        assert forall|i: int| 0 <= i < t.len() implies is_ascii_char(#[trigger] t[i]) by {
            if i > 0 {
                assert(t[i] == s[i]);
            }
        }
        assert(spec_capitalize_first(t) =~= t);
    }
}

/// Each word of `words`, capitalized.
pub open spec fn capitalized_words(words: Seq<&str>) -> Seq<Seq<char>> {
    Seq::new(words.len(), |i: int| spec_capitalize_first(words[i]@))
}

/// Completes the capitalization of the non-empty word `input` from the uppercase
/// mapping `upper` of its first character: `upper` followed by the rest of the word.
pub fn join_capitalized(upper: String, input: &str) -> (r: String)
    requires
        input@.len() > 0,
    ensures
        r@ == upper@ + input@.drop_first(),
{
    let n = input.unicode_len();
    let mut r = upper;
    r.append(input.substring_char(1, n));
    assert(input@.subrange(1, n as int) =~= input@.drop_first());
    r
}

/// Capitalizes the first character of `input`: "hello" -> "Hello".
pub fn capitalize_first(input: &str) -> (r: String)
    ensures
        r@ == spec_capitalize_first(input@),
        r@.len() == 0 <==> input@.len() == 0,
        input@.len() > 0 && listed_upper(input@[0]) is Some ==> r@ == listed_upper(input@[0])->0
            + input@.drop_first(),
{
    let n = input.unicode_len();
    if n == 0 {
        return String::new();
    }
    let first = input.get_char(0);
    let upper = to_uppercase(first);
    join_capitalized(upper, input)
}

/// Applies `capitalize_first` to each word: ["hello", "world"] -> ["Hello", "World"].
pub fn capitalize_words_vector(words: &[&str]) -> (r: Vec<String>)
    ensures
        r@.len() == words@.len(),
        forall|i: int| 0 <= i < words@.len() ==> #[trigger] r@[i]@ == capitalized_words(words@)[i],
{
    let mut r: Vec<String> = Vec::new();
    let mut i: usize = 0;
    while i < words.len()
        invariant
            i <= words@.len(),
            r@.len() == i,
            forall|j: int| 0 <= j < i ==> #[trigger] r@[j]@ == capitalized_words(words@)[j],
        decreases words@.len() - i,
    {
        let w = capitalize_first(words[i]);
        r.push(w);
        i = i + 1;
    }
    r
}

/// Capitalizes each word and joins the results into one string:
/// ["hello", " ", "world"] -> "Hello World".
pub fn capitalize_words_string(words: &[&str]) -> (r: String)
    ensures
        r@ == capitalized_words(words@).flatten(),
{
    let mut r = String::new();
    let mut i: usize = 0;
    while i < words.len()
        invariant
            i <= words@.len(),
            r@ == capitalized_words(words@).take(i as int).flatten(),
        decreases words@.len() - i,
    {
        let w = capitalize_first(words[i]);
        proof {
            let cw = capitalized_words(words@);
            assert(cw.take(i + 1) =~= cw.take(i as int).push(cw[i as int]));
            cw.take(i as int).lemma_flatten_push(cw[i as int]);
        }
        r.append(w.as_str());
        i = i + 1;
    }
    assert(capitalized_words(words@).take(words@.len() as int) =~= capitalized_words(words@));
    r
}

/// Joining the words into one string gives the concatenation of the words that
/// `capitalize_words_vector` returns for the same input.
pub proof fn lemma_string_joins_vector(words: Seq<&str>, v: Seq<String>)
    requires
        v.len() == words.len(),
        forall|i: int| 0 <= i < words.len() ==> #[trigger] v[i]@ == capitalized_words(words)[i],
    ensures
        capitalized_words(words).flatten() == v.map_values(|s: String| s@).flatten(),
{
    assert(capitalized_words(words) =~= v.map_values(|s: String| s@));
}

} // verus!
