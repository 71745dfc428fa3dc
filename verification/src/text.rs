//! Text operations, stated over sequences of characters.
//!
//! Each operation is a spec function that says what the result is, and an
//! executable function that computes it.

use vstd::prelude::*;

verus! {

// ---------------------------------------------------------------------------
// Characters
// ---------------------------------------------------------------------------

/// The characters with the Unicode property `White_Space`.
pub open spec fn is_space(c: char) -> bool {
    ||| '\u{9}' <= c <= '\u{d}'
    ||| c == '\u{20}'
    ||| c == '\u{85}'
    ||| c == '\u{a0}'
    ||| c == '\u{1680}'
    ||| '\u{2000}' <= c <= '\u{200a}'
    ||| '\u{2028}' <= c <= '\u{2029}'
    ||| c == '\u{202f}'
    ||| c == '\u{205f}'
    ||| c == '\u{3000}'
}

/// Whether `c` has the Unicode property `White_Space`.
pub fn is_white_space(c: char) -> (res: bool)
    ensures
        res == is_space(c),
{
    ('\u{9}' <= c && c <= '\u{d}') || c == '\u{20}' || c == '\u{85}' || c == '\u{a0}' || c
        == '\u{1680}' || ('\u{2000}' <= c && c <= '\u{200a}') || ('\u{2028}' <= c && c
        <= '\u{2029}') || c == '\u{202f}' || c == '\u{205f}' || c == '\u{3000}'
}

/// The characters of `text`, one element each.
pub fn chars_of(text: &str) -> (res: Vec<char>)
    ensures
        res@ == text@,
{
    let mut out: Vec<char> = Vec::new();
    for c in it: text.chars()
        invariant
            it.seq() == text@,
            out@ == text@.take(it.index()),
    {
        assert(text@.take(it.index() + 1) =~= text@.take(it.index()).push(c));
        out.push(c);
    }
    assert(text@.take(text@.len() as int) =~= text@);
    out
}

// ---------------------------------------------------------------------------
// Substrings
// ---------------------------------------------------------------------------

/// `needle` stands in `text` at position `i`.
pub open spec fn occurs_at(needle: Seq<char>, text: Seq<char>, i: int) -> bool {
    &&& 0 <= i
    &&& i + needle.len() <= text.len()
    &&& text.subrange(i, i + needle.len()) =~= needle
}

/// `needle` stands somewhere in `text`.
pub open spec fn occurs(needle: Seq<char>, text: Seq<char>) -> bool {
    exists|i: int| occurs_at(needle, text, i)
}

/// Whether `needle` stands in `text` at position `i`.
fn matches_at(needle: &Vec<char>, text: &Vec<char>, i: usize) -> (res: bool)
    requires
        i <= text@.len(),
    ensures
        res == occurs_at(needle@, text@, i as int),
{
    if needle.len() > text.len() - i {
        return false;
    }
    let mut k: usize = 0;
    while k < needle.len()
        invariant
            i + needle.len() <= text.len(),
            k <= needle@.len(),
            forall|j: int| 0 <= j < k ==> needle@[j] == text@[i + j],
        decreases needle@.len() - k,
    {
        if needle[k] != text[i + k] {
            assert(text@.subrange(i as int, i + needle@.len())[k as int] != needle@[k as int]);
            return false;
        }
        k += 1;
    }
    assert(text@.subrange(i as int, i + needle@.len()) =~= needle@);
    true
}

/// Whether `needle` stands somewhere in `text`, both given as characters.
pub fn contains_chars(text: &Vec<char>, needle: &Vec<char>) -> (res: bool)
    ensures
        res == occurs(needle@, text@),
{
    let mut i: usize = 0;
    loop
        invariant
            i <= text@.len(),
            forall|j: int| 0 <= j < i ==> !occurs_at(needle@, text@, j),
        decreases text@.len() - i,
    {
        if matches_at(needle, text, i) {
            return true;
        }
        if i == text.len() {
            return false;
        }
        i += 1;
    }
}

/// Whether `needle` stands somewhere in `text`.
pub fn contains(text: &str, needle: &str) -> (res: bool)
    ensures
        res == occurs(needle@, text@),
{
    contains_chars(&chars_of(text), &chars_of(needle))
}

/// Whether `text` begins with `prefix`.
pub fn starts_with(text: &str, prefix: &str) -> (res: bool)
    ensures
        res == occurs_at(prefix@, text@, 0),
{
    matches_at(&chars_of(prefix), &chars_of(text), 0)
}

/// Whether two texts hold the same characters.
pub fn same_text(a: &str, b: &str) -> (res: bool)
    ensures
        res == (a@ == b@),
{
    let a_chars = chars_of(a);
    let b_chars = chars_of(b);
    assert(b@.subrange(0, b@.len() as int) =~= b@);
    a_chars.len() == b_chars.len() && matches_at(&a_chars, &b_chars, 0)
}

// ---------------------------------------------------------------------------
// Letter case
// ---------------------------------------------------------------------------

/// `c` with `A` to `Z` mapped to `a` to `z`, and every other character kept.
pub open spec fn ascii_lower(c: char) -> char {
    if 'A' <= c <= 'Z' {
        (c as u8 + 32) as char
    } else {
        c
    }
}

/// `text` with each character in ASCII lower case.
pub open spec fn ascii_lowered(text: Seq<char>) -> Seq<char> {
    text.map_values(|c: char| ascii_lower(c))
}

/// The characters of `text` in ASCII lower case.
pub fn ascii_lowercase_chars(text: &str) -> (res: Vec<char>)
    ensures
        res@ == ascii_lowered(text@),
{
    let mut chars = chars_of(text);
    let mut i: usize = 0;
    while i < chars.len()
        invariant
            i <= chars@.len(),
            chars@.len() == text@.len(),
            forall|j: int| 0 <= j < i ==> chars@[j] == ascii_lower(text@[j]),
            forall|j: int| i <= j < chars@.len() ==> chars@[j] == text@[j],
        decreases chars@.len() - i,
    {
        let c = chars[i];
        if 'A' <= c && c <= 'Z' {
            chars.set(i, (c as u8 + 32) as char);
        }
        i += 1;
    }
    assert(chars@ =~= ascii_lowered(text@));
    chars
}

// ---------------------------------------------------------------------------
// Trimming
// ---------------------------------------------------------------------------

/// `text` without the white space it begins with.
pub open spec fn trimmed_start(text: Seq<char>) -> Seq<char>
    decreases text.len(),
{
    if text.len() > 0 && is_space(text[0]) {
        trimmed_start(text.drop_first())
    } else {
        text
    }
}

/// `text` without the white space it ends with.
pub open spec fn trimmed_end(text: Seq<char>) -> Seq<char>
    decreases text.len(),
{
    if text.len() > 0 && is_space(text.last()) {
        trimmed_end(text.drop_last())
    } else {
        text
    }
}

/// `text` without white space at either end.
pub open spec fn trimmed(text: Seq<char>) -> Seq<char> {
    trimmed_end(trimmed_start(text))
}

/// `text` without white space at either end.
pub fn trim(text: &str) -> (res: &str)
    ensures
        res@ == trimmed(text@),
{
    let chars = chars_of(text);
    let mut start: usize = 0;
    assert(text@.skip(0) =~= text@);
    while start < chars.len() && is_white_space(chars[start])
        invariant
            chars@ == text@,
            start <= chars@.len(),
            trimmed_start(text@.skip(start as int)) == trimmed_start(text@),
        decreases chars@.len() - start,
    {
        assert(text@.skip(start as int).drop_first() =~= text@.skip(start + 1));
        start += 1;
    }
    let ghost rest = text@.skip(start as int);
    assert(trimmed_start(text@) == rest);
    let mut end: usize = chars.len();
    assert(text@.subrange(start as int, end as int) =~= rest);
    while start < end && is_white_space(chars[end - 1])
        invariant
            chars@ == text@,
            start <= end <= chars@.len(),
            trimmed_end(text@.subrange(start as int, end as int)) == trimmed_end(rest),
        decreases end,
    {
        assert(text@.subrange(start as int, end as int).drop_last() =~= text@.subrange(
            start as int,
            end - 1,
        ));
        end -= 1;
    }
    text.substring_char(start, end)
}

/// Trimming removes no occurrence of a needle that begins and ends with other
/// characters than white space, and adds none.
pub proof fn lemma_occurs_in_trimmed(needle: Seq<char>, text: Seq<char>)
    requires
        needle.len() > 0,
        !is_space(needle[0]),
        !is_space(needle.last()),
    ensures
        occurs(needle, trimmed(text)) == occurs(needle, text),
{
    lemma_occurs_in_trimmed_start(needle, text);
    lemma_occurs_in_trimmed_end(needle, trimmed_start(text));
}

proof fn lemma_occurs_in_trimmed_start(needle: Seq<char>, text: Seq<char>)
    requires
        needle.len() > 0,
        !is_space(needle[0]),
    ensures
        occurs(needle, trimmed_start(text)) == occurs(needle, text),
    decreases text.len(),
{
    if text.len() > 0 && is_space(text[0]) {
        let rest = text.drop_first();
        lemma_occurs_in_trimmed_start(needle, rest);
        if occurs(needle, text) {
            let i = choose|i: int| occurs_at(needle, text, i);
            assert(text.subrange(i, i + needle.len())[0] == text[i]);
            assert(rest.subrange(i - 1, i - 1 + needle.len()) =~= text.subrange(
                i,
                i + needle.len(),
            ));
            assert(occurs_at(needle, rest, i - 1));
        }
        if occurs(needle, rest) {
            let i = choose|i: int| occurs_at(needle, rest, i);
            assert(text.subrange(i + 1, i + 1 + needle.len()) =~= rest.subrange(
                i,
                i + needle.len(),
            ));
            assert(occurs_at(needle, text, i + 1));
        }
    }
}

proof fn lemma_occurs_in_trimmed_end(needle: Seq<char>, text: Seq<char>)
    requires
        needle.len() > 0,
        !is_space(needle.last()),
    ensures
        occurs(needle, trimmed_end(text)) == occurs(needle, text),
    decreases text.len(),
{
    if text.len() > 0 && is_space(text.last()) {
        let rest = text.drop_last();
        lemma_occurs_in_trimmed_end(needle, rest);
        if occurs(needle, text) {
            let i = choose|i: int| occurs_at(needle, text, i);
            let end = i + needle.len();
            assert(text.subrange(i, end)[needle.len() - 1] == text[end - 1]);
            assert(rest.subrange(i, end) =~= text.subrange(i, end));
            assert(occurs_at(needle, rest, i));
        }
        if occurs(needle, rest) {
            let i = choose|i: int| occurs_at(needle, rest, i);
            assert(text.subrange(i, i + needle.len()) =~= rest.subrange(i, i + needle.len()));
            assert(occurs_at(needle, text, i));
        }
    }
}

// ---------------------------------------------------------------------------
// Laws
// ---------------------------------------------------------------------------

/// White space is just these characters, by their code points.
pub proof fn law_white_space_code_points(c: char)
    ensures
        is_space(c) <==> ({
            let n = c as u32;
            ||| 9 <= n <= 13
            ||| n == 32
            ||| n == 133
            ||| n == 160
            ||| n == 5760
            ||| 8192 <= n <= 8202
            ||| n == 8232
            ||| n == 8233
            ||| n == 8239
            ||| n == 8287
            ||| n == 12288
        }),
{
}

/// A needle stands at a position just if the text is made of that many
/// characters, the needle, and something else.
pub proof fn law_occurs_at_is_a_middle(needle: Seq<char>, text: Seq<char>, i: int)
    ensures
        occurs_at(needle, text, i) <==> exists|a: Seq<char>, b: Seq<char>|
            a.len() == i && text == #[trigger] (a + needle + b),
{
    if occurs_at(needle, text, i) {
        let a = text.take(i);
        let b = text.skip(i + needle.len());
        let found = text.subrange(i, i + needle.len());
        assert forall|k: int| 0 <= k < text.len() implies text[k] == (a + needle + b)[k] by {
            if i <= k < i + needle.len() {
                assert(found[k - i] == needle[k - i]);
            }
        }
        assert(text =~= a + needle + b);
    }
    if exists|a: Seq<char>, b: Seq<char>| a.len() == i && text == #[trigger] (a + needle + b) {
        let (a, b) = choose|a: Seq<char>, b: Seq<char>|
            a.len() == i && text == #[trigger] (a + needle + b);
        assert(text.subrange(i, i + needle.len()) =~= needle);
    }
}

/// A needle stands in a text just if the text is made of something, the needle,
/// and something else.
pub proof fn law_occurs_is_a_middle(needle: Seq<char>, text: Seq<char>)
    ensures
        occurs(needle, text) <==> exists|a: Seq<char>, b: Seq<char>|
            text == #[trigger] (a + needle + b),
{
    if occurs(needle, text) {
        let i = choose|i: int| occurs_at(needle, text, i);
        law_occurs_at_is_a_middle(needle, text, i);
    }
    if exists|a: Seq<char>, b: Seq<char>| text == #[trigger] (a + needle + b) {
        let (a, b) = choose|a: Seq<char>, b: Seq<char>| text == #[trigger] (a + needle + b);
        law_occurs_at_is_a_middle(needle, text, a.len() as int);
        assert(occurs_at(needle, text, a.len() as int));
    }
}

/// Lowering keeps the number of characters, moves `A` to `Z` up by 32 code
/// points, and keeps every other character.
pub proof fn law_lowering_moves_capitals(text: Seq<char>)
    ensures
        ascii_lowered(text).len() == text.len(),
        forall|i: int|
            0 <= i < text.len() && 65 <= text[i] as u32 <= 90 ==> #[trigger] ascii_lowered(
                text,
            )[i] as u32 == text[i] as u32 + 32,
        forall|i: int|
            0 <= i < text.len() && !(65 <= text[i] as u32 <= 90) ==> #[trigger] ascii_lowered(
                text,
            )[i] == text[i],
{
}

/// What trimming removes is white space at the two ends, and what it leaves
/// neither begins nor ends with white space.
pub proof fn law_trimming_removes_outer_space(text: Seq<char>)
    ensures
        exists|a: Seq<char>, b: Seq<char>|
            text == #[trigger] (a + trimmed(text) + b) && (forall|i: int|
                0 <= i < a.len() ==> is_space(a[i])) && (forall|i: int|
                0 <= i < b.len() ==> is_space(b[i])),
        trimmed(text).len() > 0 ==> !is_space(trimmed(text)[0]) && !is_space(
            trimmed(text)[trimmed(text).len() - 1],
        ),
{
    let a = lemma_trimmed_start_parts(text);
    let b = lemma_trimmed_end_parts(trimmed_start(text));
    let t = trimmed(text);
    assert(text =~= a + t + b);
    if t.len() > 0 {
        assert(trimmed_start(text)[0] == t[0]);
    }
}

proof fn lemma_trimmed_start_parts(text: Seq<char>) -> (a: Seq<char>)
    ensures
        text == a + trimmed_start(text),
        forall|i: int| 0 <= i < a.len() ==> is_space(a[i]),
        trimmed_start(text).len() > 0 ==> !is_space(trimmed_start(text)[0]),
    decreases text.len(),
{
    if text.len() > 0 && is_space(text[0]) {
        let rest = lemma_trimmed_start_parts(text.drop_first());
        let a = seq![text[0]] + rest;
        assert(text =~= seq![text[0]] + text.drop_first());
        assert(seq![text[0]] + (rest + trimmed_start(text)) =~= a + trimmed_start(text));
        a
    } else {
        let a = Seq::<char>::empty();
        assert(text =~= a + text);
        a
    }
}

proof fn lemma_trimmed_end_parts(text: Seq<char>) -> (b: Seq<char>)
    ensures
        text == trimmed_end(text) + b,
        forall|i: int| 0 <= i < b.len() ==> is_space(b[i]),
        trimmed_end(text).len() > 0 ==> !is_space(trimmed_end(text).last()),
    decreases text.len(),
{
    if text.len() > 0 && is_space(text.last()) {
        let rest = lemma_trimmed_end_parts(text.drop_last());
        let b = rest.push(text.last());
        assert(text =~= text.drop_last().push(text.last()));
        assert((trimmed_end(text) + rest).push(text.last()) =~= trimmed_end(text) + b);
        b
    } else {
        let b = Seq::<char>::empty();
        assert(text =~= text + b);
        b
    }
}

} // verus!
