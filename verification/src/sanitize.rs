//! Cleaning of SSH error output before it is shown to the user.

use vstd::prelude::*;

use crate::split;
use crate::text;

verus! {

/// Longest text, in bytes, that is shown in full.
pub const MAX_LEN: usize = 200;

/// A line that tells where an identity file lies.
pub open spec fn names_key_file(line: Seq<char>) -> bool {
    text::occurs("/.ssh/"@, line) || text::occurs("identity file"@, line)
}

/// The lines of `raw` that do not tell where an identity file lies, separated
/// by semicolons.
pub open spec fn redacted(raw: Seq<char>) -> Seq<char> {
    split::joined(split::lines(raw).filter(|line: Seq<char>| !names_key_file(line)), "; "@)
}

/// `text` takes at most [`MAX_LEN`] bytes.
pub open spec fn is_short(text: Seq<char>) -> bool {
    vstd::utf8::encode_utf8(text).len() <= MAX_LEN
}

/// The longest beginning of `text`, in whole characters, that is short.
pub open spec fn short_head(text: Seq<char>) -> Seq<char>
    decreases text.len(),
{
    if is_short(text) {
        text
    } else {
        short_head(text.drop_last())
    }
}

/// `text` if it is short, else the longest beginning of it that is, and an
/// ellipsis.
pub open spec fn shortened(text: Seq<char>) -> Seq<char> {
    if is_short(text) {
        text
    } else {
        short_head(text) + "..."@
    }
}

/// `raw` as it may be shown: without the lines that tell where an identity
/// file lies, on one line, and bounded in length.
pub open spec fn sanitized(raw: Seq<char>) -> Seq<char> {
    shortened(redacted(raw))
}

/// The lines of `raw` that do not tell where an identity file lies, separated
/// by semicolons.
fn redact(raw: &str) -> (res: String)
    ensures
        res@ == redacted(raw@),
{
    let lines = split::split_lines(raw);
    let ghost keep = |line: Seq<char>| !names_key_file(line);
    let mut kept: Vec<String> = Vec::new();
    let mut i: usize = 0;
    assert(split::views(kept@) =~= split::views(lines@).take(0).filter(keep)) by {
        reveal(Seq::filter);
    }
    while i < lines.len()
        invariant
            i <= lines@.len(),
            keep == (|line: Seq<char>| !names_key_file(line)),
            split::views(kept@) == split::views(lines@).take(i as int).filter(keep),
        decreases lines@.len() - i,
    {
        let ghost next = split::views(lines@).take(i + 1);
        assert(next.drop_last() =~= split::views(lines@).take(i as int));
        assert(next.last() == lines@[i as int]@);
        let ghost before = kept@;
        let line = lines[i].as_str();
        if !text::contains(line, "/.ssh/") && !text::contains(line, "identity file") {
            kept.push(lines[i].clone());
            assert(split::views(kept@) =~= split::views(before).push(lines@[i as int]@));
        }
        assert(split::views(kept@) == next.filter(keep)) by {
            reveal(Seq::filter);
        }
        i += 1;
    }
    assert(split::views(lines@).take(i as int) =~= split::views(lines@));
    split::join(&kept, "; ")
}

/// How many bytes `c` takes.
fn byte_width(c: char) -> (res: usize)
    ensures
        res == vstd::utf8::encode_scalar(c as u32).len(),
        1 <= res <= 4,
{
    let code = c as u32;
    if code <= 0x7f {
        1
    } else if code <= 0x7ff {
        2
    } else if code <= 0xffff {
        3
    } else {
        4
    }
}

/// The longest beginning of `text`, in whole characters, that is short.
fn cut(text: &str) -> (res: &str)
    ensures
        res@ == short_head(text@),
{
    let chars = text::chars_of(text);
    let mut used: usize = 0;
    let mut n: usize = 0;
    assert(text@.take(0) =~= seq![]);
    while n < chars.len() && used + byte_width(chars[n]) <= MAX_LEN
        invariant
            chars@ == text@,
            n <= chars@.len(),
            used == vstd::utf8::encode_utf8(text@.take(n as int)).len(),
            used <= MAX_LEN,
        decreases chars@.len() - n,
    {
        proof {
            lemma_byte_len_push(text@, n as int);
        }
        used += byte_width(chars[n]);
        n += 1;
    }
    proof {
        if n < chars@.len() {
            lemma_byte_len_push(text@, n as int);
        }
        lemma_short_head_is(text@, n as int);
    }
    text.substring_char(0, n)
}

/// Cleans SSH error output for display: drops the lines that tell where an
/// identity file lies and bounds the length.
pub fn sanitize_stderr(raw: &str) -> (res: String)
    ensures
        res@ == sanitized(raw@),
{
    let text = redact(raw);
    if text.as_str().as_bytes().len() <= MAX_LEN {
        return text;
    }
    cut(text.as_str()).to_owned().concat("...")
}

// ---------------------------------------------------------------------------
// Bytes
// ---------------------------------------------------------------------------

/// The bytes of two texts one after the other are the bytes of both.
proof fn lemma_encode_concat(a: Seq<char>, b: Seq<char>)
    ensures
        vstd::utf8::encode_utf8(a + b) == vstd::utf8::encode_utf8(a) + vstd::utf8::encode_utf8(b),
    decreases a.len(),
{
    if a.len() == 0 {
        assert(a + b =~= b);
        assert(vstd::utf8::encode_utf8(a) + vstd::utf8::encode_utf8(b) =~= vstd::utf8::encode_utf8(
            b,
        ));
    } else {
        lemma_encode_concat(a.drop_first(), b);
        assert((a + b).drop_first() =~= a.drop_first() + b);
        assert(vstd::utf8::encode_utf8(a + b) =~= vstd::utf8::encode_utf8(a)
            + vstd::utf8::encode_utf8(b));
    }
}

/// One more character takes its own bytes more, and at least one.
proof fn lemma_byte_len_push(text: Seq<char>, n: int)
    requires
        0 <= n < text.len(),
    ensures
        vstd::utf8::encode_utf8(text.take(n + 1)).len() == vstd::utf8::encode_utf8(
            text.take(n),
        ).len() + vstd::utf8::encode_scalar(text[n] as u32).len(),
        vstd::utf8::encode_scalar(text[n] as u32).len() >= 1,
{
    assert(text.take(n + 1) =~= text.take(n) + seq![text[n]]);
    lemma_encode_concat(text.take(n), seq![text[n]]);
    assert(seq![text[n]].drop_first() =~= seq![]);
    reveal_with_fuel(vstd::utf8::encode_utf8, 2);
}

/// A longer beginning of a text takes more bytes.
proof fn lemma_byte_len_grows(text: Seq<char>, m: int, n: int)
    requires
        0 <= m < n <= text.len(),
    ensures
        vstd::utf8::encode_utf8(text.take(m)).len() < vstd::utf8::encode_utf8(text.take(n)).len(),
    decreases n - m,
{
    lemma_byte_len_push(text, n - 1);
    if m < n - 1 {
        lemma_byte_len_grows(text, m, n - 1);
    }
}

/// A short beginning that cannot be made longer is `short_head`.
proof fn lemma_short_head_is(text: Seq<char>, n: int)
    requires
        0 <= n <= text.len(),
        is_short(text.take(n)),
        n < text.len() ==> !is_short(text.take(n + 1)),
    ensures
        short_head(text) == text.take(n),
    decreases text.len(),
{
    assert(text.take(text.len() as int) =~= text);
    if n < text.len() {
        if n + 1 < text.len() {
            lemma_byte_len_grows(text, n + 1, text.len() as int);
        }
        let front = text.drop_last();
        assert(front.take(n) =~= text.take(n));
        if n < front.len() {
            assert(front.take(n + 1) =~= text.take(n + 1));
        }
        lemma_short_head_is(front, n);
    }
}

/// `short_head` is a short beginning of the text.
proof fn lemma_short_head(text: Seq<char>)
    ensures
        short_head(text).len() <= text.len(),
        short_head(text) == text.take(short_head(text).len() as int),
        is_short(short_head(text)),
    decreases text.len(),
{
    if is_short(text) {
        assert(text.take(text.len() as int) =~= text);
    } else {
        lemma_short_head(text.drop_last());
        let n = short_head(text).len() as int;
        assert(text.drop_last().take(n) =~= text.take(n));
    }
}

// ---------------------------------------------------------------------------
// Laws
// ---------------------------------------------------------------------------

/// A needle without semicolon that does not begin with a space stands in one of
/// the parts if it stands in the parts joined by semicolons.
proof fn lemma_occurs_in_joined(needle: Seq<char>, parts: Seq<Seq<char>>)
    requires
        needle.len() > 0,
        needle[0] != ' ',
        forall|i: int| 0 <= i < needle.len() ==> needle[i] != ';',
        text::occurs(needle, split::joined(parts, "; "@)),
    ensures
        exists|k: int| 0 <= k < parts.len() && text::occurs(needle, #[trigger] parts[k]),
    decreases parts.len(),
{
    reveal_strlit("; ");
    let whole = split::joined(parts, "; "@);
    let at = choose|i: int| text::occurs_at(needle, whole, i);
    if parts.len() == 0 {
        assert(false);
    } else if parts.len() == 1 {
        assert(text::occurs(needle, parts[0]));
    } else {
        let front = split::joined(parts.drop_last(), "; "@);
        let found = whole.subrange(at, at + needle.len());
        let n = front.len() as int;
        assert(whole[n] == ';' && whole[n + 1] == ' ');
        if at <= n < at + needle.len() {
            assert(found[n - at] == needle[n - at]);
        } else if at + needle.len() <= n {
            assert(front.subrange(at, at + needle.len()) =~= found);
            assert(text::occurs_at(needle, front, at));
            lemma_occurs_in_joined(needle, parts.drop_last());
            let k = choose|k: int|
                0 <= k < parts.len() - 1 && text::occurs(needle, #[trigger] parts.drop_last()[k]);
            assert(text::occurs(needle, parts[k]));
        } else {
            assert(found[0] == needle[0]);
            let last = parts.last();
            assert(last.subrange(at - n - 2, at - n - 2 + needle.len()) =~= found);
            assert(text::occurs_at(needle, last, at - n - 2));
            assert(text::occurs(needle, parts[parts.len() - 1]));
        }
    }
}

/// Long output keeps as many characters as fit: a beginning of it is short just
/// if it is no longer than the one that is kept.
pub proof fn law_as_much_as_fits_is_kept(text: Seq<char>, n: int)
    requires
        0 <= n <= text.len(),
    ensures
        short_head(text) == text.take(short_head(text).len() as int),
        is_short(text.take(n)) <==> n <= short_head(text).len(),
{
    lemma_short_head(text);
    let kept = short_head(text).len() as int;
    if n < kept {
        lemma_byte_len_grows(text, n, kept);
    }
    if kept < n {
        lemma_longer_is_not_short(text, n);
    }
}

/// A longer beginning than `short_head` is not short.
proof fn lemma_longer_is_not_short(text: Seq<char>, n: int)
    requires
        short_head(text).len() < n <= text.len(),
    ensures
        !is_short(text.take(n)),
    decreases text.len(),
{
    assert(text.take(text.len() as int) =~= text);
    if n < text.len() && !is_short(text) {
        lemma_longer_is_not_short(text.drop_last(), n);
        assert(text.drop_last().take(n) =~= text.take(n));
    }
}

/// Where no character reaches across the byte at [`MAX_LEN`], long output is
/// cut at just that byte.
pub proof fn law_cut_is_at_the_limit(text: Seq<char>)
    requires
        !is_short(text),
        vstd::utf8::is_char_boundary(vstd::utf8::encode_utf8(text), MAX_LEN as int),
    ensures
        vstd::utf8::encode_utf8(short_head(text)) == vstd::utf8::encode_utf8(text).subrange(
            0,
            MAX_LEN as int,
        ),
{
    let bytes = vstd::utf8::encode_utf8(text);
    let head = bytes.subrange(0, MAX_LEN as int);
    let tail = bytes.subrange(MAX_LEN as int, bytes.len() as int);
    let kept = vstd::utf8::decode_utf8(head);
    vstd::utf8::encode_utf8_valid_utf8(text);
    vstd::utf8::encode_utf8_decode_utf8(text);
    vstd::utf8::valid_utf8_split(bytes, MAX_LEN as int);
    vstd::utf8::decode_utf8_split(bytes, MAX_LEN as int);
    vstd::utf8::decode_utf8_encode_utf8(head);
    assert(text == kept + vstd::utf8::decode_utf8(tail));
    let n = kept.len() as int;
    assert(kept =~= text.take(n));
    if n < text.len() {
        lemma_byte_len_push(text, n);
    }
    lemma_short_head_is(text, n);
}

/// A needle that does not end with a full stop stands in a text if it stands in
/// the shortened text.
proof fn lemma_occurs_in_shortened(needle: Seq<char>, text: Seq<char>)
    requires
        needle.len() > 0,
        needle.last() != '.',
        text::occurs(needle, shortened(text)),
    ensures
        text::occurs(needle, text),
{
    if !is_short(text) {
        reveal_strlit("...");
        lemma_short_head(text);
        let short = shortened(text);
        let head = short_head(text);
        let at = choose|i: int| text::occurs_at(needle, short, i);
        let end = at + needle.len();
        assert(short.subrange(at, end)[needle.len() - 1] == short[end - 1]);
        assert(end <= head.len());
        assert(text.subrange(at, end) =~= short.subrange(at, end));
        assert(text::occurs_at(needle, text, at));
    }
}

/// A needle of the kind that marks identity files does not stand in sanitized
/// text if it stands in no line that is kept.
proof fn lemma_sanitized_hides(needle: Seq<char>, raw: Seq<char>)
    requires
        needle.len() > 0,
        needle[0] != ' ',
        needle.last() != '.',
        forall|i: int| 0 <= i < needle.len() ==> needle[i] != ';',
        forall|line: Seq<char>| !names_key_file(line) ==> !text::occurs(needle, line),
    ensures
        !text::occurs(needle, sanitized(raw)),
{
    let keep = |line: Seq<char>| !names_key_file(line);
    let kept = split::lines(raw).filter(keep);
    if text::occurs(needle, sanitized(raw)) {
        lemma_occurs_in_shortened(needle, redacted(raw));
        lemma_occurs_in_joined(needle, kept);
        let k = choose|k: int| 0 <= k < kept.len() && text::occurs(needle, #[trigger] kept[k]);
        split::lines(raw).lemma_filter_pred(keep, k);
        assert(keep(kept[k]));
        assert(false);
    }
}

/// Sanitized text never tells where an identity file lies.
pub proof fn law_sanitized_hides_key_files(raw: Seq<char>)
    ensures
        !names_key_file(sanitized(raw)),
{
    reveal_strlit("/.ssh/");
    reveal_strlit("identity file");
    lemma_sanitized_hides("/.ssh/"@, raw);
    lemma_sanitized_hides("identity file"@, raw);
}

/// Sanitized text takes at most [`MAX_LEN`] bytes and those of an ellipsis.
pub proof fn law_sanitized_is_bounded(raw: Seq<char>)
    ensures
        vstd::utf8::encode_utf8(sanitized(raw)).len() <= MAX_LEN + 3,
{
    let text = redacted(raw);
    if !is_short(text) {
        reveal_strlit("...");
        lemma_short_head(text);
        lemma_encode_concat(short_head(text), "..."@);
        vstd::utf8::is_ascii_chars_encode_utf8("..."@);
    }
}

/// Output of one short line that does not tell where an identity file lies is
/// shown as it is.
pub proof fn law_short_clean_line_is_kept(raw: Seq<char>)
    requires
        forall|i: int| 0 <= i < raw.len() ==> raw[i] != '\n',
        !names_key_file(raw),
        is_short(raw),
    ensures
        sanitized(raw) == raw,
{
    let keep = |line: Seq<char>| !names_key_file(line);
    split::lemma_line_len(raw);
    reveal_with_fuel(Seq::filter, 2);
    if raw.len() == 0 {
        assert(split::lines(raw) =~= seq![]);
        assert(redacted(raw) =~= raw);
    } else {
        assert(split::lines(raw) =~= seq![raw]);
        assert(split::lines(raw).drop_last() =~= seq![]);
        assert(split::lines(raw).filter(keep) =~= seq![raw]);
    }
}

/// A line tells where an identity file lies just if one of the two marks is a
/// part of it.
pub proof fn law_key_file_marks(line: Seq<char>)
    ensures
        names_key_file(line) <==> (exists|a: Seq<char>, b: Seq<char>|
            line == #[trigger] (a + "/.ssh/"@ + b)) || (exists|a: Seq<char>, b: Seq<char>|
            line == #[trigger] (a + "identity file"@ + b)),
{
    text::law_occurs_is_a_middle("/.ssh/"@, line);
    text::law_occurs_is_a_middle("identity file"@, line);
}

/// A line on its own is dropped if it tells where an identity file lies, else
/// kept as it is.
pub proof fn law_single_line_is_dropped_or_kept(line: Seq<char>)
    requires
        forall|i: int| 0 <= i < line.len() ==> line[i] != '\n',
    ensures
        names_key_file(line) ==> redacted(line).len() == 0,
        !names_key_file(line) ==> redacted(line) == line,
{
    let keep = |line: Seq<char>| !names_key_file(line);
    split::law_text_without_newline_is_one_line(line);
    reveal_with_fuel(Seq::filter, 2);
    if line.len() == 0 {
        assert(split::lines(line) =~= seq![]);
        assert(redacted(line) =~= line);
    } else {
        lemma_filter_one(line);
    }
}

proof fn lemma_filter_one(line: Seq<char>)
    ensures
        names_key_file(line) ==> seq![line].filter(
            |line: Seq<char>| !names_key_file(line),
        ) == Seq::<Seq<char>>::empty(),
        !names_key_file(line) ==> seq![line].filter(|line: Seq<char>| !names_key_file(line))
            == seq![line],
{
    reveal_with_fuel(Seq::filter, 2);
    assert(seq![line].drop_last() =~= seq![]);
    assert(seq![line].filter(|line: Seq<char>| !names_key_file(line)) =~= if names_key_file(line) {
        seq![]
    } else {
        seq![line]
    });
}

/// Output is redacted line by line: a first line, ended in either way, is
/// dropped if it tells where an identity file lies. Else it is kept before what
/// is kept of the rest, with a semicolon and a space between if anything is.
pub proof fn law_redacted_line_by_line(text: Seq<char>, line: Seq<char>, rest: Seq<char>)
    requires
        forall|i: int| 0 <= i < line.len() ==> line[i] != '\n',
        text == line + seq!['\r', '\n'] + rest || (text == line + seq!['\n'] + rest && (line.len()
            == 0 || line[line.len() - 1] != '\r')),
    ensures
        names_key_file(line) ==> redacted(text) == redacted(rest),
        !names_key_file(line) && (exists|k: int|
            0 <= k < split::lines(rest).len() && !names_key_file(
                #[trigger] split::lines(rest)[k],
            )) ==> redacted(text) == line + "; "@ + redacted(rest),
        !names_key_file(line) && (forall|k: int|
            0 <= k < split::lines(rest).len() ==> names_key_file(
                #[trigger] split::lines(rest)[k],
            )) ==> redacted(text) == line,
{
    let keep = |line: Seq<char>| !names_key_file(line);
    if text == line + seq!['\r', '\n'] + rest {
        let ended = line.push('\r');
        assert(text =~= ended + seq!['\n'] + rest);
        assert forall|i: int| 0 <= i < ended.len() implies ended[i] != '\n' by {
            if i < line.len() {
                assert(ended[i] == line[i]);
            }
        }
        split::law_first_line_and_the_rest(ended, rest);
        assert(ended.take(ended.len() - 1) =~= line);
    } else {
        split::law_first_line_and_the_rest(line, rest);
    }
    let later = split::lines(rest);
    let kept = later.filter(keep);
    assert(split::lines(text) == seq![line] + later);
    Seq::filter_distributes_over_add(seq![line], later, keep);
    lemma_filter_one(line);
    if names_key_file(line) {
        assert(seq![line].filter(keep) + kept =~= kept);
    } else {
        if exists|k: int| 0 <= k < later.len() && !names_key_file(#[trigger] later[k]) {
            let k = choose|k: int| 0 <= k < later.len() && !names_key_file(#[trigger] later[k]);
            later.lemma_filter_contains(keep, k);
            split::law_joined_lists(line, seq![line], kept, "; "@);
        }
        if forall|k: int| 0 <= k < later.len() ==> names_key_file(#[trigger] later[k]) {
            if kept.len() > 0 {
                assert(kept.contains(kept[0]));
                later.lemma_filter_contains_rev(keep, kept[0]);
                later.lemma_filter_pred(keep, 0);
                let k = choose|k: int| 0 <= k < later.len() && later[k] == kept[0];
                assert(names_key_file(later[k]));
            }
            assert(seq![line].filter(keep) + kept =~= seq![line]);
        }
    }
}

/// What is left of the output is shown in full if it takes at most 200 bytes.
/// Else as many of its first characters are shown as fit, with three full stops
/// behind them.
pub proof fn law_sanitized_is_cut_at_two_hundred_bytes(raw: Seq<char>)
    ensures
        vstd::utf8::encode_utf8(redacted(raw)).len() <= 200 ==> sanitized(raw) == redacted(raw),
        vstd::utf8::encode_utf8(redacted(raw)).len() > 200 ==> exists|n: int|
            0 <= n < redacted(raw).len() && sanitized(raw) == #[trigger] redacted(raw).take(n)
                + "..."@ && vstd::utf8::encode_utf8(redacted(raw).take(n)).len() <= 200
                && vstd::utf8::encode_utf8(redacted(raw).take(n + 1)).len() > 200,
{
    let text = redacted(raw);
    if !is_short(text) {
        lemma_short_head(text);
        let n = short_head(text).len() as int;
        if n == text.len() {
            assert(text.take(n) =~= text);
        }
        law_as_much_as_fits_is_kept(text, n + 1);
        assert(sanitized(raw) == text.take(n) + "..."@);
    }
}

} // verus!
