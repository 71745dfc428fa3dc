//! Splitting text into lines and words, and joining parts back together.

use vstd::prelude::*;

use crate::text;

verus! {

/// The parts of a list as character sequences.
pub open spec fn views(parts: Seq<String>) -> Seq<Seq<char>> {
    parts.map_values(|part: String| part@)
}

// ---------------------------------------------------------------------------
// Lines
// ---------------------------------------------------------------------------

/// How many characters stand before the first newline of `text`.
pub open spec fn line_len(text: Seq<char>) -> nat
    decreases text.len(),
{
    if text.len() == 0 || text[0] == '\n' {
        0
    } else {
        1 + line_len(text.drop_first())
    }
}

/// `line` without the carriage return it ends with, if it does.
pub open spec fn without_return(line: Seq<char>) -> Seq<char> {
    if line.len() > 0 && line.last() == '\r' {
        line.drop_last()
    } else {
        line
    }
}

/// The lines of `text`: each ends at a newline, or at a carriage return
/// followed by a newline, and neither belongs to it. The newline of the last
/// line is optional.
pub open spec fn lines(text: Seq<char>) -> Seq<Seq<char>>
    decreases text.len(),
{
    proof {
        lemma_line_len(text);
    }
    let n = line_len(text) as int;
    if text.len() == 0 {
        seq![]
    } else if n == text.len() {
        seq![text]
    } else {
        seq![without_return(text.take(n))] + lines(text.skip(n + 1))
    }
}

/// `line_len` finds the first newline.
pub proof fn lemma_line_len(text: Seq<char>)
    ensures
        line_len(text) <= text.len(),
        line_len(text) < text.len() ==> text[line_len(text) as int] == '\n',
        forall|i: int| 0 <= i < line_len(text) ==> text[i] != '\n',
    decreases text.len(),
{
    if text.len() > 0 && text[0] != '\n' {
        let rest = text.drop_first();
        lemma_line_len(rest);
        assert forall|i: int| 0 <= i < line_len(text) implies text[i] != '\n' by {
            if i > 0 {
                assert(rest[i - 1] == text[i]);
            }
        }
    }
}

/// A position that is a newline, or the end, with none before it is `line_len`.
proof fn lemma_line_len_is(text: Seq<char>, n: int)
    requires
        0 <= n <= text.len(),
        forall|i: int| 0 <= i < n ==> text[i] != '\n',
        n < text.len() ==> text[n] == '\n',
    ensures
        line_len(text) == n,
{
    lemma_line_len(text);
}

/// The lines of `text`.
pub fn split_lines(text: &str) -> (res: Vec<String>)
    ensures
        views(res@) == lines(text@),
{
    let chars = text::chars_of(text);
    let mut out: Vec<String> = Vec::new();
    let mut start: usize = 0;
    assert(text@.skip(0) =~= text@);
    assert(views(out@) =~= Seq::empty());
    while start < chars.len()
        invariant
            chars@ == text@,
            start <= chars@.len(),
            views(out@) + lines(text@.skip(start as int)) =~= lines(text@),
        decreases chars@.len() - start,
    {
        let ghost rest = text@.skip(start as int);
        let mut end: usize = start;
        while end < chars.len() && chars[end] != '\n'
            invariant
                chars@ == text@,
                start <= end <= chars@.len(),
                rest == text@.skip(start as int),
                forall|i: int| 0 <= i < end - start ==> rest[i] != '\n',
            decreases chars@.len() - end,
        {
            end += 1;
        }
        proof {
            lemma_line_len_is(rest, end - start);
        }
        let ghost before = out@;
        if end == chars.len() {
            let line = text.substring_char(start, end).to_owned();
            assert(line@ =~= rest);
            out.push(line);
            assert(views(out@) =~= views(before).push(line@));
            assert(lines(text@.skip(end as int)) =~= Seq::empty());
            start = end;
        } else {
            let cut: usize = if end > start && chars[end - 1] == '\r' {
                end - 1
            } else {
                end
            };
            let line = text.substring_char(start, cut).to_owned();
            assert(rest.take(end - start) =~= text@.subrange(start as int, end as int));
            assert(line@ =~= without_return(rest.take(end - start)));
            out.push(line);
            assert(views(out@) =~= views(before).push(line@));
            assert(rest.skip(end - start + 1) =~= text@.skip(end + 1));
            start = end + 1;
        }
    }
    assert(lines(text@.skip(start as int)) =~= Seq::empty());
    out
}

// ---------------------------------------------------------------------------
// Words
// ---------------------------------------------------------------------------

/// How many characters stand before the first white space of `text`.
pub open spec fn word_len(text: Seq<char>) -> nat
    decreases text.len(),
{
    if text.len() == 0 || text::is_space(text[0]) {
        0
    } else {
        1 + word_len(text.drop_first())
    }
}

/// The words of `text`: its longest runs of characters that are not white
/// space, in order.
pub open spec fn words(text: Seq<char>) -> Seq<Seq<char>>
    decreases text.len(),
{
    proof {
        lemma_word_len(text);
    }
    let n = word_len(text) as int;
    if text.len() == 0 {
        seq![]
    } else if n == 0 {
        words(text.drop_first())
    } else {
        seq![text.take(n)] + words(text.skip(n))
    }
}

/// `word_len` finds the first white space.
pub proof fn lemma_word_len(text: Seq<char>)
    ensures
        word_len(text) <= text.len(),
        word_len(text) < text.len() ==> text::is_space(text[word_len(text) as int]),
        forall|i: int| 0 <= i < word_len(text) ==> !text::is_space(text[i]),
    decreases text.len(),
{
    if text.len() > 0 && !text::is_space(text[0]) {
        let rest = text.drop_first();
        lemma_word_len(rest);
        assert forall|i: int| 0 <= i < word_len(text) implies !text::is_space(text[i]) by {
            if i > 0 {
                assert(rest[i - 1] == text[i]);
            }
        }
    }
}

/// A white space position, or the end, with none before it is `word_len`.
pub proof fn lemma_word_len_is(text: Seq<char>, n: int)
    requires
        0 <= n <= text.len(),
        forall|i: int| 0 <= i < n ==> !text::is_space(text[i]),
        n < text.len() ==> text::is_space(text[n]),
    ensures
        word_len(text) == n,
{
    lemma_word_len(text);
}

/// The words of `text`.
pub fn split_words(text: &str) -> (res: Vec<String>)
    ensures
        views(res@) == words(text@),
{
    let chars = text::chars_of(text);
    let mut out: Vec<String> = Vec::new();
    let mut start: usize = 0;
    assert(text@.skip(0) =~= text@);
    assert(views(out@) =~= Seq::empty());
    while start < chars.len()
        invariant
            chars@ == text@,
            start <= chars@.len(),
            views(out@) + words(text@.skip(start as int)) =~= words(text@),
        decreases chars@.len() - start,
    {
        let ghost rest = text@.skip(start as int);
        let mut end: usize = start;
        while end < chars.len() && !text::is_white_space(chars[end])
            invariant
                chars@ == text@,
                start <= end <= chars@.len(),
                rest == text@.skip(start as int),
                forall|i: int| 0 <= i < end - start ==> !text::is_space(rest[i]),
            decreases chars@.len() - end,
        {
            end += 1;
        }
        proof {
            lemma_word_len_is(rest, end - start);
        }
        if end == start {
            assert(rest.drop_first() =~= text@.skip(start + 1));
            start += 1;
        } else {
            let ghost before = out@;
            let word = text.substring_char(start, end).to_owned();
            assert(word@ =~= rest.take(end - start));
            out.push(word);
            assert(views(out@) =~= views(before).push(word@));
            assert(rest.skip(end - start) =~= text@.skip(end as int));
            start = end;
        }
    }
    assert(words(text@.skip(start as int)) =~= Seq::empty());
    out
}

/// `word` stands in `text` between white space or the ends of the text, and has
/// no white space in it.
pub open spec fn is_delimited_at(word: Seq<char>, text: Seq<char>, i: int) -> bool {
    &&& word.len() > 0
    &&& forall|j: int| 0 <= j < word.len() ==> !text::is_space(word[j])
    &&& text::occurs_at(word, text, i)
    &&& i == 0 || text::is_space(text[i - 1])
    &&& i + word.len() == text.len() || text::is_space(text[i + word.len()])
}

/// Each word of a text stands in it between white space or the ends.
proof fn lemma_word_is_delimited(text: Seq<char>, k: int)
    requires
        0 <= k < words(text).len(),
    ensures
        exists|i: int| is_delimited_at(words(text)[k], text, i),
    decreases text.len(),
{
    lemma_word_len(text);
    let n = word_len(text) as int;
    let word = words(text)[k];
    if n > 0 && k == 0 {
        assert(text.take(n) =~= text.subrange(0, n));
        assert(is_delimited_at(word, text, 0));
    } else {
        let skipped: int = if n == 0 {
            1
        } else {
            n
        };
        let rest = text.skip(skipped);
        let k_rest: int = if n == 0 {
            k
        } else {
            k - 1
        };
        if n == 0 {
            assert(rest =~= text.drop_first());
        }
        lemma_word_is_delimited(rest, k_rest);
        let i = choose|i: int| is_delimited_at(word, rest, i);
        assert(text.subrange(i + skipped, i + skipped + word.len()) =~= rest.subrange(
            i,
            i + word.len(),
        ));
        if i == 0 {
            assert(rest[0] == word[0]);
            assert(n == 0);
        }
        assert(is_delimited_at(word, text, i + skipped));
    }
}

/// What stands in a text between white space or the ends is one of its words.
proof fn lemma_delimited_is_word(word: Seq<char>, text: Seq<char>, i: int)
    requires
        is_delimited_at(word, text, i),
    ensures
        words(text).contains(word),
    decreases text.len(),
{
    lemma_word_len(text);
    let n = word_len(text) as int;
    let found = text.subrange(i, i + word.len());
    assert forall|j: int| 0 <= j < word.len() implies text[i + j] == word[j] by {
        assert(found[j] == text[i + j]);
    }
    if i == 0 {
        assert forall|j: int| 0 <= j < word.len() implies !text::is_space(text[j]) by {
            assert(text[i + j] == word[j]);
        }
        lemma_word_len_is(text, word.len() as int);
        assert(text.take(n) =~= word);
        assert(words(text)[0] == word);
    } else {
        let skipped: int = if n == 0 {
            1
        } else {
            n
        };
        let rest = text.skip(skipped);
        if n == 0 {
            assert(rest =~= text.drop_first());
        }
        assert(skipped <= i);
        assert(rest.subrange(i - skipped, i - skipped + word.len()) =~= found);
        if skipped < i {
            assert(rest[i - skipped - 1] == text[i - 1]);
        }
        assert(is_delimited_at(word, rest, i - skipped));
        lemma_delimited_is_word(word, rest, i - skipped);
        let k = choose|k: int| 0 <= k < words(rest).len() && words(rest)[k] == word;
        if n == 0 {
            assert(words(text)[k] == word);
        } else {
            assert(words(text)[k + 1] == word);
        }
    }
}

/// The words of a text are just what stands in it between white space or its
/// ends.
pub proof fn law_words_are_delimited(word: Seq<char>, text: Seq<char>)
    ensures
        words(text).contains(word) <==> exists|i: int| is_delimited_at(word, text, i),
{
    if words(text).contains(word) {
        let k = choose|k: int| 0 <= k < words(text).len() && words(text)[k] == word;
        lemma_word_is_delimited(text, k);
    }
    if exists|i: int| is_delimited_at(word, text, i) {
        let i = choose|i: int| is_delimited_at(word, text, i);
        lemma_delimited_is_word(word, text, i);
    }
}

// ---------------------------------------------------------------------------
// Joining
// ---------------------------------------------------------------------------

/// The parts one after the other, with `separator` between neighbours.
pub open spec fn joined(parts: Seq<Seq<char>>, separator: Seq<char>) -> Seq<char>
    decreases parts.len(),
{
    if parts.len() == 0 {
        seq![]
    } else if parts.len() == 1 {
        parts[0]
    } else {
        joined(parts.drop_last(), separator) + separator + parts.last()
    }
}

/// The parts one after the other, with `separator` between neighbours.
pub fn join(parts: &Vec<String>, separator: &str) -> (res: String)
    ensures
        res@ == joined(views(parts@), separator@),
{
    let mut out = String::new();
    let mut i: usize = 0;
    while i < parts.len()
        invariant
            i <= parts@.len(),
            out@ == joined(views(parts@).take(i as int), separator@),
        decreases parts@.len() - i,
    {
        let ghost next = views(parts@).take(i + 1);
        assert(next.drop_last() =~= views(parts@).take(i as int));
        assert(next.last() == parts@[i as int]@);
        if i > 0 {
            out.append(separator);
        }
        out.append(parts[i].as_str());
        assert(out@ =~= joined(next, separator@));
        i += 1;
    }
    assert(views(parts@).take(i as int) =~= views(parts@));
    out
}

// ---------------------------------------------------------------------------
// Laws
// ---------------------------------------------------------------------------

/// The view of a list has the characters of each of its parts, in order.
pub proof fn law_views_are_the_parts(parts: Seq<String>)
    ensures
        views(parts).len() == parts.len(),
        forall|i: int| 0 <= i < parts.len() ==> #[trigger] views(parts)[i] == parts[i]@,
{
}

/// A text without newline is one line, or none if it is empty.
pub proof fn law_text_without_newline_is_one_line(text: Seq<char>)
    requires
        forall|i: int| 0 <= i < text.len() ==> text[i] != '\n',
    ensures
        text.len() == 0 ==> lines(text).len() == 0,
        text.len() > 0 ==> lines(text) == seq![text],
{
    lemma_line_len_is(text, text.len() as int);
}

/// Splitting into lines loses nothing: the lines of a text that goes on after
/// its first newline are what stands before it, without a carriage return at
/// its end, and all the lines of the rest.
pub proof fn law_first_line_and_the_rest(line: Seq<char>, rest: Seq<char>)
    requires
        forall|i: int| 0 <= i < line.len() ==> line[i] != '\n',
    ensures
        line.len() > 0 && line[line.len() - 1] == '\r' ==> lines(line + seq!['\n'] + rest)
            == seq![line.take(line.len() - 1)] + lines(rest),
        line.len() == 0 || line[line.len() - 1] != '\r' ==> lines(line + seq!['\n'] + rest)
            == seq![line] + lines(rest),
{
    let text = line + seq!['\n'] + rest;
    let n = line.len() as int;
    lemma_line_len_is(text, n);
    assert(text.take(n) =~= line);
    assert(text.skip(n + 1) =~= rest);
    if n > 0 && line[n - 1] == '\r' {
        assert(line.drop_last() =~= line.take(n - 1));
    }
}

/// A text has as many lines as newlines, and one more if it does not end with
/// one.
pub proof fn law_number_of_lines(text: Seq<char>)
    ensures
        text.len() > 0 && text[text.len() - 1] != '\n' ==> lines(text).len() == text.filter(
            |c: char| c == '\n',
        ).len() + 1,
        text.len() == 0 || text[text.len() - 1] == '\n' ==> lines(text).len() == text.filter(
            |c: char| c == '\n',
        ).len(),
    decreases text.len(),
{
    let newline = |c: char| c == '\n';
    lemma_line_len(text);
    let n = line_len(text) as int;
    let first = text.take(n);
    lemma_no_newline_filters_to_nothing(first);
    if text.len() == 0 || n == text.len() {
        assert(first =~= text);
    } else {
        let rest = text.skip(n + 1);
        law_number_of_lines(rest);
        assert(text =~= first + seq!['\n'] + rest);
        Seq::filter_distributes_over_add(first + seq!['\n'], rest, newline);
        Seq::filter_distributes_over_add(first, seq!['\n'], newline);
        assert(seq!['\n'].filter(newline).len() == 1) by {
            reveal_with_fuel(Seq::filter, 2);
            assert(seq!['\n'].drop_last() =~= seq![]);
        }
    }
}

proof fn lemma_no_newline_filters_to_nothing(text: Seq<char>)
    requires
        forall|i: int| 0 <= i < text.len() ==> text[i] != '\n',
    ensures
        text.filter(|c: char| c == '\n').len() == 0,
    decreases text.len(),
{
    reveal(Seq::filter);
    if text.len() > 0 {
        lemma_no_newline_filters_to_nothing(text.drop_last());
    }
}

/// White space alone has no words.
pub proof fn law_white_space_has_no_words(text: Seq<char>)
    requires
        forall|i: int| 0 <= i < text.len() ==> text::is_space(text[i]),
    ensures
        words(text).len() == 0,
    decreases text.len(),
{
    if text.len() > 0 {
        assert(text::is_space(text[0]));
        law_white_space_has_no_words(text.drop_first());
    }
}

/// The words of white space, a run of other characters, and a rest that is empty
/// or begins with white space, are the run and all the words of the rest.
pub proof fn law_first_word_and_the_rest(space: Seq<char>, word: Seq<char>, rest: Seq<char>)
    requires
        forall|i: int| 0 <= i < space.len() ==> text::is_space(space[i]),
        word.len() > 0,
        forall|i: int| 0 <= i < word.len() ==> !text::is_space(word[i]),
        rest.len() == 0 || text::is_space(rest[0]),
    ensures
        words(space + word + rest) == seq![word] + words(rest),
    decreases space.len(),
{
    let text = space + word + rest;
    if space.len() == 0 {
        assert(text =~= word + rest);
        lemma_word_len_is(text, word.len() as int);
        assert(text.take(word.len() as int) =~= word);
        assert(text.skip(word.len() as int) =~= rest);
    } else {
        assert(text[0] == space[0]);
        assert(text::is_space(text[0]));
        assert(text.drop_first() =~= space.drop_first() + word + rest);
        law_first_word_and_the_rest(space.drop_first(), word, rest);
    }
}

/// White space at the end of a text adds no word.
pub proof fn law_space_at_the_end_adds_no_word(text: Seq<char>, c: char)
    requires
        text::is_space(c),
    ensures
        words(text.push(c)) == words(text),
    decreases text.len(),
{
    let longer = text.push(c);
    lemma_word_len(text);
    let n = word_len(text) as int;
    if text.len() == 0 {
        law_white_space_has_no_words(longer);
        assert(words(longer) =~= words(text));
    } else if n == 0 {
        assert(longer[0] == text[0]);
        assert(longer.drop_first() =~= text.drop_first().push(c));
        law_space_at_the_end_adds_no_word(text.drop_first(), c);
    } else {
        assert forall|i: int| 0 <= i < n implies !text::is_space(longer[i]) by {
            assert(longer[i] == text[i]);
        }
        lemma_word_len_is(longer, n);
        assert(longer.take(n) =~= text.take(n));
        assert(longer.skip(n) =~= text.skip(n).push(c));
        law_space_at_the_end_adds_no_word(text.skip(n), c);
    }
}

/// Joining nothing gives nothing, joining one part gives the part, and two lists
/// joined as one are each joined, with the separator between.
pub proof fn law_joined_lists(
    part: Seq<char>,
    front: Seq<Seq<char>>,
    back: Seq<Seq<char>>,
    separator: Seq<char>,
)
    requires
        front.len() > 0,
        back.len() > 0,
    ensures
        joined(seq![], separator).len() == 0,
        joined(seq![part], separator) == part,
        joined(front + back, separator) == joined(front, separator) + separator + joined(
            back,
            separator,
        ),
    decreases back.len(),
{
    let whole = front + back;
    assert(whole.last() == back.last());
    if back.len() == 1 {
        assert(whole.drop_last() =~= front);
    } else {
        law_joined_lists(part, front, back.drop_last(), separator);
        assert(whole.drop_last() =~= front + back.drop_last());
        assert(joined(whole, separator) =~= joined(front, separator) + separator + joined(
            back,
            separator,
        ));
    }
}

} // verus!
