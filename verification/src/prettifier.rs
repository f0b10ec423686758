//! The text of a rendered source file: comment lines are taken out and
//! blank lines are put in front of items.

use vstd::prelude::*;
use crate::generator::search::{
    first_index, kept, lemma_first_index_is, lemma_first_index_none,
};

verus! {

/// Whether a character is white space: what `char::is_whitespace` returns
/// for it, which is whether the character has the Unicode property
/// White_Space.
pub uninterp spec fn char_is_whitespace(c: char) -> bool;

/// Calls `char::is_whitespace`. The result depends on the character
/// alone; it is named, not spelled out.
#[verifier::external_body]
fn is_whitespace(c: char) -> (white: bool)
    ensures
        white == char_is_whitespace(c),
{
    c.is_whitespace()
}

/// Calls `String::push`, which appends the character to the end of the
/// string.
#[verifier::external_body]
fn push_char(text: &mut String, c: char)
    ensures
        final(text)@ == old(text)@.push(c),
{
    text.push(c);
}

/// The characters of a string, in a vector.
pub fn chars_of(text: &str) -> (chars: Vec<char>)
    ensures
        chars@ == text@,
{
    let mut chars: Vec<char> = Vec::new();
    for c in iter: text.chars()
        invariant
            chars.len() == iter.index(),
            iter.seq() == text@,
            forall|j: int| 0 <= j < chars.len() ==> chars@[j] == iter.seq()[j],
    {
        chars.push(c);
    }
    assert(chars@ =~= text@);
    chars
}

/// The string that holds the given characters.
pub fn string_of(chars: &Vec<char>) -> (text: String)
    ensures
        text@ == chars@,
{
    let mut text = String::new();
    let mut i: usize = 0;
    while i < chars.len()
        invariant
            0 <= i <= chars.len(),
            text@ == chars@.take(i as int),
        decreases chars.len() - i,
    {
        push_char(&mut text, chars[i]);
        assert(chars@.take(i as int + 1) =~= chars@.take(i as int).push(chars@[i as int]));
        i += 1;
    }
    assert(chars@.take(i as int) =~= chars@);
    text
}

/// The character sequences that the vectors hold.
pub open spec fn rows(lines: Seq<Vec<char>>) -> Seq<Seq<char>> {
    Seq::new(lines.len(), |i: int| lines[i]@)
}

/// A line without the carriage return at its end, if it has one.
pub open spec fn without_return(line: Seq<char>) -> Seq<char> {
    if line.len() > 0 && line.last() == '\r' {
        line.drop_last()
    } else {
        line
    }
}

/// A text read character by character: the lines that a line feed has
/// ended so far, and the characters after the last line feed.
pub open spec fn split(text: Seq<char>) -> (Seq<Seq<char>>, Seq<char>)
    decreases text.len(),
{
    if text.len() == 0 {
        (Seq::empty(), Seq::empty())
    } else {
        let (done, current) = split(text.drop_last());
        if text.last() == '\n' {
            (done.push(without_return(current)), Seq::empty())
        } else {
            (done, current.push(text.last()))
        }
    }
}

/// The lines of a text. A line ends at a line feed, or at a carriage
/// return followed by one; neither belongs to the line. What follows the
/// last line feed is a line too, unless it is empty.
pub open spec fn lines_of(text: Seq<char>) -> Seq<Seq<char>> {
    let (done, current) = split(text);
    if current.len() > 0 {
        done.push(current)
    } else {
        done
    }
}

/// The property of being no white space.
pub open spec fn not_whitespace() -> spec_fn(char) -> bool {
    |c: char| !char_is_whitespace(c)
}

/// Whether the first two characters of a line after its leading white
/// space are slashes.
pub open spec fn is_comment_line(line: Seq<char>) -> bool {
    match first_index(line, not_whitespace()) {
        Some(i) => i + 1 < line.len() && line[i] == '/' && line[i + 1] == '/',
        None => false,
    }
}

/// The property of being a line that is no comment.
pub open spec fn not_comment() -> spec_fn(Seq<char>) -> bool {
    |line: Seq<char>| !is_comment_line(line)
}

/// The lines put together, with a line feed between each two.
pub open spec fn joined(lines: Seq<Seq<char>>) -> Seq<char>
    decreases lines.len(),
{
    if lines.len() == 0 {
        Seq::empty()
    } else if lines.len() == 1 {
        lines[0]
    } else {
        joined(lines.drop_last()).push('\n') + lines.last()
    }
}

/// A text without its comment lines: the lines that are no comments, put
/// together again.
pub open spec fn without_comments(text: Seq<char>) -> Seq<char> {
    joined(kept(lines_of(text), not_comment()))
}

/// Splits a text into its lines.
pub fn split_lines(chars: &Vec<char>) -> (lines: Vec<Vec<char>>)
    ensures
        rows(lines@) == lines_of(chars@),
{
    let mut done: Vec<Vec<char>> = Vec::new();
    let mut current: Vec<char> = Vec::new();
    let mut i: usize = 0;
    assert(chars@.take(0) =~= Seq::<char>::empty());
    assert(rows(done@) =~= Seq::<Seq<char>>::empty());
    while i < chars.len()
        invariant
            0 <= i <= chars.len(),
            (rows(done@), current@) == split(chars@.take(i as int)),
        decreases chars.len() - i,
    {
        let c = chars[i];
        proof {
            assert(chars@.take(i as int + 1).drop_last() =~= chars@.take(i as int));
            assert(chars@.take(i as int + 1).last() == c);
        }
        if c == '\n' {
            let n = current.len();
            if n > 0 && current[n - 1] == '\r' {
                current.pop();
            }
            assert(current@ =~= without_return(split(chars@.take(i as int)).1));
            let ghost before = rows(done@);
            done.push(current);
            assert(rows(done@) =~= before.push(current@));
            current = Vec::new();
        } else {
            current.push(c);
        }
        i += 1;
    }
    assert(chars@.take(i as int) =~= chars@);
    if current.len() > 0 {
        let ghost before = rows(done@);
        done.push(current);
        assert(rows(done@) =~= before.push(current@));
    }
    done
}

/// Whether a line is a comment.
pub fn comment_line(line: &Vec<char>) -> (comment: bool)
    ensures
        comment == is_comment_line(line@),
{
    let mut i: usize = 0;
    while i < line.len()
        invariant
            0 <= i <= line.len(),
            forall|j: int| 0 <= j < i ==> !not_whitespace()(#[trigger] line@[j]),
        decreases line.len() - i,
    {
        if !is_whitespace(line[i]) {
            proof {
                lemma_first_index_is(line@, not_whitespace(), i as int);
            }
            return i + 1 < line.len() && line[i] == '/' && line[i + 1] == '/';
        }
        i += 1;
    }
    proof {
        lemma_first_index_none(line@, not_whitespace());
    }
    false
}

/// Appends the characters of `line` to `out`.
fn append_chars(out: &mut Vec<char>, line: &Vec<char>)
    ensures
        final(out)@ == old(out)@ + line@,
{
    let ghost start = out@;
    let mut i: usize = 0;
    while i < line.len()
        invariant
            0 <= i <= line.len(),
            out@ == start + line@.take(i as int),
        decreases line.len() - i,
    {
        out.push(line[i]);
        assert(out@ =~= start + line@.take(i as int + 1));
        i += 1;
    }
    assert(line@.take(i as int) =~= line@);
}

/// Takes the comment lines out of a text: every line that begins, after
/// its leading white space, with two slashes. The other lines are put
/// together with a line feed between each two.
pub fn doc_comments_remove(input: &str) -> (output: String)
    ensures
        output@ == without_comments(input@),
{
    let chars = chars_of(input);
    let lines = split_lines(&chars);
    let ghost all = rows(lines@);
    let mut out: Vec<char> = Vec::new();
    let mut first = true;
    let mut i: usize = 0;
    assert(all.take(0) =~= Seq::<Seq<char>>::empty());
    while i < lines.len()
        invariant
            0 <= i <= lines.len(),
            all == rows(lines@),
            out@ == joined(kept(all.take(i as int), not_comment())),
            first == (kept(all.take(i as int), not_comment()).len() == 0),
        decreases lines.len() - i,
    {
        proof {
            assert(all.take(i as int + 1).drop_last() =~= all.take(i as int));
            assert(all.take(i as int + 1).last() == lines[i as int]@);
        }
        if !comment_line(&lines[i]) {
            let ghost before = kept(all.take(i as int), not_comment());
            let ghost after = kept(all.take(i as int + 1), not_comment());
            assert(after.drop_last() =~= before);
            if first {
                first = false;
                assert(out@ =~= Seq::<char>::empty());
            } else {
                out.push('\n');
            }
            append_chars(&mut out, &lines[i]);
            assert(out@ =~= joined(after));
        }
        i += 1;
    }
    assert(all.take(i as int) =~= all);
    string_of(&out)
}

/// A line without its white space.
pub open spec fn dense(line: Seq<char>) -> Seq<char> {
    kept(line, not_whitespace())
}

/// Whether `line` begins with the characters of `word`.
pub open spec fn has_prefix(line: Seq<char>, word: Seq<char>) -> bool {
    word.len() <= line.len() && line.take(word.len() as int) == word
}

/// Whether a line without white space begins an item: an implementation
/// block, an attribute or a function.
pub open spec fn starts_item(line: Seq<char>) -> bool {
    has_prefix(line, seq!['i', 'm', 'p', 'l']) || has_prefix(line, seq!['#']) || has_prefix(
        line,
        seq!['f', 'n'],
    )
}

/// Whether a blank line goes between two lines: the second begins an
/// item, and the first ends a block or a statement.
pub open spec fn needs_gap(previous: Seq<char>, current: Seq<char>) -> bool {
    starts_item(dense(current)) && dense(previous).len() > 0 && (dense(previous).last() == '}'
        || dense(previous).last() == ';')
}

/// The lines written out, each after a line feed, and with one more line
/// feed in front of a line that needs a gap to the line before it.
pub open spec fn laid_out(lines: Seq<Seq<char>>) -> Seq<char>
    decreases lines.len(),
{
    if lines.len() == 0 {
        Seq::empty()
    } else {
        let front = laid_out(lines.drop_last());
        let gap = lines.len() >= 2 && needs_gap(lines[lines.len() - 2], lines.last());
        if gap {
            front.push('\n').push('\n') + lines.last()
        } else {
            front.push('\n') + lines.last()
        }
    }
}

/// The text of a rendered file as it is handed out: without its comment
/// lines, and with blank lines in front of items.
pub open spec fn formatted(rendered: Seq<char>) -> Seq<char> {
    laid_out(lines_of(without_comments(rendered)))
}

/// Copies a line without its white space.
pub fn strip_whitespace(line: &Vec<char>) -> (stripped: Vec<char>)
    ensures
        stripped@ == dense(line@),
{
    let mut stripped: Vec<char> = Vec::new();
    let mut i: usize = 0;
    assert(line@.take(0) =~= Seq::<char>::empty());
    while i < line.len()
        invariant
            0 <= i <= line.len(),
            stripped@ == dense(line@.take(i as int)),
        decreases line.len() - i,
    {
        proof {
            assert(line@.take(i as int + 1).drop_last() =~= line@.take(i as int));
            assert(line@.take(i as int + 1).last() == line@[i as int]);
        }
        if !is_whitespace(line[i]) {
            stripped.push(line[i]);
        }
        i += 1;
    }
    assert(line@.take(i as int) =~= line@);
    stripped
}

/// Whether a line without white space begins an item.
pub fn begins_item(line: &Vec<char>) -> (begins: bool)
    ensures
        begins == starts_item(line@),
{
    let n = line.len();
    let is_impl = n >= 4 && line[0] == 'i' && line[1] == 'm' && line[2] == 'p' && line[3] == 'l';
    let is_attribute = n >= 1 && line[0] == '#';
    let is_fn = n >= 2 && line[0] == 'f' && line[1] == 'n';
    proof {
        if n >= 4 {
            assert(is_impl == (line@.take(4) =~= seq!['i', 'm', 'p', 'l']));
        }
        if n >= 1 {
            assert(line@.take(1)[0] == line@[0]);
            assert(seq!['#'][0] == '#');
            assert(is_attribute == (line@.take(1) =~= seq!['#']));
        }
        if n >= 2 {
            assert(is_fn == (line@.take(2) =~= seq!['f', 'n']));
        }
    }
    is_impl || is_attribute || is_fn
}

/// Lays out the lines of a text without comments: each line after a line
/// feed, and a blank line in front of an item that follows a block or a
/// statement.
pub fn lay_out(text: &str) -> (output: String)
    ensures
        output@ == laid_out(lines_of(text@)),
{
    let chars = chars_of(text);
    let lines = split_lines(&chars);
    let ghost all = rows(lines@);
    let mut result: Vec<char> = Vec::new();
    let mut key: usize = 0;
    assert(all.take(0) =~= Seq::<Seq<char>>::empty());
    while key < lines.len()
        invariant
            0 <= key <= lines.len(),
            all == rows(lines@),
            result@ == laid_out(all.take(key as int)),
        decreases lines.len() - key,
    {
        let ghost part = all.take(key as int + 1);
        proof {
            assert(part.drop_last() =~= all.take(key as int));
            assert(part.last() == lines[key as int]@);
            if key > 0 {
                assert(part[part.len() - 2] == lines[key as int - 1]@);
            }
        }
        let current = strip_whitespace(&lines[key]);
        let mut gap = false;
        if key > 0 {
            let previous = strip_whitespace(&lines[key - 1]);
            let m = previous.len();
            if m > 0 && begins_item(&current) && (previous[m - 1] == '}' || previous[m - 1]
                == ';') {
                gap = true;
            }
        }
        if gap {
            result.push('\n');
        }
        result.push('\n');
        append_chars(&mut result, &lines[key]);
        assert(result@ =~= laid_out(part));
        key += 1;
    }
    assert(all.take(key as int) =~= all);
    string_of(&result)
}

/// Formats the text of a rendered file: takes out its comment lines and
/// puts blank lines in front of items.
pub fn format_rendered(rendered: &str) -> (output: String)
    ensures
        output@ == formatted(rendered@),
{
    let binding = doc_comments_remove(rendered);
    lay_out(binding.as_str())
}

} // verus!
