//! Texts as sequences of characters, and cutting a text into lines.
//!
//! A line ends at a line feed; a carriage return directly before the line
//! feed belongs to the line ending. The last line need not be ended, and an
//! ended last line is not followed by an empty one.

use vstd::prelude::*;

verus! {

/// The texts of a sequence of strings.
pub open spec fn texts(strings: Seq<String>) -> Seq<Seq<char>> {
    strings.map_values(|s: String| s@)
}

/// `String::push`, taken on trust: the character is added at the end, and
/// nothing else changes.
pub assume_specification[ String::push ](s: &mut String, ch: char)
    ensures
        final(s)@ == old(s)@.push(ch),
;

/// The number of characters before the first line feed; the length of the
/// text where it holds none.
pub open spec fn first_newline(text: Seq<char>) -> int
    decreases text.len(),
{
    if text.len() == 0 || text[0] == '\n' {
        0
    } else {
        1 + first_newline(text.drop_first())
    }
}

/// The line without the carriage return that it may end in.
pub open spec fn without_carriage_return(line: Seq<char>) -> Seq<char> {
    if line.len() > 0 && line.last() == '\r' {
        line.drop_last()
    } else {
        line
    }
}

/// The lines of a text, without their line endings.
pub open spec fn lines_of(text: Seq<char>) -> Seq<Seq<char>>
    decreases text.len(),
{
    let n = first_newline(text);
    if text.len() == 0 {
        Seq::empty()
    } else if 0 <= n < text.len() {
        seq![without_carriage_return(text.take(n))] + lines_of(text.skip(n + 1))
    } else {
        seq![text]
    }
}

/// The characters of `text`, in order.
pub fn chars_of(text: &str) -> (chars: Vec<char>)
    ensures
        chars@ == text@,
{
    broadcast use vstd::string::group_string_axioms;

    let mut chars: Vec<char> = Vec::new();
    for c in it: text.chars()
        invariant
            it.seq() == text@,
            chars@ == text@.take(it.index() as int),
    {
        chars.push(c);
    }
    chars
}

/// The string that holds the given characters.
pub fn string_of(chars: &Vec<char>) -> (s: String)
    ensures
        s@ == chars@,
{
    let mut s = String::new();
    let mut i: usize = 0;
    while i < chars.len()
        invariant
            i <= chars.len(),
            s@ == chars@.take(i as int),
        decreases chars.len() - i,
    {
        s.push(chars[i]);
        i += 1;
    }
    s
}

/// Cuts a text into its lines.
pub fn split_lines(text: &str) -> (lines: Vec<String>)
    ensures
        texts(lines@) == lines_of(text@),
        lines.len() <= text@.len(),
        forall|j: int| 0 <= j < lines.len() ==> (#[trigger] lines[j])@.len() <= text@.len(),
{
    broadcast use vstd::string::group_string_axioms;

    let mut lines: Vec<String> = Vec::new();
    let mut current: Vec<char> = Vec::new();
    let ghost mut start: int = 0;
    assert(text@.skip(0) == text@);
    for c in it: text.chars()
        invariant
            it.seq() == text@,
            0 <= start <= it.index() <= text@.len(),
            current@ == text@.subrange(start, it.index() as int),
            forall|k: int| 0 <= k < current.len() ==> current[k] != '\n',
            lines_of(text@) == texts(lines@) + lines_of(text@.skip(start)),
            lines.len() <= start,
            forall|j: int| 0 <= j < lines.len() ==> (#[trigger] lines[j])@.len() <= it.index(),
    {
        let ghost k = it.index() as int;
        if c == '\n' {
            let ghost raw = current@;
            let n = current.len();
            if n > 0 && current[n - 1] == '\r' {
                current.pop();
            }
            let line = string_of(&current);
            proof {
                let rest = text@.skip(start);
                assert(rest.take(k - start) == raw);
                lemma_first_newline(rest, k - start);
                assert(rest.skip(k - start + 1) == text@.skip(k + 1));
                start = k + 1;
            }
            lines.push(line);
            current = Vec::new();
        } else {
            current.push(c);
        }
    }
    if current.len() > 0 {
        let line = string_of(&current);
        proof {
            let rest = text@.skip(start);
            lemma_first_newline(rest, rest.len() as int);
        }
        lines.push(line);
    }
    lines
}

/// Where no line feed stands before `n`, and one stands at `n` or the text
/// ends there, `n` is where the first line ends.
pub proof fn lemma_first_newline(text: Seq<char>, n: int)
    requires
        0 <= n <= text.len(),
        forall|k: int| 0 <= k < n ==> text[k] != '\n',
        n == text.len() || text[n] == '\n',
    ensures
        first_newline(text) == n,
    decreases n,
{
    if n > 0 {
        let rest = text.drop_first();
        lemma_first_newline(rest, n - 1);
    }
}

} // verus!
