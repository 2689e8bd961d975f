//! The completion command: a line of text cut at white space into a program
//! and its arguments. There is no quoting and no escaping.

use vstd::prelude::*;
use vstd::string::*;

verus! {

/// Whether a character is white space, as `char::is_whitespace` tells it.
pub uninterp spec fn is_space(c: char) -> bool;

/// `char::is_whitespace` of the standard library: whether Unicode counts the
/// character as white space.
pub assume_specification[ char::is_whitespace ](c: char) -> (space: bool)
    ensures
        space == is_space(c),
;

/// A program to start, with its arguments.
#[derive(Debug, PartialEq, Eq)]
pub struct CommandLine {
    pub program: String,
    pub args: Vec<String>,
}

/// The words of a text: its longest runs of characters that are not white
/// space, in order.
pub open spec fn words(s: Seq<char>) -> Seq<Seq<char>>
    decreases s.len(),
{
    if s.len() == 0 {
        Seq::empty()
    } else {
        let front = words(s.drop_last());
        if is_space(s.last()) {
            front
        } else if s.len() >= 2 && !is_space(s[s.len() - 2]) {
            front.drop_last().push(front.last().push(s.last()))
        } else {
            front.push(seq![s.last()])
        }
    }
}

/// The texts of a row of strings.
pub open spec fn texts(v: Seq<String>) -> Seq<Seq<char>> {
    v.map_values(|w: String| w@)
}

/// White space at the end of a text adds no word.
pub proof fn lemma_words_space(s: Seq<char>, c: char)
    requires
        is_space(c),
    ensures
        words(s.push(c)) == words(s),
{
    assert(s.push(c).drop_last() =~= s);
}

/// A run of characters that are not white space, behind white space or at
/// the start of a text, is one more word.
pub proof fn lemma_words_run(s: Seq<char>, run: Seq<char>)
    requires
        s.len() == 0 || is_space(s.last()),
        run.len() > 0,
        forall|i: int| 0 <= i < run.len() ==> !is_space(#[trigger] run[i]),
    ensures
        words(s + run) == words(s).push(run),
    decreases run.len(),
{
    let whole = s + run;
    let c = run.last();
    assert(whole.drop_last() =~= s + run.drop_last());
    if run.len() == 1 {
        assert(run =~= seq![c]);
    } else {
        lemma_words_run(s, run.drop_last());
        assert(run.drop_last().push(c) =~= run);
    }
}

/// Cuts a text into its words.
pub fn split_words(s: &str) -> (out: Vec<String>)
    ensures
        texts(out@) == words(s@),
{
    let n = s.unicode_len();
    let mut out: Vec<String> = Vec::new();
    let mut start: usize = 0;
    let mut inside = false;
    let mut i: usize = 0;
    while i < n
        invariant
            i <= n == s@.len(),
            inside ==> start < i && texts(out@) == words(s@.subrange(0, start as int)) && (start
                == 0 || is_space(s@[start - 1])) && forall|k: int|
                start <= k < i ==> !is_space(#[trigger] s@[k]),
            !inside ==> texts(out@) == words(s@.subrange(0, i as int)) && (i == 0 || is_space(
                s@[i - 1],
            )),
        decreases n - i,
    {
        let c = s.get_char(i);
        if c.is_whitespace() {
            if inside {
                let word = s.substring_char(start, i).to_owned();
                proof {
                    let front = s@.subrange(0, start as int);
                    let run = s@.subrange(start as int, i as int);
                    lemma_words_run(front, run);
                    assert(front + run =~= s@.subrange(0, i as int));
                }
                out.push(word);
                inside = false;
            }
            proof {
                lemma_words_space(s@.subrange(0, i as int), c);
                assert(s@.subrange(0, i as int).push(c) =~= s@.subrange(0, i + 1));
            }
        } else if !inside {
            start = i;
            inside = true;
        }
        i += 1;
    }
    if inside {
        let word = s.substring_char(start, n).to_owned();
        proof {
            let front = s@.subrange(0, start as int);
            let run = s@.subrange(start as int, n as int);
            lemma_words_run(front, run);
            assert(front + run =~= s@);
        }
        out.push(word);
    } else {
        assert(s@.subrange(0, n as int) =~= s@);
    }
    out
}

/// Reads a command: the first word is the program, the others are its
/// arguments. A text without a word is no command.
pub fn command_line(command: &str) -> (line: Option<CommandLine>)
    ensures
        match line {
            Some(l) => words(command@).len() > 0 && l.program@ == words(command@)[0] && texts(
                l.args@,
            ) == words(command@).skip(1),
            None => words(command@).len() == 0,
        },
{
    let mut parts = split_words(command);
    if parts.len() == 0 {
        return None;
    }
    let program = parts.remove(0);
    Some(CommandLine { program, args: parts })
}

} // verus!
