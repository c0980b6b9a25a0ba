use vstd::prelude::*;
use crate::launch::args_view;

verus! {

/// The words of `s`: its maximal runs of characters other than Unicode
/// white space, in order.
pub uninterp spec fn words_of(s: Seq<char>) -> Seq<Seq<char>>;

/// Relies on `str::split_whitespace`: the sub-slices of `s` between runs of
/// Unicode white space, in order, each copied into a `String`.
#[verifier::external_body]
fn split_words(s: &str) -> (r: Vec<String>)
    ensures
        args_view(r@) == words_of(s@),
{
    s.split_whitespace().map(String::from).collect()
}

/// The words of `ws` joined with one space between each two.
pub open spec fn join_words(ws: Seq<Seq<char>>) -> Seq<char>
    decreases ws.len(),
{
    if ws.len() == 0 {
        Seq::empty()
    } else if ws.len() == 1 {
        ws[0]
    } else {
        join_words(ws.drop_last()) + " "@ + ws.last()
    }
}

/// A command line read from words: the first word is the program, the others,
/// joined by single spaces, its argument string, if there are any. No program
/// where there are no words.
pub open spec fn command_of(ws: Seq<Seq<char>>) -> Option<(Seq<char>, Option<Seq<char>>)> {
    if ws.len() == 0 {
        None
    } else if ws.len() == 1 {
        Some((ws[0], None))
    } else {
        Some((ws[0], Some(join_words(ws.drop_first()))))
    }
}

/// What becomes of a command that was suggested for a request in words.
pub enum Suggestion {
    /// Start `cmd` with the argument string `args`, if any.
    Run { cmd: String, args: Option<String> },
    /// The suggested text holds no word.
    Empty,
    /// The suggester marked the text as not runnable: it is a message.
    NotRunnable,
}

/// The view of a suggestion to run a command.
pub open spec fn run_view(s: Suggestion) -> Option<(Seq<char>, Option<Seq<char>>)> {
    match s {
        Suggestion::Run { cmd, args } => Some(
            (
                cmd@,
                match args {
                    Some(a) => Some(a@),
                    None => None,
                },
            ),
        ),
        _ => None,
    }
}

/// Reads a program and its argument string from a list of words.
pub fn command_from_words(words: &Vec<String>) -> (r: Suggestion)
    ensures
        match command_of(args_view(words@)) {
            Some(c) => run_view(r) == Some(c),
            None => r is Empty,
        },
{
    let ghost ws = args_view(words@);
    let n = words.len();
    if n == 0 {
        return Suggestion::Empty;
    }
    let cmd = words[0].clone();
    if n == 1 {
        return Suggestion::Run { cmd, args: None };
    }
    let mut joined = words[1].clone();
    let mut i: usize = 2;
    while i < n
        invariant
            2 <= i <= n,
            n == words@.len(),
            ws == args_view(words@),
            joined@ == join_words(ws.subrange(1, i as int)),
        decreases n - i,
    {
        let ghost before = ws.subrange(1, i as int);
        let ghost after = ws.subrange(1, i + 1);
        assert(after.drop_last() =~= before);
        assert(after.last() == words@[i as int]@);
        joined.append(" ");
        joined.append(words[i].as_str());
        i = i + 1;
    }
    proof {
        assert(ws.subrange(1, 2) =~= seq![ws[1]]);
        assert(ws.subrange(1, n as int) =~= ws.drop_first());
    }
    Suggestion::Run { cmd, args: Some(joined) }
}

/// Decides what to do with the command text `cmd` that a suggester returned,
/// marked `runnable` or not.
pub fn suggestion_for(cmd: &str, runnable: bool) -> (r: Suggestion)
    ensures
        !runnable ==> r is NotRunnable,
        runnable ==> match command_of(words_of(cmd@)) {
            Some(c) => run_view(r) == Some(c),
            None => r is Empty,
        },
{
    if !runnable {
        return Suggestion::NotRunnable;
    }
    let words = split_words(cmd);
    command_from_words(&words)
}

} // verus!
