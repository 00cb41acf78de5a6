//! Debug tools - soft asserts and logging.
//!
//! - When used on the server, debug text is sent to clients
//!   to make it easy to debug server-side issues.
//! - Prefer `soft_assert` over `assert` in gamecode:
//!   games shouldn't crash, a logged error is better than no game state.
//! - Use `logf` / `logd` for things that happen once, `textf` / `textd`
//!   for things printed onto the screen every frame.
//!
//! [`DebugLog`] holds what these produce until the process prints
//! the log lines to stdout and draws the texts.

use vstd::prelude::*;
use vstd::string::*;

use crate::text::{decimal, decimal_string};

verus! {

/// An RGBA color as sent over the network with debug shapes.
#[derive(Debug, Clone, Copy, PartialEq, Eq, Structural)]
pub struct ColorDef {
    pub r: u8,
    pub g: u8,
    pub b: u8,
    pub a: u8,
}

/// Debug output of one process (client or server) that is waiting to be shown.
pub struct DebugLog {
    /// Which process this is, e.g. "cl" or "sv"; every line starts with it.
    pub endpoint: String,
    /// Lines to print to stdout, oldest first.
    pub lines: Vec<String>,
    /// Text to draw onto the screen this frame, oldest first.
    pub texts: Vec<String>,
}

/// A line prefixed by the name of the process that produced it.
pub open spec fn tagged(endpoint: Seq<char>, text: Seq<char>) -> Seq<char> {
    endpoint + " "@ + text
}

/// `[file:line] ` followed by `name: value` pairs separated by commas.
pub open spec fn pairs_message(file: Seq<char>, line: nat, pairs: Seq<(Seq<char>, Seq<char>)>) -> Seq<
    char,
> {
    "["@ + file + ":"@ + decimal(line) + "] "@ + joined_pairs(pairs)
}

/// `name: value` pairs separated by `, `.
pub open spec fn joined_pairs(pairs: Seq<(Seq<char>, Seq<char>)>) -> Seq<char>
    decreases pairs.len(),
{
    if pairs.len() == 0 {
        Seq::empty()
    } else if pairs.len() == 1 {
        pairs[0].0 + ": "@ + pairs[0].1
    } else {
        joined_pairs(pairs.drop_last()) + ", "@ + pairs.last().0 + ": "@ + pairs.last().1
    }
}

/// The message of a failed soft assertion.
pub open spec fn soft_assert_message(msg: Seq<char>, file: Seq<char>, line: nat, column: nat) -> Seq<
    char,
> {
    "soft assertion failed: "@ + msg + ", "@ + file + ":"@ + decimal(line) + ":"@ + decimal(column)
}

/// The views of a list of strings.
pub open spec fn texts_of(v: Seq<String>) -> Seq<Seq<char>> {
    v.map_values(|s: String| s@)
}

/// The views of a list of name-value pairs.
pub open spec fn pairs_of(v: Seq<(String, String)>) -> Seq<(Seq<char>, Seq<char>)> {
    v.map_values(|p: (String, String)| (p.0@, p.1@))
}

fn join_pairs(pairs: &Vec<(String, String)>) -> (s: String)
    ensures
        s@ == joined_pairs(pairs_of(pairs@)),
{
    let mut s = String::new();
    let n = pairs.len();
    let mut i: usize = 0;
    while i < n
        invariant
            i <= n,
            n == pairs@.len(),
            s@ == joined_pairs(pairs_of(pairs@).take(i as int)),
        decreases n - i,
    {
        let ghost before = s@;
        if i > 0 {
            s = s.concat(", ");
        }
        s = s.concat(pairs[i].0.as_str()).concat(": ").concat(pairs[i].1.as_str());
        proof {
            let p = pairs_of(pairs@);
            assert(p.take(i + 1).drop_last() =~= p.take(i as int));
            assert(p.take(i + 1).last() == p[i as int]);
            if i == 0 {
                assert(s@ =~= joined_pairs(p.take(1)));
            } else {
                assert(s@ =~= joined_pairs(p.take(i + 1)));
            }
        }
        i = i + 1;
    }
    proof {
        assert(pairs_of(pairs@).take(n as int) =~= pairs_of(pairs@));
    }
    s
}

impl DebugLog {
    /// Debug output for the process called `endpoint` (e.g. "cl" or "sv"), with nothing in it yet.
    pub fn new(endpoint: &str) -> (d: Self)
        ensures
            d.endpoint@ == endpoint@,
            d.lines@.len() == 0,
            d.texts@.len() == 0,
    {
        DebugLog { endpoint: endpoint.to_owned(), lines: Vec::new(), texts: Vec::new() }
    }

    /// Log a line of text (to stdout).
    pub fn logf(&mut self, text: &str)
        ensures
            final(self).endpoint@ == old(self).endpoint@,
            texts_of(final(self).lines@) == texts_of(old(self).lines@).push(
                tagged(old(self).endpoint@, text@),
            ),
            final(self).texts@ == old(self).texts@,
    {
        let line = self.endpoint.clone().concat(" ").concat(text);
        self.lines.push(line);
        proof {
            assert(texts_of(self.lines@) =~= texts_of(old(self).lines@).push(
                tagged(old(self).endpoint@, text@),
            ));
        }
    }

    /// Log values of expressions formatted as `[file:line] name1: value1, name2: value2`.
    pub fn logd(&mut self, file: &str, line: u32, pairs: &Vec<(String, String)>)
        ensures
            final(self).endpoint@ == old(self).endpoint@,
            texts_of(final(self).lines@) == texts_of(old(self).lines@).push(
                tagged(old(self).endpoint@, pairs_message(file@, line as nat, pairs_of(pairs@))),
            ),
            final(self).texts@ == old(self).texts@,
    {
        let msg = "[".to_owned().concat(file).concat(":").concat(decimal_string(line).as_str()).concat(
            "] ",
        ).concat(join_pairs(pairs).as_str());
        self.logf(msg.as_str());
    }

    /// Put text onto the screen this frame.
    pub fn textf(&mut self, text: &str)
        ensures
            final(self).endpoint@ == old(self).endpoint@,
            texts_of(final(self).texts@) == texts_of(old(self).texts@).push(
                tagged(old(self).endpoint@, text@),
            ),
            final(self).lines@ == old(self).lines@,
    {
        let line = self.endpoint.clone().concat(" ").concat(text);
        self.texts.push(line);
        proof {
            assert(texts_of(self.texts@) =~= texts_of(old(self).texts@).push(
                tagged(old(self).endpoint@, text@),
            ));
        }
    }

    /// Put values of expressions onto the screen formatted as `[file:line] name1: value1, ...`.
    pub fn textd(&mut self, file: &str, line: u32, pairs: &Vec<(String, String)>)
        ensures
            final(self).endpoint@ == old(self).endpoint@,
            texts_of(final(self).texts@) == texts_of(old(self).texts@).push(
                tagged(old(self).endpoint@, pairs_message(file@, line as nat, pairs_of(pairs@))),
            ),
            final(self).lines@ == old(self).lines@,
    {
        let msg = "[".to_owned().concat(file).concat(":").concat(decimal_string(line).as_str()).concat(
            "] ",
        ).concat(join_pairs(pairs).as_str());
        self.textf(msg.as_str());
    }

    /// Same as `assert` but only logs a message without crashing.
    pub fn soft_assert(&mut self, cond: bool, msg: &str, file: &str, line: u32, column: u32)
        ensures
            final(self).endpoint@ == old(self).endpoint@,
            final(self).texts@ == old(self).texts@,
            cond ==> final(self).lines@ == old(self).lines@,
            !cond ==> texts_of(final(self).lines@) == texts_of(old(self).lines@).push(
                tagged(
                    old(self).endpoint@,
                    soft_assert_message(msg@, file@, line as nat, column as nat),
                ),
            ),
    {
        if !cond {
            let text = "soft assertion failed: ".to_owned().concat(msg).concat(", ").concat(
                file,
            ).concat(":").concat(decimal_string(line).as_str()).concat(":").concat(
                decimal_string(column).as_str(),
            );
            self.logf(text.as_str());
        }
    }

    /// Takes this frame's screen text, leaving none (so it isn't sent again next frame).
    pub fn take_texts(&mut self) -> (texts: Vec<String>)
        ensures
            texts@ == old(self).texts@,
            final(self).texts@.len() == 0,
            final(self).lines@ == old(self).lines@,
            final(self).endpoint@ == old(self).endpoint@,
    {
        let mut taken = Vec::new();
        std::mem::swap(&mut taken, &mut self.texts);
        taken
    }

    /// Adds screen text received from the other side, after what's already there.
    pub fn extend_texts(&mut self, texts: Vec<String>)
        ensures
            final(self).texts@ == old(self).texts@ + texts@,
            final(self).lines@ == old(self).lines@,
            final(self).endpoint@ == old(self).endpoint@,
    {
        let mut texts = texts;
        self.texts.append(&mut texts);
    }

    /// Takes the lines waiting to be printed, leaving none.
    pub fn take_lines(&mut self) -> (lines: Vec<String>)
        ensures
            lines@ == old(self).lines@,
            final(self).lines@.len() == 0,
            final(self).texts@ == old(self).texts@,
            final(self).endpoint@ == old(self).endpoint@,
    {
        let mut taken = Vec::new();
        std::mem::swap(&mut taken, &mut self.lines);
        taken
    }
}

} // verus!
