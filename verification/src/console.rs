//! Engine-independent parts of the in-game console.
//!
//! Parsing and executing commands, history, eventually tab completion, ...

use vstd::prelude::*;
use vstd::string::*;

use crate::text::{chars_of, next_word, span_is, words};

verus! {

/// What a lookup answers, as text.
pub open spec fn answer_of(r: Result<String, String>) -> Result<Seq<char>, Seq<char>> {
    match r {
        Ok(v) => Ok(v@),
        Err(e) => Err(e@),
    }
}

/// What a set answers, as text.
pub open spec fn set_answer_of(r: Result<(), String>) -> Result<(), Seq<char>> {
    match r {
        Ok(_) => Ok(()),
        Err(e) => Err(e@),
    }
}

/// A mostly internal trait for writing generic code
/// that can access cvars but doesn't know the concrete Cvars struct.
///
/// The cvars are described by three spec functions: what looking a cvar up answers,
/// what setting one answers, and what the cvars are after a set. Code that is generic
/// over the trait never sees their bodies, so what is proved of it holds of every
/// implementation whose answers and effects these functions can describe.
/// An implementation written outside verified code cannot give them bodies and keeps
/// the placeholders below; its `get_string` and `set_str` are trusted, not checked.
pub trait CvarAccess: Sized {
    /// What looking up the cvar named `cvar_name` answers:
    /// its value as text, or an error such as "no such cvar".
    closed spec fn lookup(&self, cvar_name: Seq<char>) -> Result<Seq<char>, Seq<char>> {
        arbitrary()
    }

    /// What setting the cvar named `cvar_name` from the text `value` answers.
    closed spec fn set_answer(&self, cvar_name: Seq<char>, value: Seq<char>) -> Result<
        (),
        Seq<char>,
    > {
        arbitrary()
    }

    /// The cvars after setting the cvar named `cvar_name` from the text `value`.
    closed spec fn after_set(&self, cvar_name: Seq<char>, value: Seq<char>) -> Self {
        arbitrary()
    }

    fn get_string(&self, cvar_name: &str) -> (r: Result<String, String>)
        ensures
            answer_of(r) == self.lookup(cvar_name@),
    ;

    fn set_str(&mut self, cvar_name: &str, str_value: &str) -> (r: Result<(), String>)
        ensures
            set_answer_of(r) == old(self).set_answer(cvar_name@, str_value@),
            *final(self) == old(self).after_set(cvar_name@, str_value@),
    ;
}

/// One line of the console's history.
#[derive(Debug, Clone)]
pub struct HistoryLine {
    pub text: String,
    /// Whether the line is input from the user or output from running a command.
    pub is_input: bool,
}

impl View for HistoryLine {
    type V = (Seq<char>, bool);

    open spec fn view(&self) -> (Seq<char>, bool) {
        (self.text@, self.is_input)
    }
}

impl HistoryLine {
    pub fn new(text: String, is_input: bool) -> (line: Self)
        ensures
            line.text == text,
            line.is_input == is_input,
    {
        Self { text, is_input }
    }
}

/// The abstract state of a [`Console`].
pub struct ConsoleModel {
    /// What the user is typing.
    pub prompt: Seq<char>,
    /// What the user had typed before going back in history.
    pub saved: Seq<char>,
    /// Where we are in history when using up and down keys
    /// (the history's length means "at the present").
    pub index: int,
    /// Every line so far, with whether the user typed it.
    pub history: Seq<(Seq<char>, bool)>,
    /// Index just past the last line shown at the bottom of the history view.
    pub view_index: int,
}

/// The last input line strictly before `end`, if any.
pub open spec fn last_input_before(h: Seq<(Seq<char>, bool)>, end: int) -> Option<int>
    decreases end,
{
    if end <= 0 {
        None
    } else if h[end - 1].1 {
        Some(end - 1)
    } else {
        last_input_before(h, end - 1)
    }
}

/// The first input line at or after `start`, if any.
pub open spec fn first_input_from(h: Seq<(Seq<char>, bool)>, start: int) -> Option<int>
    decreases h.len() - start,
{
    if start < 0 || start >= h.len() {
        None
    } else if h[start].1 {
        Some(start)
    } else {
        first_input_from(h, start + 1)
    }
}

/// What the console prints for `help`.
pub open spec fn help_lines() -> Seq<(Seq<char>, bool)> {
    seq![
        ("Available actions:"@, false),
        ("    help                 Print this message"@, false),
        ("    <cvar name>          Print the cvar's value"@, false),
        ("    <cvar name> <value>  Set the cvar's value"@, false),
    ]
}

/// The error for a line with more than a cvar name and a value; `rest` is the third word.
pub open spec fn too_many_words_message(rest: Seq<char>) -> Seq<char> {
    "expected only cvar name and value, found "@ + rest
}

/// What a line typed into the console asks for.
pub enum CommandModel {
    Empty,
    Help,
    PrintCvar(Seq<char>),
    SetCvar(Seq<char>, Seq<char>),
    TooMany(Seq<char>),
}

/// Executable form of [`CommandModel`].
pub enum ConsoleCommand {
    /// Nothing but whitespace.
    Empty,
    /// `help` or `?`, with anything after it.
    Help,
    /// A cvar name alone: print its value.
    PrintCvar(String),
    /// A cvar name and a value: set the cvar.
    SetCvar(String, String),
    /// More than two words; holds the third.
    TooMany(String),
}

impl View for ConsoleCommand {
    type V = CommandModel;

    open spec fn view(&self) -> CommandModel {
        match self {
            ConsoleCommand::Empty => CommandModel::Empty,
            ConsoleCommand::Help => CommandModel::Help,
            ConsoleCommand::PrintCvar(n) => CommandModel::PrintCvar(n@),
            ConsoleCommand::SetCvar(n, v) => CommandModel::SetCvar(n@, v@),
            ConsoleCommand::TooMany(r) => CommandModel::TooMany(r@),
        }
    }
}

/// The command that a line asks for, read from its whitespace-separated words.
pub open spec fn command_of(line: Seq<char>) -> CommandModel {
    let w = words(line);
    if w.len() == 0 {
        CommandModel::Empty
    } else if w[0] == "help"@ || w[0] == "?"@ {
        CommandModel::Help
    } else if w.len() == 1 {
        CommandModel::PrintCvar(w[0])
    } else if w.len() == 2 {
        CommandModel::SetCvar(w[0], w[1])
    } else {
        CommandModel::TooMany(w[2])
    }
}

/// The lines that running `cmd` may add after the input line,
/// whatever the cvars answered.
pub open spec fn output_allowed(cmd: CommandModel, out: Seq<(Seq<char>, bool)>) -> bool {
    match cmd {
        CommandModel::Empty => out.len() == 0,
        CommandModel::Help => out == help_lines(),
        // The value, or the error if there's no such cvar.
        CommandModel::PrintCvar(_) => out.len() == 1 && !out[0].1,
        // Nothing, or the error.
        CommandModel::SetCvar(_, _) => out.len() == 0 || (out.len() == 1 && !out[0].1),
        CommandModel::TooMany(rest) => out == seq![(too_many_words_message(rest), false)],
    }
}

/// The lines that running `cmd` prints after the input line, given the cvars it runs on:
/// a cvar's value, or the error of its lookup or its set.
pub open spec fn command_output<C: CvarAccess>(cmd: CommandModel, cvars: C) -> Seq<(Seq<char>, bool)> {
    match cmd {
        CommandModel::Empty => Seq::empty(),
        CommandModel::Help => help_lines(),
        CommandModel::PrintCvar(name) => match cvars.lookup(name) {
            Ok(v) => seq![(v, false)],
            Err(e) => seq![(e, false)],
        },
        CommandModel::SetCvar(name, value) => match cvars.set_answer(name, value) {
            Ok(_) => Seq::empty(),
            Err(e) => seq![(e, false)],
        },
        CommandModel::TooMany(rest) => seq![(too_many_words_message(rest), false)],
    }
}

/// The cvars after running `cmd`: only setting a cvar changes them.
pub open spec fn cvars_after_command<C: CvarAccess>(cmd: CommandModel, cvars: C) -> C {
    match cmd {
        CommandModel::SetCvar(name, value) => cvars.after_set(name, value),
        _ => cvars,
    }
}

impl ConsoleModel {
    pub open spec fn wf(self) -> bool {
        &&& 0 <= self.index <= self.history.len()
        &&& 0 <= self.view_index
    }

    /// Going back in command history.
    pub open spec fn back(self) -> ConsoleModel {
        let saved = if self.index == self.history.len() {
            self.prompt
        } else {
            self.saved
        };
        match last_input_before(self.history, self.index) {
            Some(j) => ConsoleModel {
                prompt: self.history[j].0,
                saved,
                index: j,
                history: self.history,
                view_index: self.view_index,
            },
            None => ConsoleModel {
                prompt: self.prompt,
                saved,
                index: self.index,
                history: self.history,
                view_index: self.view_index,
            },
        }
    }

    /// Going forward in command history.
    pub open spec fn forward(self) -> ConsoleModel {
        if self.index >= self.history.len() {
            self
        } else {
            match first_input_from(self.history, self.index + 1) {
                Some(j) => ConsoleModel {
                    prompt: self.history[j].0,
                    saved: self.saved,
                    index: j,
                    history: self.history,
                    view_index: self.view_index,
                },
                None => ConsoleModel {
                    prompt: self.saved,
                    saved: self.saved,
                    index: self.history.len() as int,
                    history: self.history,
                    view_index: self.view_index,
                },
            }
        }
    }

    /// Scrolling the history view up by `count` lines.
    pub open spec fn scroll_up(self, count: int) -> ConsoleModel {
        let v = if self.view_index >= count {
            self.view_index - count
        } else {
            0
        };
        ConsoleModel {
            view_index: if v == 0 && self.history.len() > 0 {
                1
            } else {
                v
            },
            ..self
        }
    }

    /// Scrolling the history view down by `count` lines.
    pub open spec fn scroll_down(self, count: int) -> ConsoleModel {
        ConsoleModel {
            view_index: if self.view_index + count <= self.history.len() {
                self.view_index + count
            } else {
                self.history.len() as int
            },
            ..self
        }
    }

    /// The state after the user pressed enter and running the line printed `out`.
    pub open spec fn entered(self, out: Seq<(Seq<char>, bool)>) -> ConsoleModel {
        let h = self.history.push((self.prompt, true)) + out;
        ConsoleModel {
            prompt: Seq::empty(),
            saved: self.saved,
            index: h.len() as int,
            history: h,
            view_index: if self.view_index == self.history.len() {
                h.len() as int
            } else {
                self.view_index
            },
        }
    }
}

/// Engine-independant parts of the in-game console.
///
/// Parsing and executing commands, history, eventually tab completion, ...
#[derive(Debug, Clone)]
pub struct Console {
    pub prompt: String,
    prompt_saved: String,
    /// Where we are in history when using up and down keys.
    prompt_history_index: usize,
    pub history: Vec<HistoryLine>,
    /// Where we are in the history view when scrolling using page up and down keys.
    ///
    /// It's the index of the *last* line that is to be displayed at the *bottom*.
    pub history_view_index: usize,
}

/// The lines of a history, as their views.
pub open spec fn lines_of(h: Seq<HistoryLine>) -> Seq<(Seq<char>, bool)> {
    h.map_values(|l: HistoryLine| l@)
}

impl View for Console {
    type V = ConsoleModel;

    closed spec fn view(&self) -> ConsoleModel {
        ConsoleModel {
            prompt: self.prompt@,
            saved: self.prompt_saved@,
            index: self.prompt_history_index as int,
            history: lines_of(self.history@),
            view_index: self.history_view_index as int,
        }
    }
}

/// The positions and the history's length of any console fit in a `usize`.
pub proof fn lemma_console_fits(con: &Console)
    ensures
        con@.history.len() <= usize::MAX,
        0 <= con@.index <= usize::MAX,
        0 <= con@.view_index <= usize::MAX,
{
    assert(lines_of(con.history@).len() == con.history@.len());
    assert(con.history.len() == con.history@.len());
}

/// The console with nothing typed and no history.
pub open spec fn empty_console() -> ConsoleModel {
    ConsoleModel {
        prompt: Seq::empty(),
        saved: Seq::empty(),
        index: 0,
        history: Seq::empty(),
        view_index: 0,
    }
}

impl Default for Console {
    fn default() -> (con: Self)
        ensures
            con@ == empty_console(),
    {
        Console::new()
    }
}

impl Console {
    pub fn new() -> (con: Self)
        ensures
            con@ == empty_console(),
    {
        let con = Console {
            prompt: String::new(),
            prompt_saved: String::new(),
            prompt_history_index: 0,
            history: Vec::new(),
            history_view_index: 0,
        };
        proof {
            assert(lines_of(con.history@) =~= Seq::empty());
        }
        con
    }

    /// Replaces what the user is typing.
    pub fn set_prompt(&mut self, prompt: String)
        ensures
            final(self)@ == (ConsoleModel { prompt: prompt@, ..old(self)@ }),
    {
        self.prompt = prompt;
    }

    /// Go back in command history.
    pub fn history_back(&mut self)
        requires
            old(self)@.wf(),
        ensures
            final(self)@ == old(self)@.back(),
    {
        // Save the prompt so that users can go back in history,
        // then come back to present and get what they typed back.
        if self.prompt_history_index == self.history.len() {
            self.prompt_saved = self.prompt.clone();
        }

        let ghost h = lines_of(self.history@);
        let mut j = self.prompt_history_index;
        while j > 0 && !self.history[j - 1].is_input
            invariant
                j <= self.prompt_history_index,
                self.prompt_history_index <= self.history@.len(),
                h == lines_of(self.history@),
                last_input_before(h, self.prompt_history_index as int) == last_input_before(
                    h,
                    j as int,
                ),
            decreases j,
        {
            j = j - 1;
        }
        if j > 0 {
            self.prompt_history_index = j - 1;
            self.prompt = self.history[self.prompt_history_index].text.clone();
        }
    }

    /// Go forward in command history.
    pub fn history_forward(&mut self)
        ensures
            final(self)@ == old(self)@.forward(),
    {
        // Since we're starting the search at history_index+1, the condition must remain here
        // otherwise the range could start at history.len()+1 and panic.
        if self.prompt_history_index >= self.history.len() {
            return;
        }

        let ghost h = lines_of(self.history@);
        let len = self.history.len();
        let mut j = self.prompt_history_index + 1;
        while j < len && !self.history[j].is_input
            invariant
                self.prompt_history_index < j <= len,
                len == self.history@.len(),
                h == lines_of(self.history@),
                first_input_from(h, self.prompt_history_index + 1) == first_input_from(
                    h,
                    j as int,
                ),
            decreases len - j,
        {
            j = j + 1;
        }
        if j < len {
            self.prompt_history_index = j;
            self.prompt = self.history[j].text.clone();
        } else {
            // We're at the end of history, restore the saved prompt.
            self.prompt_history_index = len;
            self.prompt = self.prompt_saved.clone();
        }
    }

    pub fn history_scroll_up(&mut self, count: usize)
        ensures
            final(self)@ == old(self)@.scroll_up(count as int),
    {
        self.history_view_index = self.history_view_index.saturating_sub(count);
        if self.history_view_index == 0 && self.history.len() != 0 {
            // Keep at least one line in history when possible
            // because scrolling up to an empty view looks weird.
            self.history_view_index = 1;
        }
    }

    pub fn history_scroll_down(&mut self, count: usize)
        requires
            old(self)@.view_index + count <= usize::MAX,
        ensures
            final(self)@ == old(self)@.scroll_down(count as int),
    {
        let v = self.history_view_index + count;
        self.history_view_index = if v < self.history.len() {
            v
        } else {
            self.history.len()
        };
    }

    /// The user pressed enter - process the line of text
    pub fn enter<C: CvarAccess>(&mut self, cvars: &mut C)
        ensures
            final(self)@.history.len() > old(self)@.history.len(),
            final(self)@ == old(self)@.entered(final(self)@.history.skip(old(self)@.history.len() + 1 as int)),
            output_allowed(
                command_of(old(self)@.prompt),
                final(self)@.history.skip(old(self)@.history.len() + 1 as int),
            ),
            final(self)@ == old(self)@.entered(
                command_output(command_of(old(self)@.prompt), *old(cvars)),
            ),
            *final(cvars) == cvars_after_command(command_of(old(self)@.prompt), *old(cvars)),
    {
        let hist_len_old = self.history.len();
        let ghost old_model = self@;

        self.push_history_line(self.prompt.clone(), true);
        let ghost after_input = self@;

        // The actual command parsing logic
        let res = self.process_line(cvars);
        let ghost after_run = self@;
        let ghost err_line: Seq<(Seq<char>, bool)> = match res {
            Err(ref e) => seq![(e@, false)],
            Ok(_) => Seq::empty(),
        };
        if let Err(msg) = res {
            self.push_history_line(msg, false);
        }

        self.prompt = String::new();

        // Entering a new command resets the user's position in history to the end.
        self.prompt_history_index = self.history.len();

        // If the view was at the end, keep scrolling down as new lines are added.
        // Otherwise the view's position shouldn't change.
        if self.history_view_index == hist_len_old {
            self.history_view_index = self.history.len();
        }
        proof {
            let out = self@.history.skip(old_model.history.len() + 1 as int);
            assert(after_input.history =~= old_model.history.push((old_model.prompt, true)));
            assert(self@.history =~= old_model.history.push((old_model.prompt, true)) + out);
            let out1 = after_run.history.skip(after_input.history.len() as int);
            assert(self@.history.skip(after_run.history.len() as int) =~= err_line);
            assert(out =~= out1 + err_line);
        }
    }

    /// Parse what the user typed and get or set a cvar
    fn process_line<C: CvarAccess>(&mut self, cvars: &mut C) -> (res: Result<(), String>)
        ensures
            final(self)@.history.len() >= old(self)@.history.len(),
            final(self)@ == (ConsoleModel { history: final(self)@.history, ..old(self)@ }),
            final(self)@.history.subrange(0, old(self)@.history.len() as int)
                == old(self)@.history,
            ({
                let out = final(self)@.history.skip(old(self)@.history.len() as int);
                match command_of(old(self)@.prompt) {
                    CommandModel::Empty => out.len() == 0 && res is Ok,
                    CommandModel::Help => out == help_lines() && res is Ok,
                    CommandModel::PrintCvar(name) => match old(cvars).lookup(name) {
                        Ok(v) => res is Ok && out == seq![(v, false)],
                        Err(e) => res matches Err(m) && m@ == e && out.len() == 0,
                    },
                    CommandModel::SetCvar(name, value) => out.len() == 0 && set_answer_of(res)
                        == old(cvars).set_answer(name, value),
                    CommandModel::TooMany(rest) => out.len() == 0 && (res matches Err(e) && e@
                        == too_many_words_message(rest)),
                }
            }),
            *final(cvars) == cvars_after_command(command_of(old(self)@.prompt), *old(cvars)),
    {
        let ghost old_model = self@;
        // Splitting on whitespace also in effect trims leading and trailing whitespace.
        match parse_command(self.prompt.as_str()) {
            ConsoleCommand::Empty => {
                assert(self@.history.skip(old_model.history.len() as int) =~= Seq::empty());
                Ok(())
            },
            ConsoleCommand::Help => {
                self.print("Available actions:".to_owned());
                self.print("    help                 Print this message".to_owned());
                self.print("    <cvar name>          Print the cvar's value".to_owned());
                self.print("    <cvar name> <value>  Set the cvar's value".to_owned());
                assert(self@.history.skip(old_model.history.len() as int) =~= help_lines());
                Ok(())
            },
            ConsoleCommand::PrintCvar(cvar_name) => {
                match cvars.get_string(cvar_name.as_str()) {
                    Ok(val) => {
                        self.print(val);
                        assert(self@.history.skip(old_model.history.len() as int).len() == 1);
                        Ok(())
                    },
                    Err(e) => {
                        assert(self@.history.skip(old_model.history.len() as int) =~= Seq::empty());
                        Err(e)
                    },
                }
            },
            ConsoleCommand::SetCvar(cvar_name, cvar_value) => {
                assert(self@.history.skip(old_model.history.len() as int) =~= Seq::empty());
                cvars.set_str(cvar_name.as_str(), cvar_value.as_str())
            },
            ConsoleCommand::TooMany(rest) => {
                assert(self@.history.skip(old_model.history.len() as int) =~= Seq::empty());
                let msg = "expected only cvar name and value, found ".to_owned().concat(rest.as_str());
                Err(msg)
            },
        }
    }

    fn print(&mut self, text: String)
        ensures
            final(self)@ == (ConsoleModel {
                history: old(self)@.history.push((text@, false)),
                ..old(self)@
            }),
    {
        self.push_history_line(text, false);
    }

    fn push_history_line(&mut self, text: String, is_input: bool)
        ensures
            final(self)@ == (ConsoleModel {
                history: old(self)@.history.push((text@, is_input)),
                ..old(self)@
            }),
    {
        let hist_line = HistoryLine::new(text, is_input);
        self.history.push(hist_line);
        assert(lines_of(self.history@) =~= lines_of(old(self).history@).push((text@, is_input)));
    }
}

/// The text of the history lines shown in a view of `height` lines
/// (the lines ending at the view index), each followed by a newline.
pub open spec fn shown_text(history: Seq<(Seq<char>, bool)>, hi: int, height: int) -> Seq<char>
    decreases hi,
{
    if hi <= 0 || height <= 0 {
        Seq::empty()
    } else {
        shown_text(history, hi - 1, height - 1) + history[hi - 1].0 + "\n"@
    }
}

impl Console {
    /// The text of the history view: the `height` lines that end at the view index.
    pub fn history_text(&self, height: usize) -> (s: String)
        requires
            self@.view_index <= self@.history.len(),
        ensures
            s@ == shown_text(self@.history, self@.view_index, height as int),
    {
        let hi = self.history_view_index;
        let lo = hi.saturating_sub(height);
        let mut s = String::new();
        let mut i = lo;
        while i < hi
            invariant
                lo <= i <= hi,
                hi <= self.history@.len(),
                lo == (if hi >= height { hi - height } else { 0 }),
                s@ == shown_text(lines_of(self.history@), i as int, height - (hi - i)),
            decreases hi - i,
        {
            s = s.concat(self.history[i].text.as_str()).concat("\n");
            i = i + 1;
        }
        s
    }
}

/// A key that moves through the console's history.
#[derive(Debug, Clone, Copy, PartialEq, Eq, Structural)]
pub enum ConsoleKey {
    /// Up arrow: back in command history.
    HistoryBack,
    /// Down arrow: forward in command history.
    HistoryForward,
    /// Page up: scroll the view up.
    ScrollUp,
    /// Page down: scroll the view down.
    ScrollDown,
}

/// Scancodes of the keys the console reacts to.
pub const UP_ARROW: u32 = 103;
pub const PG_UP: u32 = 104;
pub const DOWN_ARROW: u32 = 108;
pub const PG_DOWN: u32 = 109;

/// How many lines page up and page down scroll.
pub const SCROLL_LINES: usize = 10;

/// The console key for a keyboard scancode, if any.
pub open spec fn console_key_spec(scancode: u32) -> Option<ConsoleKey> {
    if scancode == UP_ARROW {
        Some(ConsoleKey::HistoryBack)
    } else if scancode == PG_UP {
        Some(ConsoleKey::ScrollUp)
    } else if scancode == DOWN_ARROW {
        Some(ConsoleKey::HistoryForward)
    } else if scancode == PG_DOWN {
        Some(ConsoleKey::ScrollDown)
    } else {
        None
    }
}

/// The console key for a keyboard scancode (up/down arrow, page up/down), if any.
pub fn console_key(scancode: u32) -> (key: Option<ConsoleKey>)
    ensures
        key == console_key_spec(scancode),
{
    if scancode == UP_ARROW {
        Some(ConsoleKey::HistoryBack)
    } else if scancode == PG_UP {
        Some(ConsoleKey::ScrollUp)
    } else if scancode == DOWN_ARROW {
        Some(ConsoleKey::HistoryForward)
    } else if scancode == PG_DOWN {
        Some(ConsoleKey::ScrollDown)
    } else {
        None
    }
}

impl ConsoleModel {
    /// The state after pressing a console key.
    pub open spec fn key_pressed(self, key: ConsoleKey) -> ConsoleModel {
        match key {
            ConsoleKey::HistoryBack => self.back(),
            ConsoleKey::HistoryForward => self.forward(),
            ConsoleKey::ScrollUp => self.scroll_up(SCROLL_LINES as int),
            ConsoleKey::ScrollDown => self.scroll_down(SCROLL_LINES as int),
        }
    }
}

impl Console {
    /// React to a key that moves through history or scrolls the view.
    pub fn key_pressed(&mut self, key: ConsoleKey)
        requires
            old(self)@.wf(),
            old(self)@.view_index + SCROLL_LINES <= usize::MAX,
        ensures
            final(self)@ == old(self)@.key_pressed(key),
    {
        match key {
            ConsoleKey::HistoryBack => self.history_back(),
            ConsoleKey::HistoryForward => self.history_forward(),
            ConsoleKey::ScrollUp => self.history_scroll_up(SCROLL_LINES),
            ConsoleKey::ScrollDown => self.history_scroll_down(SCROLL_LINES),
        }
    }
}

/// Reads what a line typed into the console asks for.
pub fn parse_command(line: &str) -> (cmd: ConsoleCommand)
    ensures
        cmd@ == command_of(line@),
{
    let chars = chars_of(line);
    let (a0, b0) = match next_word(&chars, 0) {
        None => return ConsoleCommand::Empty,
        Some(span) => span,
    };
    if span_is(&chars, a0, b0, "help") || span_is(&chars, a0, b0, "?") {
        return ConsoleCommand::Help;
    }
    let cvar_name = line.substring_char(a0, b0).to_owned();
    let (a1, b1) = match next_word(&chars, b0) {
        None => return ConsoleCommand::PrintCvar(cvar_name),
        Some(span) => span,
    };
    let cvar_value = line.substring_char(a1, b1).to_owned();
    match next_word(&chars, b1) {
        None => ConsoleCommand::SetCvar(cvar_name, cvar_value),
        Some((a2, b2)) => ConsoleCommand::TooMany(line.substring_char(a2, b2).to_owned()),
    }
}

} // verus!
