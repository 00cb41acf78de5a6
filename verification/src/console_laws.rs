//! Properties of the console that span several operations.

use vstd::prelude::*;

use crate::text::{all_space, law_words_ignore_surrounding_space, words};
use crate::console::{
    command_output, cvars_after_command, too_many_words_message, CvarAccess,
    command_of, first_input_from, last_input_before, output_allowed, ConsoleModel, CommandModel,
};

verus! {

/// `last_input_before` finds an input line in range, and nothing after it up to `end` is input.
pub proof fn lemma_last_input_before(h: Seq<(Seq<char>, bool)>, end: int)
    requires
        0 <= end <= h.len(),
    ensures
        match last_input_before(h, end) {
            Some(j) => {
                &&& 0 <= j < end
                &&& h[j].1
                &&& forall|k: int| j < k < end ==> !(#[trigger] h[k]).1
            },
            None => forall|k: int| 0 <= k < end ==> !(#[trigger] h[k]).1,
        },
    decreases end,
{
    if end > 0 && !h[end - 1].1 {
        lemma_last_input_before(h, end - 1);
    }
}

/// Skipping over lines that are not input doesn't change the last input found.
pub proof fn lemma_last_input_skips_output(h: Seq<(Seq<char>, bool)>, a: int, end: int)
    requires
        0 <= a <= end <= h.len(),
        forall|k: int| a <= k < end ==> !(#[trigger] h[k]).1,
    ensures
        last_input_before(h, end) == last_input_before(h, a),
    decreases end - a,
{
    if end > a {
        lemma_last_input_skips_output(h, a, end - 1);
    }
}

/// `first_input_from` finds nothing when there are no input lines from `start` on.
pub proof fn lemma_first_input_none(h: Seq<(Seq<char>, bool)>, start: int)
    requires
        0 <= start,
        forall|k: int| start <= k < h.len() ==> !(#[trigger] h[k]).1,
    ensures
        first_input_from(h, start) is None,
    decreases h.len() - start,
{
    if start < h.len() {
        lemma_first_input_none(h, start + 1);
    }
}

/// `first_input_from` finds an input line in range.
pub proof fn lemma_first_input_from(h: Seq<(Seq<char>, bool)>, start: int)
    requires
        0 <= start,
    ensures
        first_input_from(h, start) matches Some(j) ==> start <= j < h.len() && h[j].1,
    decreases h.len() - start,
{
    if start < h.len() && !h[start].1 {
        lemma_first_input_from(h, start + 1);
    }
}

/// Every line that running a command prints is output, never input.
pub proof fn lemma_output_is_not_input(cmd: CommandModel, out: Seq<(Seq<char>, bool)>)
    requires
        output_allowed(cmd, out),
    ensures
        forall|k: int| 0 <= k < out.len() ==> !(#[trigger] out[k]).1,
{
}

/// Whitespace before and after a command doesn't change what it asks for.
pub proof fn law_command_ignores_surrounding_space(p: Seq<char>, s: Seq<char>, q: Seq<char>)
    requires
        all_space(p),
        all_space(q),
    ensures
        command_of(p + s + q) == command_of(s),
{
    law_words_ignore_surrounding_space(p, s, q);
}

/// Pressing enter, then going back in history, brings back the line that was entered,
/// whatever running it printed.
pub proof fn law_back_recalls_entered_line(before: ConsoleModel, out: Seq<(Seq<char>, bool)>)
    requires
        output_allowed(command_of(before.prompt), out),
    ensures
        before.entered(out).back().prompt == before.prompt,
        before.entered(out).back().index == before.history.len(),
        before.entered(out).back().history == before.entered(out).history,
{
    let after = before.entered(out);
    let h = after.history;
    let n = before.history.len() as int;
    lemma_output_is_not_input(command_of(before.prompt), out);
    assert forall|k: int| n + 1 <= k < h.len() implies !(#[trigger] h[k]).1 by {
        assert(h[k] == out[k - n - 1]);
    }
    lemma_last_input_skips_output(h, n + 1, h.len() as int);
    assert(h[n] == (before.prompt, true));
}

/// Pressing enter always leaves the user at the present with an empty prompt,
/// keeps every earlier line, and adds the entered line as input.
pub proof fn law_enter_appends(before: ConsoleModel, out: Seq<(Seq<char>, bool)>)
    requires
        0 <= before.view_index,
        output_allowed(command_of(before.prompt), out),
    ensures
        before.entered(out).wf(),
        before.entered(out).prompt == Seq::<char>::empty(),
        before.entered(out).index == before.entered(out).history.len(),
        before.entered(out).history.subrange(0, before.history.len() as int) == before.history,
        before.entered(out).history[before.history.len() as int] == (before.prompt, true),
        before.view_index == before.history.len() ==> before.entered(out).view_index
            == before.entered(out).history.len(),
        before.view_index != before.history.len()
            ==> before.entered(out).view_index == before.view_index,
{
    let after = before.entered(out);
    assert(after.history.subrange(0, before.history.len() as int) =~= before.history);
}

/// Going back in history from the present and then forward again
/// restores what the user was typing.
pub proof fn law_back_then_forward_restores_prompt(v: ConsoleModel)
    requires
        v.wf(),
        v.index == v.history.len(),
    ensures
        v.back().forward().prompt == v.prompt,
        v.back().forward().index == v.history.len(),
        v.back().forward().history == v.history,
{
    let h = v.history;
    lemma_last_input_before(h, v.index);
    match last_input_before(h, v.index) {
        Some(j) => {
            lemma_first_input_none(h, j + 1);
        },
        None => {},
    }
}

/// Moving through history or scrolling never changes the history,
/// and keeps the position in history within it.
pub proof fn law_navigation_keeps_history(v: ConsoleModel, count: int)
    requires
        v.wf(),
        0 <= count,
    ensures
        v.back().wf(),
        v.forward().wf(),
        v.scroll_up(count).wf(),
        v.scroll_down(count).wf(),
        v.back().history == v.history,
        v.forward().history == v.history,
        v.scroll_up(count).history == v.history,
        v.scroll_down(count).history == v.history,
{
    lemma_last_input_before(v.history, v.index);
    lemma_first_input_from(v.history, v.index + 1);
}

/// Going back in history only ever lands on lines the user typed,
/// and so does going forward unless it returns to the present.
pub proof fn law_history_lands_on_input(v: ConsoleModel)
    requires
        v.wf(),
    ensures
        v.back().index != v.index ==> v.back().history[v.back().index].1
            && v.back().prompt == v.history[v.back().index].0,
        v.forward().index < v.history.len() && v.forward().index != v.index ==> v.forward().history[v.forward().index].1
            && v.forward().prompt == v.history[v.forward().index].0,
{
    lemma_last_input_before(v.history, v.index);
    lemma_first_input_from(v.history, v.index + 1);
}

/// Scrolling down never goes past the last line, and scrolling up keeps
/// at least one line in view when there is one.
pub proof fn law_scroll_bounds(v: ConsoleModel, count: int)
    requires
        0 <= v.view_index,
        0 <= count,
    ensures
        v.scroll_down(count).view_index <= v.history.len(),
        v.history.len() > 0 ==> v.scroll_up(count).view_index >= 1,
        v.scroll_up(count).view_index <= v.view_index || v.scroll_up(count).view_index == 1,
{
}

/// Scrolling down and then up by the same count, within the history and from a view
/// that shows at least one line, gives back the view from before.
pub proof fn law_scroll_down_then_up_restores(v: ConsoleModel, count: int)
    requires
        count >= 0,
        1 <= v.view_index,
        v.view_index + count <= v.history.len(),
    ensures
        v.scroll_down(count).scroll_up(count) == v,
{
}

/// A line of three or more words (not starting with `help` or `?`) is always rejected:
/// it asks for nothing but the error naming its third word, which is all that entering
/// it prints, and the cvars stay as they were.
pub proof fn law_three_or_more_words_rejected<C: CvarAccess>(line: Seq<char>, cvars: C)
    requires
        words(line).len() >= 3,
        words(line)[0] != "help"@,
        words(line)[0] != "?"@,
    ensures
        command_of(line) == CommandModel::TooMany(words(line)[2]),
        command_output(command_of(line), cvars) == seq![
            (too_many_words_message(words(line)[2]), false),
        ],
        cvars_after_command(command_of(line), cvars) == cvars,
{
}

/// A line sets a cvar only when it has exactly two words, the name and the value,
/// and the first is not `help` or `?`; nothing else changes the cvars.
pub proof fn law_set_only_with_two_words<C: CvarAccess>(line: Seq<char>, cvars: C)
    ensures
        (command_of(line) is SetCvar) <==> (words(line).len() == 2 && words(line)[0]
            != "help"@ && words(line)[0] != "?"@),
        command_of(line) matches CommandModel::SetCvar(n, v) ==> n == words(line)[0] && v
            == words(line)[1],
        !(command_of(line) is SetCvar) ==> cvars_after_command(command_of(line), cvars) == cvars,
{
}

/// A lone word (not `help` or `?`) is a cvar name whose value is printed:
/// the line printed is exactly what looking it up answers.
pub proof fn law_one_word_prints_lookup<C: CvarAccess>(line: Seq<char>, cvars: C)
    requires
        words(line).len() == 1,
        words(line)[0] != "help"@,
        words(line)[0] != "?"@,
    ensures
        command_output(command_of(line), cvars) == seq![
            (match cvars.lookup(words(line)[0]) {
                Ok(v) => v,
                Err(e) => e,
            }, false),
        ],
        cvars_after_command(command_of(line), cvars) == cvars,
{
}

} // verus!
