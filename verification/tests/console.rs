use rustcycles::console::{
    console_key, parse_command, Console, ConsoleCommand, ConsoleKey, CvarAccess, HistoryLine,
};

/// A small set of integer cvars.
struct TestCvars {
    vars: Vec<(String, i32)>,
}

impl TestCvars {
    fn new() -> Self {
        TestCvars {
            vars: vec![("g_speed".to_string(), 10), ("d_dbg".to_string(), 0)],
        }
    }
}

impl CvarAccess for TestCvars {
    fn get_string(&self, cvar_name: &str) -> Result<String, String> {
        for (name, value) in &self.vars {
            if name == cvar_name {
                return Ok(value.to_string());
            }
        }
        Err(format!("Cvar named {} not found", cvar_name))
    }

    fn set_str(&mut self, cvar_name: &str, str_value: &str) -> Result<(), String> {
        for (name, value) in &mut self.vars {
            if name == cvar_name {
                *value = str_value.parse().map_err(|e| format!("{:?}", e))?;
                return Ok(());
            }
        }
        Err(format!("Cvar named {} not found", cvar_name))
    }
}

fn texts(con: &Console) -> Vec<(String, bool)> {
    con.history.iter().map(|l| (l.text.clone(), l.is_input)).collect()
}

fn line(text: &str, is_input: bool) -> (String, bool) {
    (text.to_string(), is_input)
}

#[test]
fn console_starts_empty() {
    let con = Console::new();
    assert_eq!(con.prompt, "");
    assert!(con.history.is_empty());
    assert_eq!(con.history_view_index, 0);
    let d = Console::default();
    assert!(d.history.is_empty());
    let l = HistoryLine::new("x".to_string(), true);
    assert_eq!(l.text, "x");
    assert!(l.is_input);
}

#[test]
fn enter_gets_and_sets_cvars() {
    let mut cvars = TestCvars::new();
    let mut con = Console::new();

    con.prompt = "g_speed".to_string();
    con.enter(&mut cvars);
    assert_eq!(con.prompt, "");
    assert_eq!(texts(&con), vec![line("g_speed", true), line("10", false)]);

    con.prompt = "  g_speed \t 42  ".to_string();
    con.enter(&mut cvars);
    assert_eq!(cvars.vars[0].1, 42);
    assert_eq!(con.history.len(), 3);

    con.prompt = "nope".to_string();
    con.enter(&mut cvars);
    assert_eq!(con.history[4].text, "Cvar named nope not found");
    assert!(!con.history[4].is_input);

    con.prompt = "g_speed abc".to_string();
    con.enter(&mut cvars);
    assert_eq!(con.history.len(), 7);
    assert!(!con.history[6].is_input);
    assert_eq!(cvars.vars[0].1, 42);

    // The view was at the end so it follows new lines.
    assert_eq!(con.history_view_index, 7);
}

#[test]
fn enter_help_and_errors() {
    let mut cvars = TestCvars::new();
    let mut con = Console::new();

    con.prompt = "help".to_string();
    con.enter(&mut cvars);
    assert_eq!(
        texts(&con),
        vec![
            line("help", true),
            line("Available actions:", false),
            line("    help                 Print this message", false),
            line("    <cvar name>          Print the cvar's value", false),
            line("    <cvar name> <value>  Set the cvar's value", false),
        ]
    );

    con.prompt = "? anything goes".to_string();
    con.enter(&mut cvars);
    assert_eq!(con.history.len(), 10);

    con.prompt = "g_speed 1 2 3".to_string();
    con.enter(&mut cvars);
    assert_eq!(con.history[11].text, "expected only cvar name and value, found 2");
    assert_eq!(cvars.vars[0].1, 10);

    con.prompt = "   ".to_string();
    con.enter(&mut cvars);
    assert_eq!(con.history[12].text, "   ");
    assert_eq!(con.history.len(), 13);
}

#[test]
fn history_navigation() {
    let mut cvars = TestCvars::new();
    let mut con = Console::new();
    for cmd in ["g_speed", "d_dbg 1", "d_dbg"] {
        con.prompt = cmd.to_string();
        con.enter(&mut cvars);
    }
    con.prompt = "typing".to_string();

    con.history_back();
    assert_eq!(con.prompt, "d_dbg");
    con.history_back();
    assert_eq!(con.prompt, "d_dbg 1");
    con.history_back();
    assert_eq!(con.prompt, "g_speed");
    // Nothing older - stays.
    con.history_back();
    assert_eq!(con.prompt, "g_speed");

    con.history_forward();
    assert_eq!(con.prompt, "d_dbg 1");
    con.history_forward();
    assert_eq!(con.prompt, "d_dbg");
    // Back to the present - what was typed comes back.
    con.history_forward();
    assert_eq!(con.prompt, "typing");
    con.history_forward();
    assert_eq!(con.prompt, "typing");
}

#[test]
fn history_back_on_empty_history_keeps_prompt() {
    let mut con = Console::new();
    con.prompt = "abc".to_string();
    con.history_back();
    assert_eq!(con.prompt, "abc");
    con.history_forward();
    assert_eq!(con.prompt, "abc");
}

#[test]
fn history_scrolling() {
    let mut cvars = TestCvars::new();
    let mut con = Console::new();
    con.history_scroll_up(3);
    assert_eq!(con.history_view_index, 0);
    for _ in 0..5 {
        con.prompt = "g_speed".to_string();
        con.enter(&mut cvars);
    }
    assert_eq!(con.history_view_index, 10);
    con.history_scroll_up(4);
    assert_eq!(con.history_view_index, 6);
    // Not at the end - new lines don't move the view.
    con.prompt = "d_dbg".to_string();
    con.enter(&mut cvars);
    assert_eq!(con.history_view_index, 6);
    con.history_scroll_up(100);
    assert_eq!(con.history_view_index, 1);
    con.history_scroll_down(3);
    assert_eq!(con.history_view_index, 4);
    con.history_scroll_down(100);
    assert_eq!(con.history_view_index, 12);
}

#[test]
fn history_text_shows_the_view() {
    let mut cvars = TestCvars::new();
    let mut con = Console::new();
    for cmd in ["g_speed", "d_dbg"] {
        con.prompt = cmd.to_string();
        con.enter(&mut cvars);
    }
    assert_eq!(con.history_text(15), "g_speed\n10\nd_dbg\n0\n");
    assert_eq!(con.history_text(2), "d_dbg\n0\n");
    con.history_scroll_up(1);
    assert_eq!(con.history_text(2), "10\nd_dbg\n");
    assert_eq!(con.history_text(0), "");
}

#[test]
fn parsing_commands() {
    assert!(matches!(parse_command(""), ConsoleCommand::Empty));
    assert!(matches!(parse_command(" \t\n\u{3000}"), ConsoleCommand::Empty));
    assert!(matches!(parse_command("help"), ConsoleCommand::Help));
    assert!(matches!(parse_command("  ? x"), ConsoleCommand::Help));
    assert!(matches!(parse_command("helpme"), ConsoleCommand::PrintCvar(n) if n == "helpme"));
    assert!(matches!(
        parse_command("\u{a0}cl_fov\u{2003}90 "),
        ConsoleCommand::SetCvar(n, v) if n == "cl_fov" && v == "90"
    ));
    assert!(matches!(parse_command("a b c d"), ConsoleCommand::TooMany(r) if r == "c"));
    assert!(matches!(parse_command("žluť kůň"), ConsoleCommand::SetCvar(n, v) if n == "žluť" && v == "kůň"));
}

#[test]
fn console_keys() {
    assert_eq!(console_key(103), Some(ConsoleKey::HistoryBack));
    assert_eq!(console_key(108), Some(ConsoleKey::HistoryForward));
    assert_eq!(console_key(104), Some(ConsoleKey::ScrollUp));
    assert_eq!(console_key(109), Some(ConsoleKey::ScrollDown));
    assert_eq!(console_key(1), None);

    let mut cvars = TestCvars::new();
    let mut con = Console::new();
    for _ in 0..8 {
        con.prompt = "g_speed".to_string();
        con.enter(&mut cvars);
    }
    con.key_pressed(ConsoleKey::ScrollUp);
    assert_eq!(con.history_view_index, 6);
    con.key_pressed(ConsoleKey::ScrollDown);
    assert_eq!(con.history_view_index, 16);
    con.key_pressed(ConsoleKey::HistoryBack);
    assert_eq!(con.prompt, "g_speed");
    con.key_pressed(ConsoleKey::HistoryForward);
    assert_eq!(con.prompt, "");
}

#[test]
fn set_prompt_then_enter_sets_the_cvar() {
    let mut cvars = TestCvars::new();
    let mut con = Console::new();
    con.set_prompt("  d_dbg \t 3  ".to_string());
    assert_eq!(con.prompt, "  d_dbg \t 3  ");
    con.enter(&mut cvars);
    assert_eq!(cvars.vars[1].1, 3);
    assert_eq!(texts(&con), vec![line("  d_dbg \t 3  ", true)]);
}
