use rustcycles::debug::DebugLog;
use rustcycles::text::decimal_string;

#[test]
fn test_soft_assert() {
    #![allow(clippy::let_unit_value)] // We need to test that the calls eval to a ()

    let mut log = DebugLog::new("test");

    // Identity function which counts how many times it's executed
    // to make sure each input is only evaluated once.
    let mut execution_count = 0;
    let mut id = |x| {
        execution_count += 1;
        x
    };

    log.soft_assert(2 + 2 == id(4), "2 + 2 == id(4)", "tests/debug.rs", 18, 9);
    log.soft_assert(2 + 2 == id(5), "2 + 2 == id(5)", "tests/debug.rs", 19, 9);

    log.soft_assert(2 + 2 == id(4), &format!("custom message {}", 42), "tests/debug.rs", 21, 9);
    log.soft_assert(2 + 2 == id(5), &format!("custom message {}", 42), "tests/debug.rs", 22, 9);

    // Test the calls in expression position
    #[allow(unreachable_patterns)]
    let nothing = match 0 {
        _ => log.soft_assert(2 + 2 == id(4), "2 + 2 == id(4)", "tests/debug.rs", 27, 14),
        _ => log.soft_assert(2 + 2 == id(5), "2 + 2 == id(5)", "tests/debug.rs", 28, 14),

        _ => log.soft_assert(2 + 2 == id(4), &format!("custom message {}", 42), "tests/debug.rs", 30, 14),
        _ => log.soft_assert(2 + 2 == id(5), &format!("custom message {}", 42), "tests/debug.rs", 31, 14),
    };
    assert_eq!(nothing, ());

    assert_eq!(execution_count, 4 + 1); // +1 because only one match arm runs
}

#[test]
fn test_logging_compiles() {
    #![allow(clippy::let_unit_value)] // We need to test that the calls eval to a ()

    let mut log = DebugLog::new("test");

    let x = 5;
    let y = 6;

    log.logf("");
    log.logf("abcd");
    log.logf(&format!("x: {}, y: {y}, 7: {}", x, 7));

    log.logd("tests/debug.rs", 50, &vec![]);
    log.logd("tests/debug.rs", 51, &vec![("x".to_string(), format!("{:?}", x))]);
    log.logd(
        "tests/debug.rs",
        52,
        &vec![
            ("x".to_string(), format!("{:?}", x)),
            ("y".to_string(), format!("{:?}", y)),
            ("7".to_string(), format!("{:?}", 7)),
        ],
    );

    log.textf("");
    log.textf("abcd");
    log.textf(&format!("x: {}, y: {y}, 7: {}", x, 7));

    log.textd("tests/debug.rs", 65, &vec![]);
    log.textd("tests/debug.rs", 66, &vec![("x".to_string(), format!("{:?}", x))]);
    log.textd(
        "tests/debug.rs",
        67,
        &vec![
            ("x".to_string(), format!("{:?}", x)),
            ("y".to_string(), format!("{:?}", y)),
            ("7".to_string(), format!("{:?}", 7)),
        ],
    );

    // Test the calls in expression position
    #[allow(unreachable_patterns)]
    let nothing = match 0 {
        _ => log.logf(""),
        _ => log.logf("abcd"),
        _ => log.logf(&format!("x: {}, y: {y}, 7: {}", x, 7)),

        _ => log.logd("tests/debug.rs", 84, &vec![]),
        _ => log.logd("tests/debug.rs", 85, &vec![("x".to_string(), format!("{:?}", x))]),

        _ => log.textf(""),
        _ => log.textf("abcd"),
        _ => log.textf(&format!("x: {}, y: {y}, 7: {}", x, 7)),

        _ => log.textd("tests/debug.rs", 91, &vec![]),
        _ => log.textd("tests/debug.rs", 92, &vec![("x".to_string(), format!("{:?}", x))]),
    };
    assert_eq!(nothing, ());
}

#[test]
fn soft_assert_logs_only_failures() {
    let mut log = DebugLog::new("sv");
    log.soft_assert(true, "fine", "src/x.rs", 1, 1);
    assert!(log.lines.is_empty());
    log.soft_assert(1 + 1 == 3, "1 + 1 == 3", "src/game.rs", 120, 7);
    assert_eq!(log.lines, vec!["sv soft assertion failed: 1 + 1 == 3, src/game.rs:120:7".to_string()]);
    assert!(log.texts.is_empty());
}

#[test]
fn logging_formats_lines() {
    let mut log = DebugLog::new("cl");
    log.logf("abcd");
    log.logd("src/a.rs", 4096, &vec![]);
    log.logd(
        "src/a.rs",
        7,
        &vec![("x".to_string(), "5".to_string()), ("y".to_string(), "6".to_string())],
    );
    assert_eq!(
        log.lines,
        vec![
            "cl abcd".to_string(),
            "cl [src/a.rs:4096] ".to_string(),
            "cl [src/a.rs:7] x: 5, y: 6".to_string(),
        ]
    );
    log.textd("src/b.rs", 0, &vec![("7".to_string(), "7".to_string())]);
    assert_eq!(log.texts, vec!["cl [src/b.rs:0] 7: 7".to_string()]);
}

#[test]
fn screen_text_is_taken_and_extended() {
    let mut sv = DebugLog::new("sv");
    sv.textf("one");
    sv.textf("two");
    let sent = sv.take_texts();
    assert_eq!(sent, vec!["sv one".to_string(), "sv two".to_string()]);
    assert!(sv.texts.is_empty());

    let mut cl = DebugLog::new("cl");
    cl.textf("mine");
    cl.extend_texts(sent);
    assert_eq!(cl.texts, vec!["cl mine".to_string(), "sv one".to_string(), "sv two".to_string()]);

    cl.logf("x");
    assert_eq!(cl.take_lines(), vec!["cl x".to_string()]);
    assert!(cl.lines.is_empty());
}

#[test]
fn decimal_numbers() {
    assert_eq!(decimal_string(0), "0");
    assert_eq!(decimal_string(9), "9");
    assert_eq!(decimal_string(10), "10");
    assert_eq!(decimal_string(4294967295), "4294967295");
}
