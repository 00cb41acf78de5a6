use rustcycles::cli::{
    args_to_cvars, endpoint_name, exit_flag, judge_set_result, parse_args, Endpoint, Invocation, SetOutcome,
};
use rustcycles::console::CvarAccess;

struct Flags {
    exit_on_unknown: bool,
    fov: i32,
}

impl CvarAccess for Flags {
    fn get_string(&self, cvar_name: &str) -> Result<String, String> {
        match cvar_name {
            "d_exit_on_unknown_cvar" => Ok(self.exit_on_unknown.to_string()),
            "cl_camera_fov" => Ok(self.fov.to_string()),
            _ => Err(format!("Cvar named {} not found", cvar_name)),
        }
    }

    fn set_str(&mut self, cvar_name: &str, str_value: &str) -> Result<(), String> {
        match cvar_name {
            "d_exit_on_unknown_cvar" => {
                self.exit_on_unknown = str_value.parse().map_err(|e| format!("{}", e))?;
                Ok(())
            }
            "cl_camera_fov" => {
                self.fov = str_value.parse().map_err(|e| format!("{}", e))?;
                Ok(())
            }
            _ => Err(format!("Cvar named {} not found", cvar_name)),
        }
    }
}

fn args(a: &[&str]) -> Vec<String> {
    a.iter().map(|s| s.to_string()).collect()
}

#[test]
fn parse_args_endpoints() {
    match parse_args(args(&[])) {
        Invocation::Run { endpoint: None, cvar_args } => assert!(cvar_args.is_empty()),
        _ => panic!("expected run"),
    }
    match parse_args(args(&["launcher", "a", "1"])) {
        Invocation::Run { endpoint: None, cvar_args } => assert_eq!(cvar_args, args(&["a", "1"])),
        _ => panic!("expected run"),
    }
    match parse_args(args(&["local"])) {
        Invocation::Run { endpoint: Some(Endpoint::Local), .. } => {}
        _ => panic!("expected local"),
    }
    match parse_args(args(&["client", "cl_camera_fov", "100"])) {
        Invocation::Run { endpoint: Some(Endpoint::Client), cvar_args } => {
            assert_eq!(cvar_args, args(&["cl_camera_fov", "100"]))
        }
        _ => panic!("expected client"),
    }
    match parse_args(args(&["server"])) {
        Invocation::Run { endpoint: Some(Endpoint::Server), .. } => {}
        _ => panic!("expected server"),
    }
    // Anything else is taken as the first cvar.
    match parse_args(args(&["cl_camera_fov", "100"])) {
        Invocation::Run { endpoint: None, cvar_args } => {
            assert_eq!(cvar_args, args(&["cl_camera_fov", "100"]))
        }
        _ => panic!("expected run"),
    }
    assert!(matches!(parse_args(args(&["--help"])), Invocation::Help));
    assert!(matches!(parse_args(args(&["--version", "x"])), Invocation::Version));
    assert!(matches!(parse_args(args(&["-x"])), Invocation::UnknownOption(o) if o == "-x"));
    assert!(matches!(parse_args(args(&["+cl_camera_fov", "1"])), Invocation::Run { endpoint: None, .. }));
}

#[test]
fn endpoint_names() {
    assert_eq!(endpoint_name(None), "launcher");
    assert_eq!(endpoint_name(Some(Endpoint::Local)), "lo");
    assert_eq!(endpoint_name(Some(Endpoint::Client)), "cl");
    assert_eq!(endpoint_name(Some(Endpoint::Server)), "sv");
}

#[test]
fn cvars_from_args() {
    let mut c = Flags { exit_on_unknown: true, fov: 75 };
    let log = args_to_cvars(&mut c, &args(&["+cl_camera_fov", "100"])).unwrap();
    assert_eq!(c.fov, 100);
    assert_eq!(log, args(&["cl_camera_fov = 100"]));

    let mut c = Flags { exit_on_unknown: true, fov: 75 };
    let err = args_to_cvars(&mut c, &args(&["cl_camera_fov"])).unwrap_err();
    assert_eq!(err, "missing value for cvar `cl_camera_fov` or incorrect command line option");

    let mut c = Flags { exit_on_unknown: true, fov: 75 };
    let err = args_to_cvars(&mut c, &args(&["bogus", "1", "cl_camera_fov", "3"])).unwrap_err();
    assert_eq!(err, "failed to set cvar bogus to value 1: Cvar named bogus not found");
    assert_eq!(c.fov, 75);

    // Turning the check off first lets unknown cvars through with a warning.
    let mut c = Flags { exit_on_unknown: true, fov: 75 };
    let log = args_to_cvars(
        &mut c,
        &args(&["d_exit_on_unknown_cvar", "false", "bogus", "1", "cl_camera_fov", "3"]),
    )
    .unwrap();
    assert_eq!(c.fov, 3);
    assert_eq!(
        log,
        args(&[
            "d_exit_on_unknown_cvar = false",
            "WARNING failed to set cvar bogus to value 1: Cvar named bogus not found",
            "cl_camera_fov = 3",
        ])
    );
}

#[test]
fn set_results_judged() {
    assert!(matches!(judge_set_result("a", "1", Ok(()), true), SetOutcome::Applied));
    assert!(matches!(
        judge_set_result("a", "1", Err("bad".to_string()), true),
        SetOutcome::Fatal(m) if m == "failed to set cvar a to value 1: bad"
    ));
    assert!(matches!(
        judge_set_result("a", "1", Err("bad".to_string()), false),
        SetOutcome::Warning(m) if m == "WARNING failed to set cvar a to value 1: bad"
    ));
}

#[test]
fn exit_flag_only_for_true() {
    assert!(exit_flag(&Ok("true".to_owned())));
    assert!(!exit_flag(&Ok("false".to_owned())));
    assert!(!exit_flag(&Ok("True".to_owned())));
    assert!(!exit_flag(&Err("true".to_owned())));
}

#[test]
fn no_cvar_args_leave_cvars_as_they_were() {
    let mut c = Flags { exit_on_unknown: true, fov: 75 };
    let log = args_to_cvars(&mut c, &args(&[])).unwrap();
    assert!(log.is_empty());
    assert!(c.exit_on_unknown);
    assert_eq!(c.fov, 75);
}

#[test]
fn only_one_plus_is_stripped() {
    let mut c = Flags { exit_on_unknown: true, fov: 75 };
    let err = args_to_cvars(&mut c, &args(&["++cl_camera_fov", "100"])).unwrap_err();
    assert_eq!(err, "failed to set cvar +cl_camera_fov to value 100: Cvar named +cl_camera_fov not found");
    assert_eq!(c.fov, 75);
}

#[test]
fn later_pairs_override_earlier_ones() {
    let mut c = Flags { exit_on_unknown: true, fov: 75 };
    let log = args_to_cvars(
        &mut c,
        &args(&["cl_camera_fov", "90", "+d_exit_on_unknown_cvar", "false", "cl_camera_fov", "80"]),
    )
    .unwrap();
    assert_eq!(c.fov, 80);
    assert!(!c.exit_on_unknown);
    assert_eq!(
        log,
        args(&["cl_camera_fov = 90", "d_exit_on_unknown_cvar = false", "cl_camera_fov = 80"])
    );
}

#[test]
fn the_first_fatal_failure_stops_the_rest() {
    let mut c = Flags { exit_on_unknown: true, fov: 75 };
    let err = args_to_cvars(
        &mut c,
        &args(&["cl_camera_fov", "90", "cl_camera_fov", "wide", "cl_camera_fov", "80"]),
    )
    .unwrap_err();
    assert!(err.starts_with("failed to set cvar cl_camera_fov to value wide: "));
    assert_eq!(c.fov, 90);
}
