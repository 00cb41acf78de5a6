//! The command line: which endpoint to run and which cvars to set.

use vstd::prelude::*;
use vstd::string::*;

use crate::console::{answer_of, CvarAccess};
use crate::text::{skip_first_char, starts_with_char, str_eq};

verus! {

/// What part of the game a process runs.
#[derive(Debug, Clone, Copy, PartialEq, Eq, Structural)]
pub enum Endpoint {
    /// Run a local game (client and server in one process)
    Local,
    /// Run only the game client
    Client,
    /// Run only the game server
    Server,
}

/// What the command line asks for.
pub enum Invocation {
    /// Run the game. `None` runs a local game with separate client and server processes
    /// (the launcher). The rest of the arguments are cvar names and values.
    Run { endpoint: Option<Endpoint>, cvar_args: Vec<String> },
    /// Print usage.
    Help,
    /// Print the version.
    Version,
    /// An argument that looks like an option but isn't one.
    UnknownOption(String),
}

/// The abstract form of [`Invocation`].
pub enum InvocationModel {
    Run { endpoint: Option<Endpoint>, cvar_args: Seq<Seq<char>> },
    Help,
    Version,
    UnknownOption(Seq<char>),
}

/// The strings of a list of arguments.
pub open spec fn strings_of(args: Seq<String>) -> Seq<Seq<char>> {
    args.map_values(|a: String| a@)
}

impl View for Invocation {
    type V = InvocationModel;

    open spec fn view(&self) -> InvocationModel {
        match self {
            Invocation::Run { endpoint, cvar_args } => InvocationModel::Run {
                endpoint: *endpoint,
                cvar_args: strings_of(cvar_args@),
            },
            Invocation::Help => InvocationModel::Help,
            Invocation::Version => InvocationModel::Version,
            Invocation::UnknownOption(a) => InvocationModel::UnknownOption(a@),
        }
    }
}

/// What the arguments after the program's path ask for.
///
/// The first argument may pick the endpoint (`launcher`, `local`, `client` or `server`)
/// or ask for help or the version; anything else is taken as the start of the cvars.
pub open spec fn invocation_of(args: Seq<Seq<char>>) -> InvocationModel {
    if args.len() == 0 {
        InvocationModel::Run { endpoint: None, cvar_args: args }
    } else {
        let first = args[0];
        if first == "launcher"@ {
            InvocationModel::Run { endpoint: None, cvar_args: args.drop_first() }
        } else if first == "local"@ {
            InvocationModel::Run { endpoint: Some(Endpoint::Local), cvar_args: args.drop_first() }
        } else if first == "client"@ {
            InvocationModel::Run { endpoint: Some(Endpoint::Client), cvar_args: args.drop_first() }
        } else if first == "server"@ {
            InvocationModel::Run { endpoint: Some(Endpoint::Server), cvar_args: args.drop_first() }
        } else if first == "--help"@ {
            InvocationModel::Help
        } else if first == "--version"@ {
            InvocationModel::Version
        } else if first.len() > 0 && first[0] == '-' {
            InvocationModel::UnknownOption(first)
        } else {
            InvocationModel::Run { endpoint: None, cvar_args: args }
        }
    }
}

/// Reads the command line (without the path to the program).
pub fn parse_args(args: Vec<String>) -> (inv: Invocation)
    ensures
        inv@ == invocation_of(strings_of(args@)),
{
    let ghost all = strings_of(args@);
    if args.len() == 0 {
        return Invocation::Run { endpoint: None, cvar_args: args };
    }
    let first = args[0].as_str();
    let endpoint = if str_eq(first, "launcher") {
        None
    } else if str_eq(first, "local") {
        Some(Endpoint::Local)
    } else if str_eq(first, "client") {
        Some(Endpoint::Client)
    } else if str_eq(first, "server") {
        Some(Endpoint::Server)
    } else if str_eq(first, "--help") {
        return Invocation::Help;
    } else if str_eq(first, "--version") {
        return Invocation::Version;
    } else if starts_with_char(first, '-') {
        return Invocation::UnknownOption(first.to_owned());
    } else {
        return Invocation::Run { endpoint: None, cvar_args: args };
    };
    let mut rest = args;
    rest.remove(0);
    proof {
        assert(strings_of(rest@) =~= all.drop_first());
    }
    Invocation::Run { endpoint, cvar_args: rest }
}

/// The name a process uses for itself in its log.
pub fn endpoint_name(endpoint: Option<Endpoint>) -> (name: &'static str)
    ensures
        name@ == match endpoint {
            None => "launcher"@,
            Some(Endpoint::Local) => "lo"@,
            Some(Endpoint::Client) => "cl"@,
            Some(Endpoint::Server) => "sv"@,
        },
{
    match endpoint {
        None => "launcher",
        Some(Endpoint::Local) => "lo",
        Some(Endpoint::Client) => "cl",
        Some(Endpoint::Server) => "sv",
    }
}

/// A cvar name from the command line; it can optionally be prefixed by '+'.
pub open spec fn cvar_name_of(arg: Seq<char>) -> Seq<char> {
    if arg.len() > 0 && arg[0] == '+' {
        arg.skip(1)
    } else {
        arg
    }
}

/// The error for a cvar name that isn't followed by a value.
pub open spec fn missing_value_message(name: Seq<char>) -> Seq<char> {
    "missing value for cvar `"@ + name + "` or incorrect command line option"@
}

/// The error (or, when unknown cvars are allowed, the warning) for a value that couldn't be set.
pub open spec fn set_failed_message(name: Seq<char>, value: Seq<char>, err: Seq<char>) -> Seq<char> {
    "failed to set cvar "@ + name + " to value "@ + value + ": "@ + err
}

/// What setting one cvar from the command line leads to.
pub enum SetOutcome {
    /// The cvar was set.
    Applied,
    /// The cvar couldn't be set; go on and log this warning.
    Warning(String),
    /// The cvar couldn't be set; stop with this error.
    Fatal(String),
}

/// Decides what a result of setting cvar `name` to `value` leads to.
pub fn judge_set_result(
    name: &str,
    value: &str,
    res: Result<(), String>,
    exit_on_unknown_cvar: bool,
) -> (outcome: SetOutcome)
    ensures
        match res {
            Ok(_) => outcome is Applied,
            Err(e) => if exit_on_unknown_cvar {
                outcome matches SetOutcome::Fatal(m) && m@ == set_failed_message(name@, value@, e@)
            } else {
                outcome matches SetOutcome::Warning(m) && m@ == "WARNING "@ + set_failed_message(
                    name@,
                    value@,
                    e@,
                )
            },
        },
{
    match res {
        Ok(_) => SetOutcome::Applied,
        Err(e) => {
            let msg = "failed to set cvar ".to_owned().concat(name).concat(" to value ").concat(
                value,
            ).concat(": ").concat(e.as_str());
            if exit_on_unknown_cvar {
                SetOutcome::Fatal(msg)
            } else {
                let warning = "WARNING ".to_owned().concat(msg.as_str());
                proof {
                    assert(warning@ =~= "WARNING "@ + set_failed_message(name@, value@, e@));
                }
                SetOutcome::Warning(warning)
            }
        },
    }
}

/// Whether an answer to looking up the `d_exit_on_unknown_cvar` cvar says to stop
/// the program: only the value `true` does, and a failed lookup doesn't.
pub open spec fn exit_flag_spec(answer: Result<Seq<char>, Seq<char>>) -> bool {
    answer matches Ok(v) && v == "true"@
}

/// Whether a lookup of the `d_exit_on_unknown_cvar` cvar that answered `value`
/// says to stop the program: only the value `true` does, and a failed lookup doesn't.
pub fn exit_flag(value: &Result<String, String>) -> (exit: bool)
    ensures
        exit == exit_flag_spec(answer_of(*value)),
        exit == (value matches Ok(v) && v@ == "true"@),
{
    match value {
        Ok(v) => str_eq(v.as_str(), "true"),
        Err(_) => false,
    }
}

/// Whether unknown or invalid cvars on the command line stop the program,
/// read from the `d_exit_on_unknown_cvar` cvar.
pub fn exit_on_unknown_cvar<C: CvarAccess>(cvars: &C) -> (exit: bool)
    ensures
        exit == exit_flag_spec(cvars.lookup("d_exit_on_unknown_cvar"@)),
{
    let value = cvars.get_string("d_exit_on_unknown_cvar");
    exit_flag(&value)
}

/// The log line for a cvar that was set: its name and its new value as the cvars
/// give it back, so the user can check it was parsed correctly (none if the lookup fails).
pub open spec fn set_log<C: CvarAccess>(cvars: C, name: Seq<char>) -> Seq<Seq<char>> {
    match cvars.lookup(name) {
        Ok(v) => seq![name + " = "@ + v],
        Err(_) => Seq::empty(),
    }
}

/// `log` followed by the lines of `r`, or the error of `r`.
pub open spec fn prepend_log(log: Seq<Seq<char>>, r: Result<Seq<Seq<char>>, Seq<char>>) -> Result<
    Seq<Seq<char>>,
    Seq<char>,
> {
    match r {
        Ok(rest) => Ok(log + rest),
        Err(e) => Err(e),
    }
}

/// Setting the cvars named in `args` (pairs of name and value, in order) on `cvars`:
/// the cvars afterwards, and the lines to log or the error that stops the program.
///
/// Each pair's name loses one leading `+`. A failed set stops everything when the
/// `d_exit_on_unknown_cvar` cvar (as it is after that set) says so, and is logged
/// as a warning otherwise. A name without a value is an error.
pub open spec fn cvar_args_run<C: CvarAccess>(cvars: C, args: Seq<Seq<char>>) -> (C, Result<
    Seq<Seq<char>>,
    Seq<char>,
>)
    decreases args.len(),
{
    if args.len() == 0 {
        (cvars, Ok(Seq::empty()))
    } else if args.len() == 1 {
        (cvars, Err(missing_value_message(cvar_name_of(args[0]))))
    } else {
        let name = cvar_name_of(args[0]);
        let value = args[1];
        let after = cvars.after_set(name, value);
        let rest = cvar_args_run(after, args.skip(2));
        match cvars.set_answer(name, value) {
            Ok(_) => (rest.0, prepend_log(set_log(after, name), rest.1)),
            Err(e) => if exit_flag_spec(after.lookup("d_exit_on_unknown_cvar"@)) {
                (after, Err(set_failed_message(name, value, e)))
            } else {
                (rest.0, prepend_log(seq!["WARNING "@ + set_failed_message(name, value, e)], rest.1))
            },
        }
    }
}

/// The lines or the error of a run, as text.
pub open spec fn run_result_of(res: Result<Vec<String>, String>) -> Result<Seq<Seq<char>>, Seq<char>> {
    match res {
        Ok(log) => Ok(strings_of(log@)),
        Err(e) => Err(e@),
    }
}

proof fn lemma_prepend_log_twice(a: Seq<Seq<char>>, b: Seq<Seq<char>>, r: Result<Seq<Seq<char>>, Seq<char>>)
    ensures
        prepend_log(a, prepend_log(b, r)) == prepend_log(a + b, r),
{
    if let Ok(rest) = r {
        assert(a + (b + rest) =~= (a + b) + rest);
    }
}

/// Sets the cvars given on the command line as pairs of name and value.
///
/// Returns the lines to log, or the error that stops the program.
pub fn args_to_cvars<C: CvarAccess>(cvars: &mut C, cvar_args: &Vec<String>) -> (res: Result<
    Vec<String>,
    String,
>)
    ensures
        *final(cvars) == cvar_args_run(*old(cvars), strings_of(cvar_args@)).0,
        run_result_of(res) == cvar_args_run(*old(cvars), strings_of(cvar_args@)).1,
{
    let ghost args = strings_of(cvar_args@);
    let ghost c0 = *cvars;
    let mut log: Vec<String> = Vec::new();
    let n = cvar_args.len();
    let mut i: usize = 0;
    proof {
        assert(args.skip(0) =~= args);
        assert(strings_of(log@) =~= Seq::<Seq<char>>::empty());
        assert(prepend_log(Seq::empty(), cvar_args_run(c0, args).1) == cvar_args_run(c0, args).1) by {
            if let Ok(rest) = cvar_args_run(c0, args).1 {
                assert(Seq::<Seq<char>>::empty() + rest =~= rest);
            }
        }
    }
    while i < n
        invariant
            i <= n,
            n == cvar_args@.len(),
            i % 2 == 0,
            args == strings_of(cvar_args@),
            c0 == *old(cvars),
            cvar_args_run(c0, args).0 == cvar_args_run(*cvars, args.skip(i as int)).0,
            cvar_args_run(c0, args).1 == prepend_log(
                strings_of(log@),
                cvar_args_run(*cvars, args.skip(i as int)).1,
            ),
        decreases n - i,
    {
        let ghost rest = args.skip(i as int);
        let ghost before = *cvars;
        let ghost old_log = strings_of(log@);
        let arg = cvar_args[i].as_str();
        // Cvar names can optionally be prefixed by '+'.
        let cvar_name = if starts_with_char(arg, '+') {
            skip_first_char(arg)
        } else {
            arg.to_owned()
        };
        proof {
            assert(rest[0] == cvar_args@[i as int]@);
            assert(cvar_name@ == cvar_name_of(rest[0]));
        }
        if i + 1 >= n {
            let msg = "missing value for cvar `".to_owned().concat(cvar_name.as_str()).concat(
                "` or incorrect command line option",
            );
            proof {
                assert(rest.len() == 1);
            }
            return Err(msg);
        }
        let str_value = cvar_args[i + 1].as_str();
        proof {
            assert(rest[1] == str_value@);
            assert(rest.skip(2) =~= args.skip(i + 2));
        }
        let res = cvars.set_str(cvar_name.as_str(), str_value);
        let ghost err_text = match res {
            Err(ref e) => e@,
            Ok(_) => Seq::empty(),
        };
        let exit = if res.is_err() {
            exit_on_unknown_cvar(cvars)
        } else {
            false
        };
        match judge_set_result(cvar_name.as_str(), str_value, res, exit) {
            SetOutcome::Applied => {
                // Getting the new value from cvars, not just printing the input,
                // so the user can check it was parsed correctly.
                let looked_up = cvars.get_string(cvar_name.as_str());
                if let Ok(v) = looked_up {
                    log.push(cvar_name.concat(" = ").concat(v.as_str()));
                }
                proof {
                    let line = set_log(*cvars, cvar_name@);
                    assert(strings_of(log@) =~= old_log + line);
                    lemma_prepend_log_twice(
                        old_log,
                        line,
                        cvar_args_run(*cvars, args.skip(i + 2)).1,
                    );
                }
            },
            SetOutcome::Warning(w) => {
                let ghost line = seq![w@];
                log.push(w);
                proof {
                    assert(strings_of(log@) =~= old_log + line);
                    lemma_prepend_log_twice(
                        old_log,
                        line,
                        cvar_args_run(*cvars, args.skip(i + 2)).1,
                    );
                }
            },
            SetOutcome::Fatal(msg) => {
                return Err(msg);
            },
        }
        i = i + 2;
    }
    proof {
        assert(args.skip(n as int) =~= Seq::<Seq<char>>::empty());
        assert(strings_of(log@) + Seq::<Seq<char>>::empty() =~= strings_of(log@));
    }
    Ok(log)
}

/// When the first argument names an endpoint, that word is consumed: the cvar arguments
/// are exactly the arguments after it. An argument list that starts with anything that is
/// neither an endpoint nor an option runs the launcher with every argument as a cvar argument.
pub proof fn law_endpoint_word_is_consumed(args: Seq<Seq<char>>)
    requires
        args.len() >= 1,
    ensures
        args[0] == "launcher"@ ==> invocation_of(args) == (InvocationModel::Run {
            endpoint: None,
            cvar_args: args.drop_first(),
        }),
        args[0] == "local"@ ==> invocation_of(args) == (InvocationModel::Run {
            endpoint: Some(Endpoint::Local),
            cvar_args: args.drop_first(),
        }),
        args[0] == "client"@ ==> invocation_of(args) == (InvocationModel::Run {
            endpoint: Some(Endpoint::Client),
            cvar_args: args.drop_first(),
        }),
        args[0] == "server"@ ==> invocation_of(args) == (InvocationModel::Run {
            endpoint: Some(Endpoint::Server),
            cvar_args: args.drop_first(),
        }),
        (args[0] != "launcher"@ && args[0] != "local"@ && args[0] != "client"@ && args[0]
            != "server"@ && !(args[0].len() > 0 && args[0][0] == '-')) ==> invocation_of(args)
            == (InvocationModel::Run { endpoint: None, cvar_args: args }),
{
    reveal_strlit("launcher");
    reveal_strlit("local");
    reveal_strlit("client");
    reveal_strlit("server");
    reveal_strlit("--help");
    reveal_strlit("--version");
    assert("launcher"@[0] == 'l');
    assert("--help"@[0] == '-');
    assert("--version"@[0] == '-');
    assert("server"@[0] != "client"@[0]);
    assert("server"@ != "launcher"@);
    assert("server"@ != "local"@);
    assert("server"@ != "client"@);
    assert("client"@ != "launcher"@);
    assert("client"@ != "local"@);
    assert("local"@.len() != "launcher"@.len());
}

} // verus!
