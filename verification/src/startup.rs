//! What is decided before the first frame: the command line and the output
//! to capture.

use vstd::prelude::*;

verus! {

/// What the command line asks for.
#[derive(Debug)]
pub enum CliRequest {
    /// Run, on the named monitor or on the first one.
    Run { monitor: Option<String> },
    /// Print the usage and leave with success.
    Help,
    /// `--monitor` came last, without its value.
    MissingValue,
    /// The argument at `position` is no flag of the program.
    UnknownFlag { position: usize },
}

/// What the arguments from `from` on ask for, `monitor` being the monitor
/// named so far: `--monitor` takes the argument after it as its value, the
/// last one given standing; `--help` and `-h` ask for the usage; anything
/// else is an unknown flag. The first request other than a monitor ends
/// the reading.
pub open spec fn parsed(args: Seq<String>, from: int, monitor: Option<String>) -> CliRequest
    decreases args.len() - from,
{
    if from < 0 || from >= args.len() {
        CliRequest::Run { monitor }
    } else if args[from]@ == "--monitor"@ {
        if from + 1 < args.len() {
            parsed(args, from + 2, Some(args[from + 1]))
        } else {
            CliRequest::MissingValue
        }
    } else if args[from]@ == "--help"@ || args[from]@ == "-h"@ {
        CliRequest::Help
    } else {
        CliRequest::UnknownFlag { position: from as usize }
    }
}

/// Reads the arguments that follow the program's name.
pub fn parse_args(args: &Vec<String>) -> (request: CliRequest)
    ensures
        request == parsed(args@, 0, None),
{
    let monitor_flag = "--monitor".to_owned();
    let help_flag = "--help".to_owned();
    let short_help_flag = "-h".to_owned();
    let mut monitor: Option<String> = None;
    let mut at: usize = 0;
    while at < args.len()
        invariant
            at <= args.len() + 1,
            monitor_flag@ == "--monitor"@,
            help_flag@ == "--help"@,
            short_help_flag@ == "-h"@,
            parsed(args@, 0, None) == parsed(args@, at as int, monitor),
        decreases args.len() + 1 - at,
    {
        if args[at] == monitor_flag {
            if at + 1 < args.len() {
                monitor = Some(args[at + 1].clone());
                at = at + 2;
            } else {
                return CliRequest::MissingValue;
            }
        } else if args[at] == help_flag || args[at] == short_help_flag {
            return CliRequest::Help;
        } else {
            return CliRequest::UnknownFlag { position: at };
        }
    }
    CliRequest::Run { monitor }
}

impl CliRequest {
    /// The code to leave with, where the request is not to run: zero for
    /// the usage asked for, one for a command line that is wrong.
    pub fn exit_code(&self) -> (code: Option<i32>)
        ensures
            code == match *self {
                CliRequest::Run { .. } => None::<i32>,
                CliRequest::Help => Some(0i32),
                CliRequest::MissingValue => Some(1i32),
                CliRequest::UnknownFlag { .. } => Some(1i32),
            },
    {
        match self {
            CliRequest::Run { .. } => None,
            CliRequest::Help => Some(0),
            CliRequest::MissingValue => Some(1),
            CliRequest::UnknownFlag { .. } => Some(1),
        }
    }
}

/// Why there is no output to capture.
#[derive(Clone, Copy, Debug, PartialEq, Eq, Structural)]
pub enum StartupError {
    /// The capture source lists no output.
    NoOutputs,
    /// No output has the name asked for.
    OutputNotFound,
}

/// No name before `end` is `wanted`.
pub open spec fn absent_before(names: Seq<String>, wanted: Seq<char>, end: int) -> bool {
    forall|j: int| 0 <= j < end ==> (#[trigger] names[j])@ != wanted
}

/// The index of the output to capture: the first one where no name is
/// asked for, else the first one of that name.
pub fn select_output(names: &Vec<String>, wanted: &Option<String>) -> (r: Result<
    usize,
    StartupError,
>)
    ensures
        names@.len() == 0 ==> r == Err::<usize, StartupError>(StartupError::NoOutputs),
        names@.len() > 0 && wanted.is_none() ==> r == Ok::<usize, StartupError>(0usize),
        names@.len() > 0 && wanted.is_some() ==> match r {
            Ok(i) => i < names@.len() && names@[i as int]@ == wanted.unwrap()@ && absent_before(
                names@,
                wanted.unwrap()@,
                i as int,
            ),
            Err(e) => e == StartupError::OutputNotFound && absent_before(
                names@,
                wanted.unwrap()@,
                names@.len() as int,
            ),
        },
{
    if names.len() == 0 {
        return Err(StartupError::NoOutputs);
    }
    match wanted {
        None => Ok(0),
        Some(name) => {
            let mut i: usize = 0;
            while i < names.len()
                invariant
                    i <= names.len(),
                    names@.len() > 0,
                    wanted.is_some(),
                    wanted.unwrap() == *name,
                    absent_before(names@, name@, i as int),
                decreases names.len() - i,
            {
                if names[i] == *name {
                    return Ok(i);
                }
                i = i + 1;
            }
            Err(StartupError::OutputNotFound)
        },
    }
}

} // verus!
