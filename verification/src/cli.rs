//! The command line of the recorder: which mode to run and with what.
use vstd::prelude::*;
use crate::text::{has_suffix, parse_u64, parsed_u64, str_ends_with};

verus! {

/// What the command line asks for.
#[derive(Debug)]
pub enum CliCommand {
    /// `--audio-test`: record both audio tracks to WAV files for 10 s.
    AudioTest,
    /// `--video-test [--dump-frame]`: capture for 10 s and report the rate.
    VideoTest { dump_frame: bool },
    /// `solve <log>`: run the camera solver over an event log.
    Solve { log_file: String },
    /// `render <video> <log> <output>`: re-render a recording in demo mode.
    Render { input_video: String, input_log: String, output_video: String },
    /// Anything else: record to `output_file` for `duration_secs` seconds.
    Record { output_file: String, duration_secs: u64 },
}

/// A mode was named without the arguments it needs.
#[derive(Debug, Clone, Copy, PartialEq, Eq, Structural)]
pub enum CliError {
    MissingSolveLog,
    MissingRenderInput,
    MissingRenderLog,
    MissingRenderOutput,
}

impl CliError {
    /// The message the program exits with.
    pub fn message(&self) -> (m: &'static str)
        ensures
            *self == CliError::MissingSolveLog ==> m@ == "Expected .events.jsonl file path after 'solve'"@,
            *self == CliError::MissingRenderInput ==> m@ == "Expected input .mkv"@,
            *self == CliError::MissingRenderLog ==> m@ == "Expected input .events.jsonl"@,
            *self == CliError::MissingRenderOutput ==> m@ == "Expected output .mp4"@,
    {
        match self {
            CliError::MissingSolveLog => "Expected .events.jsonl file path after 'solve'",
            CliError::MissingRenderInput => "Expected input .mkv",
            CliError::MissingRenderLog => "Expected input .events.jsonl",
            CliError::MissingRenderOutput => "Expected output .mp4",
        }
    }
}

/// The text of each argument.
pub open spec fn arg_texts(args: Seq<String>) -> Seq<Seq<char>> {
    args.map_values(|a: String| a@)
}

/// Whether `i` is the first position of `lit` among `a`.
pub open spec fn is_first_position(a: Seq<Seq<char>>, lit: Seq<char>, i: int) -> bool {
    0 <= i < a.len() && a[i] == lit && forall|j: int| 0 <= j < i ==> a[j] != lit
}

/// The first position of `lit` among `a`, if it occurs.
pub open spec fn first_position(a: Seq<Seq<char>>, lit: Seq<char>) -> Option<int> {
    if exists|i: int| is_first_position(a, lit, i) {
        Some(choose|i: int| is_first_position(a, lit, i))
    } else {
        None
    }
}

/// The argument after position `i`, if any.
pub open spec fn arg_after(a: Seq<Seq<char>>, i: int, k: int) -> Option<Seq<char>> {
    if i + k < a.len() { Some(a[i + k]) } else { None }
}

/// Whether an argument names a recording file.
pub open spec fn is_recording_name(s: Seq<char>) -> bool {
    has_suffix(s, ".mkv"@) || has_suffix(s, ".mp4"@)
}

/// The file a recording is written to: the first argument ending in `.mkv`
/// or `.mp4`, otherwise `output.mkv`.
pub open spec fn spec_output_file(a: Seq<Seq<char>>) -> Seq<char> {
    if exists|i: int| 0 <= i < a.len() && is_recording_name(a[i]) {
        a[choose|i: int| 0 <= i < a.len() && is_recording_name(a[i]) && forall|j: int| 0 <= j < i ==> !is_recording_name(a[j])]
    } else {
        "output.mkv"@
    }
}

/// How long to record: the number after `--duration`, otherwise 10 s.
pub open spec fn spec_duration(a: Seq<Seq<char>>) -> u64 {
    match first_position(a, "--duration"@) {
        Some(i) => match arg_after(a, i, 1) {
            Some(v) => match parsed_u64(v) {
                Some(d) => d,
                None => 10,
            },
            None => 10,
        },
        None => 10,
    }
}

proof fn lemma_first_position_is(a: Seq<Seq<char>>, lit: Seq<char>, i: int)
    requires
        is_first_position(a, lit, i),
    ensures
        first_position(a, lit) == Some(i),
{
    let j = choose|j: int| is_first_position(a, lit, j);
    assert(is_first_position(a, lit, j));
    if j < i {
        assert(a[j] != lit);
    } else if i < j {
        assert(a[i] != lit);
    }
}

fn find_arg(args: &Vec<String>, lit: &str) -> (r: Option<usize>)
    ensures
        r matches Some(i) ==> i < args.len() && first_position(arg_texts(args@), lit@) == Some(i as int),
        r is None ==> first_position(arg_texts(args@), lit@) is None,
{
    let target = String::from_str(lit);
    let ghost a = arg_texts(args@);
    let mut i: usize = 0;
    while i < args.len()
        invariant
            i <= args@.len(),
            a == arg_texts(args@),
            target@ == lit@,
            forall|j: int| 0 <= j < i ==> a[j] != lit@,
        decreases args@.len() - i,
    {
        if args[i] == target {
            proof {
                lemma_first_position_is(a, lit@, i as int);
            }
            return Some(i);
        }
        i = i + 1;
    }
    assert(!exists|k: int| is_first_position(a, lit@, k));
    None
}

fn recording_name(s: &str) -> (r: bool)
    ensures
        r == is_recording_name(s@),
{
    str_ends_with(s, ".mkv") || str_ends_with(s, ".mp4")
}

fn output_file(args: &Vec<String>) -> (f: String)
    ensures
        f@ == spec_output_file(arg_texts(args@)),
{
    let ghost a = arg_texts(args@);
    let mut i: usize = 0;
    while i < args.len()
        invariant
            i <= args@.len(),
            a == arg_texts(args@),
            forall|j: int| 0 <= j < i ==> !is_recording_name(a[j]),
        decreases args@.len() - i,
    {
        if recording_name(args[i].as_str()) {
            proof {
                let ii = i as int;
                assert(is_recording_name(a[ii]));
                let c = choose|k: int| 0 <= k < a.len() && is_recording_name(a[k]) && forall|j: int| 0 <= j < k ==> !is_recording_name(a[j]);
                assert(0 <= c < a.len() && is_recording_name(a[c]) && forall|j: int| 0 <= j < c ==> !is_recording_name(a[j]));
                if c < ii {
                    assert(!is_recording_name(a[c]));
                } else if ii < c {
                    assert(!is_recording_name(a[ii]));
                }
            }
            return args[i].clone();
        }
        i = i + 1;
    }
    String::from_str("output.mkv")
}

fn duration(args: &Vec<String>) -> (d: u64)
    ensures
        d == spec_duration(arg_texts(args@)),
{
    match find_arg(args, "--duration") {
        Some(i) => {
            if i + 1 < args.len() {
                match parse_u64(args[i + 1].as_str()) {
                    Some(v) => v,
                    None => 10,
                }
            } else {
                10
            }
        },
        None => 10,
    }
}

/// Reads the command line `args` (the program name first, as the system
/// passes it).
pub fn parse_cli(args: &Vec<String>) -> (r: Result<CliCommand, CliError>)
    ensures
        ({
            let a = arg_texts(args@);
            let audio = first_position(a, "--audio-test"@) is Some;
            let video = first_position(a, "--video-test"@) is Some;
            let solve = first_position(a, "solve"@);
            let render = first_position(a, "render"@);
            &&& audio ==> (r matches Ok(CliCommand::AudioTest))
            &&& !audio && video ==> (r matches Ok(CliCommand::VideoTest { dump_frame })
                && dump_frame == first_position(a, "--dump-frame"@) is Some)
            &&& solve matches Some(i) ==> (!audio && !video ==> match arg_after(a, i, 1) {
                Some(log) => (r matches Ok(CliCommand::Solve { log_file }) && log_file@ == log),
                None => r == Err::<CliCommand, CliError>(CliError::MissingSolveLog),
            })
            &&& render matches Some(i) ==> (!audio && !video && solve is None ==> match (arg_after(a, i, 1), arg_after(a, i, 2), arg_after(a, i, 3)) {
                (Some(v), Some(l), Some(o)) => (r matches Ok(CliCommand::Render { input_video, input_log, output_video })
                    && input_video@ == v && input_log@ == l && output_video@ == o),
                (None, _, _) => r == Err::<CliCommand, CliError>(CliError::MissingRenderInput),
                (Some(_), None, _) => r == Err::<CliCommand, CliError>(CliError::MissingRenderLog),
                (Some(_), Some(_), None) => r == Err::<CliCommand, CliError>(CliError::MissingRenderOutput),
            })
            &&& !audio && !video && solve is None && render is None ==> (r matches Ok(CliCommand::Record { output_file, duration_secs })
                && output_file@ == spec_output_file(a) && duration_secs == spec_duration(a))
        }),
{
    let ghost a = arg_texts(args@);
    if find_arg(args, "--audio-test").is_some() {
        return Ok(CliCommand::AudioTest);
    }
    if find_arg(args, "--video-test").is_some() {
        let dump_frame = find_arg(args, "--dump-frame").is_some();
        return Ok(CliCommand::VideoTest { dump_frame });
    }
    match find_arg(args, "solve") {
        Some(i) => {
            if i + 1 < args.len() {
                return Ok(CliCommand::Solve { log_file: args[i + 1].clone() });
            } else {
                return Err(CliError::MissingSolveLog);
            }
        },
        None => {},
    }
    match find_arg(args, "render") {
        Some(i) => {
            if i + 1 >= args.len() {
                return Err(CliError::MissingRenderInput);
            }
            if i + 2 >= args.len() {
                return Err(CliError::MissingRenderLog);
            }
            if i + 3 >= args.len() {
                return Err(CliError::MissingRenderOutput);
            }
            return Ok(CliCommand::Render {
                input_video: args[i + 1].clone(),
                input_log: args[i + 2].clone(),
                output_video: args[i + 3].clone(),
            });
        },
        None => {},
    }
    Ok(CliCommand::Record { output_file: output_file(args), duration_secs: duration(args) })
}

} // verus!
