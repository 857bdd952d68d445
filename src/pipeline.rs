//! The pipeline orchestrator: error taxonomy, status events, and the rules
//! that sequence the stages of a run.

use vstd::prelude::*;
use crate::command::{CommandError, CommandOutput, ErrorModel};
use crate::formats::{is_supported_format, supported_path};
use crate::exposure::kept;
use crate::text::{
    concat, decimal, four_digit_text, four_digits, join_path, joined, signed_decimal,
    signed_decimal_text, trim_text, trimmed, two_digit_text, two_digits,
};

verus! {

/// Why a pipeline run failed.
#[derive(Debug, Clone)]
pub enum PipelineError {
    /// An external command failed.
    Command { error: CommandError },
    /// A caller-supplied parameter is unusable.
    InvalidInput { field: String, value: String },
    /// A failure not tied to one external command.
    Processing { message: String },
    /// The observer could not be notified.
    Event { message: String },
}

/// Mathematical model of a [`PipelineError`].
pub enum PipelineErrorModel {
    Command(ErrorModel),
    InvalidInput { field: Seq<char>, value: Seq<char> },
    Processing(Seq<char>),
    Event(Seq<char>),
}

impl View for PipelineError {
    type V = PipelineErrorModel;

    open spec fn view(&self) -> PipelineErrorModel {
        match self {
            PipelineError::Command { error } => PipelineErrorModel::Command(error@),
            PipelineError::InvalidInput { field, value } => PipelineErrorModel::InvalidInput {
                field: field@,
                value: value@,
            },
            PipelineError::Processing { message } => PipelineErrorModel::Processing(message@),
            PipelineError::Event { message } => PipelineErrorModel::Event(message@),
        }
    }
}

impl From<CommandError> for PipelineError {
    fn from(error: CommandError) -> (r: Self)
        ensures
            r == (PipelineError::Command { error }),
    {
        PipelineError::Command { error }
    }
}

impl vstd::std_specs::convert::FromSpecImpl<CommandError> for PipelineError {
    open spec fn obeys_from_spec() -> bool {
        true
    }

    open spec fn from_spec(error: CommandError) -> PipelineError {
        PipelineError::Command { error }
    }
}

/// The kind of a status event.
#[derive(Debug, Clone, Copy, PartialEq, Eq, Structural)]
pub enum PipelineStatusKind {
    Step,
    Progress,
    Warning,
    Error,
    Done,
}

/// What the glare evaluation gave: its value, and a warning when the tool
/// failed but still printed a value.
#[derive(Debug, Clone)]
pub struct EvalglareResult {
    pub value: String,
    pub warning: Option<String>,
}

/// The text of an optional exit code as debugging output shows it.
pub open spec fn code_text(code: Option<i32>) -> Seq<char> {
    match code {
        Some(c) => "Some("@ + signed_decimal(c as int) + ")"@,
        None => "None"@,
    }
}

fn code_text_of(code: Option<i32>) -> (r: String)
    ensures
        r@ == code_text(code),
{
    match code {
        Some(c) => concat("Some(", signed_decimal_text(c).as_str()).concat(")"),
        None => String::from_str("None"),
    }
}

/// The warning for a glare evaluation that exited with `code` but printed
/// a value; `err` is its trimmed stderr.
pub open spec fn glare_warning(code: Option<i32>, err: Seq<char>) -> Seq<char> {
    if err.len() == 0 {
        "evalglare exited with status "@ + code_text(code) + "; using returned value."@
    } else {
        "evalglare exited with status "@ + code_text(code) + "; stderr: "@ + err
    }
}

/// Interprets the outcome of the glare evaluation. Success gives its
/// stdout. A non-zero exit that still printed something other than white
/// space is recovered: that output is the value, with a warning. Any other
/// failure is the run's error.
pub fn evalglare_result(outcome: Result<CommandOutput, CommandError>) -> (r: Result<
    EvalglareResult,
    PipelineError,
>)
    ensures
        match outcome {
            Ok(out) => r matches Ok(g) && g.value@ == out.stdout@ && g.warning is None,
            Err(CommandError::NonZeroExit { status_code, stdout, stderr, .. }) if trimmed(stdout@).len()
                > 0 => r matches Ok(g) && g.value@ == stdout@ && (g.warning matches Some(w) && w@
                == glare_warning(status_code, trimmed(stderr@))),
            Err(e) => r matches Err(PipelineError::Command { error }) && error@ == e@,
        },
{
    match outcome {
        Ok(out) => Ok(EvalglareResult { value: out.stdout, warning: None }),
        Err(error) => {
            match error {
                CommandError::NonZeroExit { program, args, status_code, stdout, stderr } => {
                    if trim_text(stdout.as_str()).unicode_len() > 0 {
                        let err = trim_text(stderr.as_str());
                        let head = concat("evalglare exited with status ", code_text_of(status_code).as_str());
                        let warning = if err.unicode_len() == 0 {
                            head.concat("; using returned value.")
                        } else {
                            head.concat("; stderr: ").concat(err.as_str())
                        };
                        Ok(EvalglareResult { value: stdout, warning: Some(warning) })
                    } else {
                        Err(
                            PipelineError::Command {
                                error: CommandError::NonZeroExit { program, args, status_code, stdout, stderr },
                            },
                        )
                    }
                },
                other => Err(PipelineError::Command { error: other }),
            }
        },
    }
}

/// A local date and time.
#[derive(Debug, Clone, Copy)]
pub struct Timestamp {
    pub year: i32,
    pub month: u32,
    pub day: u32,
    pub hour: u32,
    pub minute: u32,
    pub second: u32,
}

/// The year as the date format writes it: four digits at least, with a
/// sign outside the years 0 to 9999.
pub open spec fn year_text(y: int) -> Seq<char> {
    if y < 0 {
        "-"@ + four_digits((-y) as nat)
    } else if y > 9999 {
        "+"@ + decimal(y as nat)
    } else {
        four_digits(y as nat)
    }
}

/// The stamp written into output names: `YYYY-MM-DD_HH-MM-SS`.
pub open spec fn timestamp_text(t: Timestamp) -> Seq<char> {
    year_text(t.year as int) + "-"@ + two_digits(t.month as nat) + "-"@ + two_digits(t.day as nat)
        + "_"@ + two_digits(t.hour as nat) + "-"@ + two_digits(t.minute as nat) + "-"@
        + two_digits(t.second as nat)
}

/// Renders a timestamp as [`timestamp_text`] says.
pub fn format_timestamp(t: Timestamp) -> (r: String)
    ensures
        r@ == timestamp_text(t),
{
    let year = if t.year < 0 {
        let m: u32 = if t.year == i32::MIN { 2147483648u32 } else { (-t.year) as u32 };
        concat("-", four_digit_text(m).as_str())
    } else if t.year > 9999 {
        concat("+", signed_decimal_text(t.year).as_str())
    } else {
        four_digit_text(t.year as u32)
    };
    year.concat("-").concat(two_digit_text(t.month).as_str()).concat("-").concat(
        two_digit_text(t.day).as_str(),
    ).concat("_").concat(two_digit_text(t.hour).as_str()).concat("-").concat(
        two_digit_text(t.minute).as_str(),
    ).concat("-").concat(two_digit_text(t.second).as_str())
}

/// The two final files of a scene, named after `t`, in `output_dir`:
/// `<prefix><stamp>.hdr` and `<prefix><stamp>_fc.hdr`, where the prefix is
/// `<base>_` in batch mode and empty otherwise.
pub open spec fn output_names(output_dir: Seq<char>, base: Option<Seq<char>>, t: Timestamp) -> (Seq<char>, Seq<char>) {
    let stem = match base {
        Some(b) => b + "_"@ + timestamp_text(t),
        None => timestamp_text(t),
    };
    (joined(output_dir, stem + ".hdr"@), joined(output_dir, stem + "_fc.hdr"@))
}

/// The view of an optional base name.
pub open spec fn prefix_view(base: Option<&str>) -> Option<Seq<char>> {
    match base {
        Some(b) => Some(b@),
        None => None,
    }
}

/// The final file names of a scene finished at `t`.
pub fn output_file_names(output_dir: &str, base: Option<&str>, t: Timestamp) -> (r: (String, String))
    ensures
        (r.0@, r.1@) == output_names(
            output_dir@,
            prefix_view(base),
            t,
        ),
{
    let stamp = format_timestamp(t);
    let stem = match base {
        Some(b) => concat(b, "_").concat(stamp.as_str()),
        None => stamp,
    };
    let hdr = stem.clone().concat(".hdr");
    let fc = stem.concat("_fc.hdr");
    (join_path(output_dir, hdr.as_str()), join_path(output_dir, fc.as_str()))
}

/// The supported images among the entries of a listing, in order.
pub open spec fn supported_entries(entries: Seq<Seq<char>>) -> Seq<Seq<char>> {
    kept(entries, Seq::new(entries.len(), |i: int| supported_path(entries[i])))
}

/// The entries of a directory listing that are supported images, in order.
pub fn supported_images(entries: &Vec<String>) -> (r: Vec<String>)
    ensures
        r.deep_view() == supported_entries(entries.deep_view()),
{
    let mut flags: Vec<bool> = Vec::new();
    let mut i: usize = 0;
    while i < entries.len()
        invariant
            i <= entries@.len(),
            flags@.len() == i,
            forall|k: int| 0 <= k < i ==> #[trigger] flags@[k] == supported_path(entries@[k]@),
        decreases entries.len() - i,
    {
        flags.push(is_supported_format(entries[i].as_str()));
        i = i + 1;
    }
    assert(flags@ =~= Seq::new(
        entries.deep_view().len(),
        |i: int| supported_path(entries.deep_view()[i]),
    ));
    crate::exposure::keep_flagged(entries, &flags)
}

/// Progress, in percent, after `done` of `total` steps, rounded to the
/// nearest integer.
pub open spec fn progress_percent(done: nat, total: nat) -> nat {
    (done * 100 + total / 2) / total
}

/// Rounded progress never exceeds 100 percent.
pub proof fn lemma_progress_bound(done: int, total: int)
    requires
        0 <= done <= total,
        0 < total,
    ensures
        (done * 100 + total / 2) / total <= 100,
{
    assert(done * 100 + total / 2 < total * 101) by (nonlinear_arith)
        requires 0 <= done <= total, 0 < total;
    vstd::arithmetic::div_mod::lemma_div_is_ordered(done * 100 + total / 2, total * 101 - 1, total);
    vstd::arithmetic::div_mod::lemma_fundamental_div_mod_converse(total * 101 - 1, total, 100, total - 1);
}

/// Progress in percent after `done` of `total` steps.
pub fn progress_of(done: u128, total: u128) -> (r: u32)
    requires
        0 < total <= 0xffff_ffff_ffff_ffff_ffff,
        done <= total,
    ensures
        r == progress_percent(done as nat, total as nat),
        r <= 100,
{
    assert(done * 100 <= total * 100) by (nonlinear_arith)
        requires done <= total;
    assert(total * 100 <= 0xffff_ffff_ffff_ffff_ffff * 100) by (nonlinear_arith)
        requires total <= 0xffff_ffff_ffff_ffff_ffff;
    let r = (done * 100 + total / 2) / total;
    proof {
        lemma_progress_bound(done as int, total as int);
    }
    r as u32
}

} // verus!
