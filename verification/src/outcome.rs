//! What a run of the tool left behind, and what it means.

use crate::lines::{has_no_line_feed, text_lines, without_final_cr, written};
use crate::lines::{lemma_lines_of_written, try_vec_u8_to_vec_string, vec_u8_to_vec_string};
use vstd::prelude::*;
use vstd::utf8::{decode_utf8, encode_utf8, valid_utf8};
use vstd::utf8::{encode_utf8_decode_utf8, encode_utf8_valid_utf8};

verus! {

/// The result of one operation.
pub type FResult = Result<Output, FlipsError>;

/// The text the tool wrote, line by line.
#[derive(Debug)]
pub struct Output {
    pub stdout: Vec<String>,
    pub stderr: Vec<String>,
}

/// An [`Output`] as two sequences of lines.
pub struct OutputView {
    pub stdout: Seq<Seq<char>>,
    pub stderr: Seq<Seq<char>>,
}

impl View for Output {
    type V = OutputView;

    open spec fn view(&self) -> OutputView {
        OutputView { stdout: self.stdout.deep_view(), stderr: self.stderr.deep_view() }
    }
}

/// Why an operation did not succeed.
#[derive(Debug)]
pub enum FlipsError {
    /// There is no file at the configured tool path. Nothing was run.
    FlipsMissing { flips_path: String },
    /// The tool could not be run, in which case there is neither output nor
    /// exit code, or it ran and did not exit with code zero.
    OperationFailed { output: Option<Output>, exit_code: Option<i32> },
}

/// A [`FlipsError`] with its text as sequences of characters.
pub enum FlipsErrorView {
    FlipsMissing { flips_path: Seq<char> },
    OperationFailed { output: Option<OutputView>, exit_code: Option<i32> },
}

impl View for FlipsError {
    type V = FlipsErrorView;

    open spec fn view(&self) -> FlipsErrorView {
        match self {
            FlipsError::FlipsMissing { flips_path } => FlipsErrorView::FlipsMissing {
                flips_path: flips_path@,
            },
            FlipsError::OperationFailed { output, exit_code } => FlipsErrorView::OperationFailed {
                output: match output {
                    Some(o) => Some(o@),
                    None => None,
                },
                exit_code: *exit_code,
            },
        }
    }
}

/// An [`FResult`] with both sides viewed.
pub open spec fn result_view(r: FResult) -> Result<OutputView, FlipsErrorView> {
    match r {
        Ok(output) => Ok(output@),
        Err(error) => Err(error@),
    }
}

/// What was collected from a process that ran to its end: the bytes it wrote
/// to each stream, and its exit code if it exited with one.
#[derive(Debug)]
pub struct Captured {
    pub stdout: Vec<u8>,
    pub stderr: Vec<u8>,
    pub exit_code: Option<i32>,
}

impl Captured {
    /// Both streams hold well-formed UTF-8.
    pub open spec fn is_text(&self) -> bool {
        valid_utf8(self.stdout@) && valid_utf8(self.stderr@)
    }

    /// The lines of both streams.
    pub open spec fn output(&self) -> OutputView {
        OutputView {
            stdout: text_lines(decode_utf8(self.stdout@)),
            stderr: text_lines(decode_utf8(self.stderr@)),
        }
    }
}

/// The result that a run stands for; `None` is a process that could not be
/// started or waited for.
///
/// Exit code zero is success and carries the lines of both streams. Any
/// other end of the process is `OperationFailed` with the same lines and the
/// exit code as it was reported. A process that never ran is
/// `OperationFailed` with nothing in it.
pub open spec fn result_of(run: Option<Captured>) -> Result<OutputView, FlipsErrorView> {
    match run {
        None => Err(FlipsErrorView::OperationFailed { output: None, exit_code: None }),
        Some(captured) => if captured.exit_code == Some(0i32) {
            Ok(captured.output())
        } else {
            Err(
                FlipsErrorView::OperationFailed {
                    output: Some(captured.output()),
                    exit_code: captured.exit_code,
                },
            )
        },
    }
}

/// `lines` can be written one per line and read back: none holds a line feed,
/// and none that is written with a bare line feed ends in a carriage return.
pub open spec fn writable(lines: Seq<Seq<char>>, ending: Seq<char>) -> bool {
    &&& forall|i: int| 0 <= i < lines.len() ==> has_no_line_feed(#[trigger] lines[i])
    &&& ending == seq!['\n'] ==> forall|i: int|
        0 <= i < lines.len() ==> without_final_cr(#[trigger] lines[i]) == lines[i]
}

/// What the tool wrote is what comes back. When the process wrote
/// `out_lines` to its standard output and `err_lines` to its standard error,
/// in UTF-8 and each line followed by `ending` (a line feed, or a carriage
/// return and a line feed), the run stands for a result with exactly those
/// lines in that order: success if the exit code is zero, and otherwise
/// `OperationFailed` with the lines and the exit code as it was reported.
pub proof fn lemma_result_carries_written_lines(
    captured: Captured,
    out_lines: Seq<Seq<char>>,
    err_lines: Seq<Seq<char>>,
    ending: Seq<char>,
)
    requires
        ending == seq!['\n'] || ending == seq!['\r', '\n'],
        writable(out_lines, ending),
        writable(err_lines, ending),
        captured.stdout@ == encode_utf8(written(out_lines, ending)),
        captured.stderr@ == encode_utf8(written(err_lines, ending)),
    ensures
        captured.is_text(),
        captured.exit_code == Some(0i32) ==> result_of(Some(captured)) == Ok::<
            OutputView,
            FlipsErrorView,
        >((OutputView { stdout: out_lines, stderr: err_lines })),
        captured.exit_code != Some(0i32) ==> result_of(Some(captured)) == Err::<
            OutputView,
            FlipsErrorView,
        >(
            (FlipsErrorView::OperationFailed {
                output: Some((OutputView { stdout: out_lines, stderr: err_lines })),
                exit_code: captured.exit_code,
            }),
        ),
{
    let out_text = written(out_lines, ending);
    let err_text = written(err_lines, ending);
    encode_utf8_valid_utf8(out_text);
    encode_utf8_valid_utf8(err_text);
    encode_utf8_decode_utf8(out_text);
    encode_utf8_decode_utf8(err_text);
    lemma_lines_of_written(out_lines, ending, Seq::empty());
    lemma_lines_of_written(err_lines, ending, Seq::empty());
}

/// The result for a process that ended with `exit_code` after writing
/// `output`.
fn ended(exit_code: Option<i32>, output: Output) -> (r: FResult)
    ensures
        exit_code == Some(0i32) ==> result_view(r) == Ok::<OutputView, FlipsErrorView>(output@),
        exit_code != Some(0i32) ==> result_view(r) == Err::<OutputView, FlipsErrorView>(
            (FlipsErrorView::OperationFailed { output: Some(output@), exit_code }),
        ),
{
    match exit_code {
        Some(0) => Ok(output),
        _ => Err(FlipsError::OperationFailed { output: Some(output), exit_code }),
    }
}

/// Turns what a run left behind into the operation's result, as
/// [`result_of`] defines it. Both streams must hold text.
pub fn map_result(run: Option<Captured>) -> (r: FResult)
    requires
        run matches Some(captured) ==> captured.is_text(),
    ensures
        result_view(r) == result_of(run),
{
    match run {
        Some(captured) => {
            let output = Output {
                stdout: vec_u8_to_vec_string(captured.stdout),
                stderr: vec_u8_to_vec_string(captured.stderr),
            };
            ended(captured.exit_code, output)
        },
        None => Err(FlipsError::OperationFailed { output: None, exit_code: None }),
    }
}

/// As [`map_result`], for streams that may hold anything: `None` if the
/// process ran and one of its streams is not well-formed UTF-8, and the
/// operation's result otherwise.
pub fn try_map_result(run: Option<Captured>) -> (r: Option<FResult>)
    ensures
        r is Some <==> (run matches Some(captured) ==> captured.is_text()),
        r matches Some(result) ==> result_view(result) == result_of(run),
{
    match run {
        Some(captured) => {
            let stdout = match try_vec_u8_to_vec_string(captured.stdout) {
                Some(lines) => lines,
                None => {
                    return None;
                },
            };
            let stderr = match try_vec_u8_to_vec_string(captured.stderr) {
                Some(lines) => lines,
                None => {
                    return None;
                },
            };
            Some(ended(captured.exit_code, Output { stdout, stderr }))
        },
        None => Some(Err(FlipsError::OperationFailed { output: None, exit_code: None })),
    }
}

} // verus!
