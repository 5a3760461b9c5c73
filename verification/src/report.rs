use vstd::prelude::*;

use crate::filter::filter;
use crate::filter::filter_frames;
use crate::frame::Frame;
use crate::pattern::Pattern;
use crate::render::render;
use crate::render::render_text;

verus! {

#[verifier::external_type_specification]
#[verifier::external_body]
pub struct ExBtparseError(btparse::Error);

#[verifier::external_type_specification]
#[verifier::external_body]
pub struct ExIoError(std::io::Error);

#[verifier::external_type_specification]
#[verifier::external_body]
pub struct ExBacktrace(std::backtrace::Backtrace);

/// Why a report could not be produced: the captured trace could not be
/// parsed into frames, or the output sink rejected a write.
#[derive(Debug)]
pub enum ReportError {
    BacktraceParsing(btparse::Error),
    IO(std::io::Error),
}

/// An error value that may carry a captured stack trace, attached by its
/// producer at construction time. The locator asks the value itself; it
/// never parses or inspects the capture.
pub trait TracedError {
    /// Whether a capture was attached to this value.
    spec fn has_capture(&self) -> bool;

    /// The attached capture, if the producer of this value attached one.
    fn get_attached_trace(&self) -> (r: Option<&std::backtrace::Backtrace>)
        ensures
            r is Some <==> self.has_capture(),
    ;
}

/// Look up the capture attached to an error value, if any. Purely a read:
/// it neither fails nor inspects the capture's contents, and it asks only
/// the value it is given, not any chained cause.
pub fn backtrace<E: TracedError>(err: &E) -> (r: Option<&std::backtrace::Backtrace>)
    ensures
        r is Some <==> err.has_capture(),
{
    err.get_attached_trace()
}

/// Turn the outcome of the external locate and parse steps into the report.
/// No capture located is a no-op success: the empty text. Parsed frames are
/// filtered against the two blocklists and the survivors rendered. A parse
/// failure is passed on as [`ReportError::BacktraceParsing`]; nothing else
/// fails.
pub fn render_outcome(
    outcome: Option<Result<Vec<Frame>, btparse::Error>>,
    name_blocklist: &[Pattern],
    file_blocklist: &[Pattern],
) -> (r: Result<String, ReportError>)
    ensures
        outcome is None ==> (r matches Ok(text) && text@ == Seq::<char>::empty()),
        outcome matches Some(Ok(frames)) ==> (r matches Ok(text) && text@ == render_text(
            filter_frames(frames.deep_view(), name_blocklist.deep_view(), file_blocklist.deep_view()),
        )),
        r is Err <==> (outcome matches Some(parsed) && parsed is Err),
        r is Err ==> r->Err_0 is BacktraceParsing,
{
    match outcome {
        None => Ok(String::new()),
        Some(Ok(frames)) => {
            let kept = filter(&frames, name_blocklist, file_blocklist);
            Ok(render(&kept))
        },
        Some(Err(e)) => Err(ReportError::BacktraceParsing(e)),
    }
}

} // verus!
