//! Laws that hold of argument assembly and outcome classification.

use crate::invocation::{argument_vector, leading_arguments, mode_flag, selector_flag};
use crate::outcome::{
    exit_is_success, launch_error_prefix, launch_error_text, outcome_of_report,
    result_of_outcome, OutcomeView, ReportView,
};
use vstd::prelude::*;
use vstd::utf8::{encode_utf8, encode_utf8_decode_utf8, encode_utf8_valid_utf8};

verus! {

/// A process that exits with status zero after writing the text `output`
/// to standard output yields success with exactly that text, whatever it
/// wrote to standard error.
pub proof fn law_zero_exit_yields_output(output: Seq<char>, stderr: Seq<u8>)
    ensures
        outcome_of_report(
            ReportView::Completed { exit_code: Some(0i32), stdout: encode_utf8(output), stderr },
        ) == OutcomeView::Success(output),
{
    encode_utf8_valid_utf8(output);
    encode_utf8_decode_utf8(output);
}

/// A process that could not be started yields a launch error, and nothing
/// else does: success and failure come only from processes that ran.
pub proof fn law_launch_error_iff_not_started(report: ReportView)
    ensures
        outcome_of_report(report) is LaunchError <==> report is NotStarted,
        report is Completed ==> (outcome_of_report(report) is Success <==> exit_is_success(
            report->exit_code,
        )),
        report is Completed ==> (outcome_of_report(report) is Failure <==> !exit_is_success(
            report->exit_code,
        )),
{
}

/// A process that ends in any way but status zero after writing the text
/// `error` to standard error yields failure with exactly that text,
/// whatever it wrote to standard output.
pub proof fn law_nonzero_exit_yields_error(
    exit_code: Option<i32>,
    stdout: Seq<u8>,
    error: Seq<char>,
)
    requires
        exit_code != Some(0i32),
    ensures
        outcome_of_report(ReportView::Completed { exit_code, stdout, stderr: encode_utf8(error) })
            == OutcomeView::Failure(error),
{
    encode_utf8_valid_utf8(error);
    encode_utf8_decode_utf8(error);
}

/// The value of a non-zero exit code is not kept: two processes that fail
/// with the same standard error yield the same outcome, whatever their exit
/// codes and standard outputs were.
pub proof fn law_exit_code_value_is_dropped(
    first_code: Option<i32>,
    first_stdout: Seq<u8>,
    second_code: Option<i32>,
    second_stdout: Seq<u8>,
    stderr: Seq<u8>,
)
    requires
        first_code != Some(0i32),
        second_code != Some(0i32),
    ensures
        outcome_of_report(
            ReportView::Completed { exit_code: first_code, stdout: first_stdout, stderr },
        ) == outcome_of_report(
            ReportView::Completed { exit_code: second_code, stdout: second_stdout, stderr },
        ),
{
}

/// The argument vector is the three leading arguments followed by the
/// caller's arguments, each at its own place and in the caller's order.
pub proof fn law_passthrough_order_is_kept(target_id: Seq<char>, passthrough: Seq<Seq<char>>)
    ensures
        argument_vector(target_id, passthrough).len() == 3 + passthrough.len(),
        argument_vector(target_id, passthrough)[0] == selector_flag(),
        argument_vector(target_id, passthrough)[1] == target_id,
        argument_vector(target_id, passthrough)[2] == mode_flag(),
        argument_vector(target_id, passthrough).take(3) == leading_arguments(target_id),
        argument_vector(target_id, passthrough).skip(3) == passthrough,
        forall|k: int|
            0 <= k < passthrough.len() ==> #[trigger] argument_vector(target_id, passthrough)[3
                + k] == passthrough[k],
{
    let argv = argument_vector(target_id, passthrough);
    assert(argv.take(3) =~= leading_arguments(target_id));
    assert(argv.skip(3) =~= passthrough);
}

/// The message of a launch error is never empty and ends with the cause.
pub proof fn law_launch_error_message_names_cause(cause: Seq<char>)
    ensures
        launch_error_text(cause).len() == 23 + cause.len(),
        launch_error_text(cause).len() > 0,
        launch_error_text(cause).take(23) == launch_error_prefix(),
        launch_error_text(cause).skip(23) == cause,
{
    reveal_strlit("Failed to execute hdc: ");
    let text = launch_error_text(cause);
    assert(text.take(23) =~= launch_error_prefix());
    assert(text.skip(23) =~= cause);
}

/// Only success becomes `Ok`; a failure and a launch error both become
/// `Err` and keep their text.
pub proof fn law_result_is_ok_iff_success(outcome: OutcomeView)
    ensures
        result_of_outcome(outcome) is Ok <==> outcome is Success,
        outcome is Success ==> result_of_outcome(outcome) == Ok::<Seq<char>, Seq<char>>(
            outcome->Success_0,
        ),
        outcome is Failure ==> result_of_outcome(outcome) == Err::<Seq<char>, Seq<char>>(
            outcome->Failure_0,
        ),
        outcome is LaunchError ==> result_of_outcome(outcome) == Err::<Seq<char>, Seq<char>>(
            outcome->LaunchError_0,
        ),
{
}

} // verus!
