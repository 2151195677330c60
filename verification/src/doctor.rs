//! `effigy doctor`: the exit behaviour of a health report.
use vstd::prelude::*;
use crate::error::RunnerError;

verus! {

/// The doctor's answer: the rendered report, or, when it found errors, a
/// failure that carries the count and the same rendering.
pub fn render_doctor_result(rendered: String, error_count: usize) -> (r: Result<String, RunnerError>)
    ensures
        error_count == 0 ==> r == Ok::<String, RunnerError>(rendered),
        error_count > 0 ==> (r matches Err(RunnerError::DoctorNonZero { error_count: n, rendered: t })
            && n == error_count && t == rendered),
{
    if error_count > 0 {
        return Err(RunnerError::DoctorNonZero { error_count, rendered });
    }
    Ok(rendered)
}

/// `effigy doctor`: an `--explain` request is answered by `explain`;
/// otherwise the health workflow runs (`workflow` gives the report and its
/// error count), the report is rendered (`render`), and errors make the
/// answer a failure.
pub fn run_doctor<
    T,
    X: FnOnce() -> Result<String, RunnerError>,
    W: FnOnce() -> Result<(T, usize), RunnerError>,
    R: FnOnce(&T) -> Result<String, RunnerError>,
>(explain_requested: bool, explain: X, workflow: W, render: R) -> (r: Result<String, RunnerError>)
    requires
        explain.requires(()),
        workflow.requires(()),
        forall|t: &T| render.requires((t,)),
    ensures
        explain_requested ==> explain.ensures((), r),
        !explain_requested ==> match r {
            Ok(s) => exists|t: T|
                #[trigger] workflow.ensures((), Ok((t, 0usize))) && render.ensures((&t,), Ok(s)),
            Err(e) => {
                ||| workflow.ensures((), Err(e))
                ||| exists|t: T, n: usize| #[trigger] workflow.ensures((), Ok((t, n))) && render.ensures((&t,), Err(e))
                ||| exists|t: T, n: usize|
                    #[trigger] workflow.ensures((), Ok((t, n))) && n > 0 && (e matches RunnerError::DoctorNonZero {
                        error_count,
                        rendered,
                    } && error_count == n && render.ensures((&t,), Ok(rendered)))
            },
        },
{
    if explain_requested {
        return explain();
    }
    let (report, error_count) = match workflow() {
        Ok(out) => out,
        Err(e) => return Err(e),
    };
    let rendered = match render(&report) {
        Ok(t) => t,
        Err(e) => return Err(e),
    };
    render_doctor_result(rendered, error_count)
}

} // verus!
