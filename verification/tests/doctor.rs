use effigy_runner::doctor::run_doctor;
use effigy_runner::error::RunnerError;

#[test]
fn doctor_explains_when_asked_without_running_checks() {
    let out = run_doctor::<(), _, _, _>(
        true,
        || Ok("explanation".to_owned()),
        || panic!("no checks"),
        |_| panic!("no render"),
    );
    assert_eq!(out.unwrap(), "explanation");
}

#[test]
fn doctor_renders_a_clean_report_and_fails_with_the_error_count() {
    let clean = run_doctor(
        false,
        || panic!("no explain"),
        || Ok(("report", 0usize)),
        |r: &&str| Ok(format!("rendered {r}")),
    );
    assert_eq!(clean.unwrap(), "rendered report");

    let failing = run_doctor(
        false,
        || panic!("no explain"),
        || Ok(("report", 2usize)),
        |r: &&str| Ok(format!("rendered {r}")),
    );
    match failing {
        Err(RunnerError::DoctorNonZero { error_count, rendered }) => {
            assert_eq!(error_count, 2);
            assert_eq!(rendered, "rendered report");
        }
        other => panic!("unexpected {other:?}"),
    }
}
