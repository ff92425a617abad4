use registry_conformance::{expect_failure, expect_success, CommandError, CommandOutput, RawOutput};

fn raw(success: bool) -> RawOutput {
    RawOutput { success, stdout: b"out \xc3\xa9".to_vec(), stderr: b"err \xff!".to_vec() }
}

#[test]
fn bytes_become_text() {
    let output = CommandOutput::from(&raw(true));
    assert_eq!(output.stdout, "out \u{e9}");
    assert_eq!(output.stderr, "err \u{fffd}!");
}

#[test]
fn a_success_that_was_expected() {
    let output = expect_success::<()>(Ok(raw(true))).unwrap();
    assert_eq!(output.stdout, "out \u{e9}");
    assert_eq!(output.stderr, "err \u{fffd}!");
}

#[test]
fn a_failure_that_was_not_expected() {
    let error = expect_success::<()>(Ok(raw(false))).unwrap_err();
    assert!(matches!(error, CommandError::ErrorExit { .. }));
    assert_eq!(
        error.message(""),
        "The command failed.\nstdout:\nout \u{e9}\nstderr:\nerr \u{fffd}!"
    );
}

#[test]
fn a_failure_that_was_expected() {
    let output = expect_failure::<()>(Ok(raw(false))).unwrap();
    assert_eq!(output.stdout, "out \u{e9}");
}

#[test]
fn a_success_that_was_not_expected() {
    let error = expect_failure::<()>(Ok(raw(true))).unwrap_err();
    assert!(matches!(error, CommandError::SuccessExit { .. }));
    assert_eq!(
        error.message(""),
        "The command succeeded.\nstdout:\nout \u{e9}\nstderr:\nerr \u{fffd}!"
    );
}

#[test]
fn a_command_that_cannot_be_run() {
    let error = expect_success(Err("no such file")).unwrap_err();
    assert!(matches!(error, CommandError::Output { source: "no such file" }));
    assert_eq!(error.message("no such file"), "no such file");
    assert!(matches!(expect_failure(Err(3)).unwrap_err(), CommandError::Output { source: 3 }));
}

#[test]
fn the_judgement_of_given_output() {
    let output = || CommandOutput { stdout: "o".to_owned(), stderr: "e".to_owned() };
    assert_eq!(output().of_success::<()>(true).unwrap().stdout, "o");
    assert!(output().of_success::<()>(false).is_err());
    assert_eq!(output().of_failure::<()>(false).unwrap().stderr, "e");
    assert!(output().of_failure::<()>(true).is_err());
}
