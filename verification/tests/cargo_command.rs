use registry_conformance::{
    CargoCommand, CommandError, Crate, CreatedCrate, CreatedRegistry, EnvValue, PackageAction,
    PackageError, PackageEvent, PackageStage, RawOutput, ScratchAction, ScratchSpace,
};

fn space() -> ScratchSpace {
    let (mut stage, _) = ScratchSpace::new::<()>();
    loop {
        let (next, action) = stage.next::<()>(Ok(()));
        if let ScratchAction::Finish(result) = action {
            return result.unwrap();
        }
        stage = next;
    }
}

fn created() -> CreatedCrate {
    Crate::new("demo", "0.1.0").created(&space())
}

fn env(command: &CargoCommand) -> Vec<(String, String)> {
    command
        .env
        .iter()
        .map(|(name, value)| {
            let value = match value {
                EnvValue::Path(path) => path.parts.join("/"),
                EnvValue::Text(text) => text.clone(),
            };
            (name.clone(), value)
        })
        .collect()
}

fn pairs(pairs: &[(&str, &str)]) -> Vec<(String, String)> {
    pairs.iter().map(|(a, b)| (a.to_string(), b.to_string())).collect()
}

#[test]
fn a_plain_run() {
    let command = created().run();
    assert_eq!(command.program, "cargo");
    assert_eq!(command.current_dir.parts, ["crates", "demo", "0.1.0"]);
    assert_eq!(command.args, ["run"]);
    assert!(command.kill_on_drop);
    assert_eq!(
        env(&command),
        pairs(&[("CARGO_HOME", "cargo-home"), ("RUSTUP_TOOLCHAIN", "stable")])
    );
}

#[test]
fn a_call_without_a_subcommand() {
    let command = created().cargo().command();
    assert!(command.args.is_empty());
}

#[test]
fn a_run_that_heeds_the_rust_version() {
    let created = created();
    let command = created
        .cargo()
        .use_nightly()
        .enable_msrv_resolver()
        .run()
        .append_arg("--release")
        .append_arg("--quiet")
        .command();
    assert_eq!(command.args, ["run", "--release", "--quiet", "-Zmsrv-policy"]);
    assert_eq!(
        env(&command),
        pairs(&[
            ("CARGO_HOME", "cargo-home"),
            ("RUSTUP_TOOLCHAIN", "nightly"),
            ("CARGO_RESOLVER_SOMETHING_LIKE_PRECEDENCE", "something-like-rust-version"),
        ])
    );
}

#[test]
fn a_run_with_a_login() {
    let reg = CreatedRegistry::new("mine", "http://localhost");
    let created = created();
    let command =
        created.cargo().basic_auth_credentials(&reg, "admin", "baseball123").run().command();
    assert_eq!(
        env(&command)[2],
        (
            "CARGO_REGISTRIES_MINE_TOKEN".to_owned(),
            "Basic YWRtaW46YmFzZWJhbGwxMjM=".to_owned()
        )
    );
    let command = created.cargo().basic_auth_credentials(&reg, "\u{e9}", "").run().command();
    assert_eq!(env(&command)[2].1, "Basic w6k6");
}

fn token(username: &str, password: &str) -> String {
    let reg = CreatedRegistry::new("mine", "http://localhost");
    let created = created();
    let command = created.cargo().basic_auth_credentials(&reg, username, password).command();
    env(&command).pop().unwrap().1
}

#[test]
fn logins_in_base64() {
    assert_eq!(token("", ""), "Basic Og==");
    assert_eq!(token("a", ""), "Basic YTo=");
    assert_eq!(token("a", "b"), "Basic YTpi");
    assert_eq!(token("~~~???", ""), "Basic fn5+Pz8/Og==");
    assert_eq!(token("", "0Zz"), "Basic OjBaeg==");
    for groups in [255, 256, 257, 600] {
        let expected = format!("Basic {}Og==", "YWFh".repeat(groups));
        assert_eq!(token(&"aaa".repeat(groups), ""), expected);
    }
}

#[test]
fn a_run_with_a_token() {
    let reg = CreatedRegistry::new("my-Own_1", "http://localhost");
    let created = created();
    let command = created.cargo().with_token(&reg, "secret".to_owned()).command();
    assert_eq!(
        env(&command)[2],
        ("CARGO_REGISTRIES_MY-OWN_1_TOKEN".to_owned(), "secret".to_owned())
    );
}

#[test]
fn packaging() {
    let created = created();
    let (stage, action) = created.package::<()>();
    assert_eq!(stage, PackageStage::Executing);
    match action {
        PackageAction::Execute(command) => {
            assert_eq!(command.args, ["package", "--no-verify"]);
        }
        other => panic!("unexpected: {other:?}"),
    }
    let output = RawOutput { success: true, stdout: vec![], stderr: vec![] };
    let (stage, action) = created.package_next::<()>(stage, PackageEvent::Executed(Ok(output)));
    assert_eq!(stage, PackageStage::Looking);
    let place = ["crates", "demo", "0.1.0", "target", "package", "demo-0.1.0.crate"];
    assert!(matches!(action, PackageAction::LookFor(path) if path.parts == place));
    let (end, action) = created.package_next::<()>(stage, PackageEvent::Exists(true));
    assert_eq!(end, PackageStage::Finished);
    assert!(matches!(action, PackageAction::Finish(Ok(path)) if path.parts == place));
    let (_, action) = created.package_next::<()>(stage, PackageEvent::Exists(false));
    match action {
        PackageAction::Finish(Err(error)) => {
            assert_eq!(error.path().unwrap().parts, place);
            assert_eq!(error.message("/p"), "The package file `/p` was not created");
            assert!(matches!(error, PackageError::Missing { .. }));
        }
        other => panic!("unexpected: {other:?}"),
    }
}

#[test]
fn packaging_that_fails() {
    let created = created();
    let output = RawOutput { success: false, stdout: vec![], stderr: b"no".to_vec() };
    let event = PackageEvent::<u8>::Executed(Ok(output));
    match created.package_next(PackageStage::Executing, event) {
        (PackageStage::Finished, PackageAction::Finish(Err(error))) => {
            assert!(error.path().is_none());
            assert_eq!(error.message(""), "Could not run `cargo package`");
            assert!(matches!(
                error,
                PackageError::Execution { source: CommandError::ErrorExit { stderr, .. } }
                    if stderr == "no"
            ));
        }
        other => panic!("unexpected: {other:?}"),
    }
    let event = PackageEvent::Executed(Err(5));
    match created.package_next(PackageStage::Executing, event) {
        (_, PackageAction::Finish(Err(PackageError::Execution { source }))) => {
            assert!(matches!(source, CommandError::Output { source: 5 }));
        }
        other => panic!("unexpected: {other:?}"),
    }
}
