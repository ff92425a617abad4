//! What holds of every call of Cargo and of what comes of it.
use vstd::prelude::*;
#[allow(unused_imports)]
use vstd::utf8::{encode_utf8, encode_utf8_decode_utf8, encode_utf8_valid_utf8};

#[allow(unused_imports)]
use crate::cargo_command::{
    base64_group, base64_letter, base64_standard, basic_token, env_name, sets, token_variable,
    CallModel, CargoCommand, EnvModel, EnvValue, PackageAction, PackageError, PackageEvent,
};
#[allow(unused_imports)]
use crate::command::{is_shown, utf8_lossy, CommandError};
#[allow(unused_imports)]
use crate::creation::CreatedModel;

verus! {

/// The file of a package is named by the crate's name, a hyphen, its version and
/// `.crate`, every character of the name and of the version being kept. It is in
/// `target/package` below the crate's directory.
pub proof fn packages_are_named_after_their_crate(krate: CreatedModel, i: int)
    ensures
        ({
            let parts = krate.package_parts();
            let file = parts.last();
            let count = krate.name.len() as int;
            let end = count + 1 + krate.version.len() as int;
            &&& parts.len() == krate.directory.len() + 3
            &&& parts.take(krate.directory.len() as int) == krate.directory
            &&& parts[krate.directory.len() as int] == "target"@
            &&& parts[krate.directory.len() as int + 1] == "package"@
            &&& file.len() == end + ".crate"@.len()
            &&& file.take(count) == krate.name
            &&& 0 <= i < count ==> file[i] == krate.name[i]
            &&& file[count] == '-'
            &&& file.subrange(count + 1, end) == krate.version
            &&& file.skip(end) == ".crate"@
        }),
{
    reveal_strlit("-");
    let file = krate.package_parts().last();
    let count = krate.name.len() as int;
    let end = count + 1 + krate.version.len() as int;
    assert("-"@.len() == 1 && "-"@[0] == '-');
    assert(krate.package_parts().take(krate.directory.len() as int) =~= krate.directory);
    assert(file.take(count) =~= krate.name);
    assert(file.subrange(count + 1, end) =~= krate.version);
    assert(file.skip(end) =~= ".crate"@);
    if 0 <= i < count {
        assert(file.take(count)[i] == file[i]);
    }
}

/// A call starts with the crate alone, and everything that is said of it later
/// changes one thing and leaves the others.
pub proof fn calls_are_made_up_bit_by_bit(
    krate: CreatedModel,
    call: CallModel,
    registry: Seq<char>,
    text: Seq<char>,
)
    ensures
        CallModel::new(krate).krate == krate,
        CallModel::new(krate).toolchain is None,
        !CallModel::new(krate).msrv_resolver,
        CallModel::new(krate).credentials is None,
        CallModel::new(krate).command is None,
        CallModel::new(krate).args is None,
        call.use_nightly().toolchain == Some("nightly"@),
        call.use_nightly().krate == call.krate,
        call.use_nightly().msrv_resolver == call.msrv_resolver,
        call.use_nightly().credentials == call.credentials,
        call.use_nightly().command == call.command,
        call.use_nightly().args == call.args,
        call.enable_msrv_resolver().msrv_resolver,
        call.enable_msrv_resolver().krate == call.krate,
        call.enable_msrv_resolver().toolchain == call.toolchain,
        call.enable_msrv_resolver().credentials == call.credentials,
        call.enable_msrv_resolver().command == call.command,
        call.enable_msrv_resolver().args == call.args,
        call.with_token(registry, text).credentials == Some((env_name(registry), text)),
        call.with_token(registry, text).krate == call.krate,
        call.with_token(registry, text).toolchain == call.toolchain,
        call.with_token(registry, text).msrv_resolver == call.msrv_resolver,
        call.with_token(registry, text).command == call.command,
        call.with_token(registry, text).args == call.args,
        call.subcommand(text).command == Some(text),
        call.subcommand(text).krate == call.krate,
        call.subcommand(text).toolchain == call.toolchain,
        call.subcommand(text).msrv_resolver == call.msrv_resolver,
        call.subcommand(text).credentials == call.credentials,
        call.subcommand(text).args == call.args,
        call.append_arg(text).args is Some,
        call.append_arg(text).args->0.len() > 0,
        call.append_arg(text).args->0.last() == text,
        call.args is None ==> call.append_arg(text).args->0.len() == 1,
        call.args matches Some(args) ==> call.append_arg(text).args->0.drop_last() == args,
        call.append_arg(text).krate == call.krate,
        call.append_arg(text).toolchain == call.toolchain,
        call.append_arg(text).msrv_resolver == call.msrv_resolver,
        call.append_arg(text).credentials == call.credentials,
        call.append_arg(text).command == call.command,
{
    if call.args is Some {
        let args = call.args->0;
        assert(args.push(text).drop_last() =~= args);
    }
}

/// The command for a call runs Cargo in the crate's directory, and is ended when
/// nobody waits for it.
pub proof fn cargo_runs_in_the_crate(call: CallModel)
    ensures
        call.finished().program == "cargo"@,
        call.finished().current_dir == call.krate.directory,
        call.finished().env == call.env(),
        call.finished().args == call.arguments(),
        call.finished().kill_on_drop,
{
}

/// The arguments are the subcommand, if there is one, then those that were added,
/// in their order, and at last the one that lets Cargo heed versions of Rust.
pub proof fn arguments_come_in_order(call: CallModel, i: int)
    ensures
        ({
            let all = call.arguments();
            let front: int = if call.command is Some { 1 } else { 0 };
            let added: int = if call.args is Some { call.args->0.len() as int } else { 0 };
            let back: int = if call.msrv_resolver { 1 } else { 0 };
            &&& all.len() == front + added + back
            &&& call.command is Some ==> all[0] == call.command->0
            &&& 0 <= i < added ==> all[front + i] == call.args->0[i]
            &&& call.msrv_resolver ==> all.last() == "-Zmsrv-policy"@
        }),
{
}

/// A call sets Cargo's home, the toolchain, stable unless another one is asked
/// for, and the resolver's variable if and only if the resolver is asked for.
/// Beyond the token, it sets nothing else.
pub proof fn variables_say_what_was_asked(call: CallModel, name: Seq<char>)
    ensures
        call.env()[0] == ("CARGO_HOME"@, EnvModel::Path(call.krate.cargo_home)),
        call.env()[1].0 == "RUSTUP_TOOLCHAIN"@,
        call.toolchain is None ==> call.env()[1].1 == EnvModel::Text("stable"@),
        call.toolchain matches Some(toolchain) ==> call.env()[1].1 == EnvModel::Text(toolchain),
        call.msrv_resolver ==> call.env()[2] == (
            "CARGO_RESOLVER_SOMETHING_LIKE_PRECEDENCE"@,
            EnvModel::Text("something-like-rust-version"@),
        ),
        call.credentials matches Some((registry, token)) ==> call.env().last() == (
            "CARGO_REGISTRIES_"@ + registry + "_TOKEN"@,
            EnvModel::Text(token),
        ),
        call.env().len() == 2 + (if call.msrv_resolver { 1int } else { 0int })
            + (if call.credentials is Some { 1int } else { 0int }),
{
}

/// A registry's name stands in the variable with its ASCII letters in upper case
/// and every other character as it is.
pub proof fn registries_are_named_in_upper_case(registry: Seq<char>, i: int)
    ensures
        env_name(registry).len() == registry.len(),
        0 <= i < registry.len() && 'a' <= registry[i] && registry[i] <= 'z' ==> env_name(
            registry,
        )[i] as int == registry[i] as int - 32,
        0 <= i < registry.len() && !('a' <= registry[i] && registry[i] <= 'z') ==> env_name(
            registry,
        )[i] == registry[i],
        token_variable(registry) == "CARGO_REGISTRIES_"@ + registry + "_TOKEN"@,
{
}

/// The token for a login is the encoding of the user name, a colon and the
/// password, all of them kept as they are.
pub proof fn logins_are_encoded(username: Seq<char>, password: Seq<char>, login: Seq<char>)
    requires
        login.len() == username.len() + 1 + password.len(),
        login.take(username.len() as int) == username,
        login[username.len() as int] == ':',
        login.skip(username.len() as int + 1) == password,
    ensures
        basic_token(username, password) == "Basic "@ + base64_standard(encode_utf8(login)),
{
    reveal_strlit(":");
    assert(":"@.len() == 1 && ":"@[0] == ':');
    let made = username + ":"@ + password;
    assert forall|i: int| 0 <= i < login.len() implies login[i] == made[i] by {
        if i < username.len() {
            assert(login.take(username.len() as int)[i] == login[i]);
        } else if i > username.len() {
            assert(login.skip(username.len() as int + 1)[i - username.len() - 1] == login[i]);
        }
    }
    assert(login =~= made);
}

/// Bytes in groups of three are encoded group by group.
pub proof fn base64_goes_group_by_group(groups: Seq<u8>, rest: Seq<u8>)
    requires
        groups.len() % 3 == 0,
    ensures
        base64_standard(groups + rest) == base64_standard(groups) + base64_standard(rest),
    decreases groups.len(),
{
    if groups.len() == 0 {
        assert(groups + rest =~= rest);
        assert(base64_standard(groups) + base64_standard(rest) =~= base64_standard(rest));
    } else {
        let all = groups + rest;
        assert(all.skip(3) =~= groups.skip(3) + rest);
        base64_goes_group_by_group(groups.skip(3), rest);
        assert(base64_standard(all) =~= base64_standard(groups) + base64_standard(rest));
    }
}

/// The number that four letters of six bits each stand for, the highest first.
pub open spec fn four_sixes(values: Seq<int>) -> int {
    values[0] * 262144 + values[1] * 4096 + values[2] * 64 + values[3]
}

/// Three bytes become four letters of the alphabet that hold the same 24 bits.
pub proof fn base64_keeps_the_bits(a: u8, b: u8, c: u8, values: Seq<int>)
    requires
        values.len() == 4,
        forall|i: int| 0 <= i < 4 ==> 0 <= #[trigger] values[i] < 64,
        four_sixes(values) == a * 65536 + b * 256 + c,
    ensures
        ({
            let alphabet = "ABCDEFGHIJKLMNOPQRSTUVWXYZabcdefghijklmnopqrstuvwxyz0123456789+/"@;
            base64_standard(seq![a, b, c]) == seq![
                alphabet[values[0]],
                alphabet[values[1]],
                alphabet[values[2]],
                alphabet[values[3]],
            ]
        }),
{
    let (p, q, r, s) = (values[0], values[1], values[2], values[3]);
    let bits: int = a * 65536 + b * 256 + c;
    assert(0 <= p < 64 && 0 <= q < 64 && 0 <= r < 64 && 0 <= s < 64);
    assert(bits == p * 262144 + q * 4096 + r * 64 + s);
    assert(bits / 262144 == p);
    assert(bits / 4096 == p * 64 + q);
    assert(bits / 64 == p * 4096 + q * 64 + r);
    assert(bits / 4096 % 64 == q);
    assert(bits / 64 % 64 == r);
    assert(bits % 64 == s);
    lemma_letter(p);
    lemma_letter(q);
    lemma_letter(r);
    lemma_letter(s);
    let bytes = seq![a, b, c];
    assert(bytes.skip(3) =~= seq![]);
    assert(base64_standard(bytes.skip(3)) =~= seq![]);
    assert(base64_standard(bytes) =~= base64_group(a, b, c));
}

proof fn lemma_letter(n: int)
    requires
        0 <= n < 64,
    ensures
        base64_letter(n)
            == "ABCDEFGHIJKLMNOPQRSTUVWXYZabcdefghijklmnopqrstuvwxyz0123456789+/"@[n],
{
    reveal_strlit("ABCDEFGHIJKLMNOPQRSTUVWXYZabcdefghijklmnopqrstuvwxyz0123456789+/");
}

/// One or two bytes at the end are encoded as if zeros followed, and the letters
/// that come of the zeros alone are given as `=`.
pub proof fn base64_is_padded(a: u8, b: u8)
    ensures
        base64_standard(seq![]) == Seq::<char>::empty(),
        base64_standard(seq![a]).len() == 4,
        base64_standard(seq![a]).take(2) == base64_standard(seq![a, 0, 0]).take(2),
        base64_standard(seq![a])[2] == '=',
        base64_standard(seq![a])[3] == '=',
        base64_standard(seq![a, b]).len() == 4,
        base64_standard(seq![a, b]).take(3) == base64_standard(seq![a, b, 0]).take(3),
        base64_standard(seq![a, b])[3] == '=',
{
    let one = seq![a, 0u8, 0u8];
    let two = seq![a, b, 0u8];
    assert(one.skip(3) =~= seq![]);
    assert(two.skip(3) =~= seq![]);
    assert(base64_standard(one.skip(3)) =~= seq![]);
    assert(base64_standard(two.skip(3)) =~= seq![]);
    assert(base64_standard(one) =~= base64_group(a, 0, 0));
    assert(base64_standard(two) =~= base64_group(a, b, 0));
    assert(base64_standard(seq![a]).take(2) =~= base64_group(a, 0, 0).take(2));
    assert(base64_standard(seq![a, b]).take(3) =~= base64_group(a, b, 0).take(3));
}

/// Running a crate is `cargo run`, and packaging it `cargo package --no-verify`,
/// each with the stable toolchain and without a token.
pub proof fn crates_are_run_and_packaged(krate: CreatedModel)
    ensures
        krate.run_call().arguments() == seq!["run"@],
        krate.package_call().arguments() == seq!["package"@, "--no-verify"@],
        krate.run_call().krate == krate,
        krate.package_call().krate == krate,
        krate.run_call().toolchain is None,
        krate.package_call().toolchain is None,
        !krate.run_call().msrv_resolver,
        !krate.package_call().msrv_resolver,
        krate.run_call().credentials is None,
        krate.package_call().credentials is None,
{
    assert(krate.run_call().arguments() =~= seq!["run"@]);
    assert(krate.package_call().arguments() =~= seq!["package"@, "--no-verify"@]);
}

/// A command shows every one of its fields.
pub proof fn commands_show_every_field(command: CargoCommand, i: int)
    ensures
        command.deep_view().program == command.program@,
        command.deep_view().current_dir == command.current_dir.deep_view(),
        command.deep_view().kill_on_drop == command.kill_on_drop,
        command.deep_view().args.len() == command.args@.len(),
        0 <= i < command.args@.len() ==> command.deep_view().args[i] == command.args@[i]@,
        command.deep_view().env.len() == command.env@.len(),
        0 <= i < command.env@.len() ==> command.deep_view().env[i].0 == command.env@[i].0@,
        0 <= i < command.env@.len() ==> match command.env@[i].1 {
            EnvValue::Path(path) => command.deep_view().env[i].1 == EnvModel::Path(
                path.deep_view(),
            ),
            EnvValue::Text(text) => command.deep_view().env[i].1 == EnvModel::Text(text@),
        },
{
}

/// Packaging ends well with the package's path only where Cargo has succeeded and
/// the file is there; it ends with Cargo's error, or with the path that is missing
/// otherwise.
pub proof fn packaging_ends_as_it_went<E>(
    krate: CreatedModel,
    event: PackageEvent<E>,
    action: PackageAction<E>,
)
    requires
        action.follows(krate, event),
    ensures
        action !is Execute,
        action is LookFor <==> event is Executed && event->Executed_0 is Ok
            && event->Executed_0->Ok_0.success,
        action matches PackageAction::LookFor(path) ==> path.deep_view() == krate.package_parts(),
        action is Finish && action->Finish_0 is Ok <==> event == PackageEvent::<E>::Exists(true),
        action matches PackageAction::Finish(Ok(path)) ==> path.deep_view()
            == krate.package_parts(),
        action matches PackageAction::Finish(Err(PackageError::Missing { path })) ==> event
            == PackageEvent::<E>::Exists(false) && path.deep_view() == krate.package_parts(),
        action matches PackageAction::Finish(Err(PackageError::Execution { source })) ==> match source {
            CommandError::Output { source } => event == PackageEvent::<E>::Executed(Err(source)),
            CommandError::SuccessExit { .. } => false,
            CommandError::ErrorExit { stdout, stderr } => {
                &&& event is Executed
                &&& event->Executed_0 is Ok
                &&& !event->Executed_0->Ok_0.success
                &&& is_shown(stdout@, event->Executed_0->Ok_0.stdout@)
                &&& is_shown(stderr@, event->Executed_0->Ok_0.stderr@)
            },
        },
{
}

/// The bytes of a text are shown as that text, and the same bytes always in the
/// same way.
pub proof fn output_is_shown_as_it_was_written(
    written: Seq<char>,
    shown: Seq<char>,
    bytes: Seq<u8>,
    text: Seq<char>,
    other: Seq<char>,
)
    requires
        is_shown(shown, encode_utf8(written)),
        is_shown(text, bytes),
        is_shown(other, bytes),
    ensures
        shown == written,
        text == utf8_lossy(bytes),
        text == other,
{
    encode_utf8_valid_utf8(written);
    encode_utf8_decode_utf8(written);
}

/// What a command wrote is told in full: the output stands behind `stdout:`, and
/// the errors behind `stderr:`. A command that could not be run is told in the
/// words of its cause.
pub proof fn errors_tell_all_output<E>(error: CommandError<E>, shown: Seq<char>)
    ensures
        error is Output ==> error.wording(shown) == shown,
        error matches CommandError::SuccessExit { stdout, stderr } ==> error.wording(shown)
            == "The command succeeded.\nstdout:\n"@ + stdout@ + "\nstderr:\n"@ + stderr@,
        error matches CommandError::ErrorExit { stdout, stderr } ==> error.wording(shown)
            == "The command failed.\nstdout:\n"@ + stdout@ + "\nstderr:\n"@ + stderr@,
{
}

/// A missing package is told with its path between quotes, whatever the path.
pub proof fn missing_packages_are_named<E>(error: PackageError<E>, shown: Seq<char>)
    ensures
        error is Execution ==> error.wording(shown) == "Could not run `cargo package`"@,
        error is Missing ==> error.wording(shown) == "The package file `"@ + shown
            + "` was not created"@,
        error is Execution ==> error.place() is None,
        error matches PackageError::Missing { path } ==> error.place() == Some(path.deep_view()),
{
}

} // verus!
