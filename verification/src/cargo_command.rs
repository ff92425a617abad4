//! How Cargo is called on a crate.
use base64::Engine;
use vstd::prelude::*;
use vstd::string::*;
#[allow(unused_imports)]
use vstd::utf8::encode_utf8;

use crate::command::{expect_success, CommandError, RawOutput};
#[allow(unused_imports)]
use crate::command::is_shown;
use crate::creation::CreatedCrate;
#[allow(unused_imports)]
use crate::creation::CreatedModel;
use crate::definition::{CreatedRegistry, RegistryDefinition};
use crate::scratch_path::ScratchPath;
#[allow(unused_imports)]
use crate::text::ascii_upper;
use crate::text::ascii_uppercase;

verus! {

/// The letter of standard base64 for a number below 64.
pub open spec fn base64_letter(n: int) -> char {
    if n < 26 {
        ('A' as u32 + n) as char
    } else if n < 52 {
        ('a' as u32 + (n - 26)) as char
    } else if n < 62 {
        ('0' as u32 + (n - 52)) as char
    } else if n == 62 {
        '+'
    } else {
        '/'
    }
}

/// Three bytes as four letters, six bits each, the highest bits first.
pub open spec fn base64_group(a: u8, b: u8, c: u8) -> Seq<char> {
    let bits: int = a * 65536 + b * 256 + c;
    seq![
        base64_letter(bits / 262144),
        base64_letter(bits / 4096 % 64),
        base64_letter(bits / 64 % 64),
        base64_letter(bits % 64),
    ]
}

/// The bytes in standard base64: three bytes are four letters, and where one or
/// two bytes are left, `=` stands for each of the letters that are not needed.
pub open spec fn base64_standard(bytes: Seq<u8>) -> Seq<char>
    decreases bytes.len(),
{
    if bytes.len() == 0 {
        seq![]
    } else if bytes.len() == 1 {
        base64_group(bytes[0], 0, 0).take(2) + seq!['=', '=']
    } else if bytes.len() == 2 {
        base64_group(bytes[0], bytes[1], 0).take(3) + seq!['=']
    } else {
        base64_group(bytes[0], bytes[1], bytes[2]) + base64_standard(bytes.skip(3))
    }
}

/// Calls `Engine::encode_string` of the `base64` crate on its `STANDARD`
/// engine. It appends the bytes in standard base64, with padding, and leaves
/// what was there before.
#[verifier::external_body]
fn encode_string(bytes: &[u8], text: &mut String)
    ensures
        final(text)@ == old(text)@ + base64_standard(bytes@),
{
    base64::engine::general_purpose::STANDARD.encode_string(bytes, text);
}

/// The value of an environment variable.
#[derive(Debug)]
pub enum EnvValue {
    Path(ScratchPath),
    Text(String),
}

/// The value of an environment variable, as plain text.
#[verifier::ext_equal]
pub ghost enum EnvModel {
    Path(Seq<Seq<char>>),
    Text(Seq<char>),
}

impl DeepView for EnvValue {
    type V = EnvModel;

    open spec fn deep_view(&self) -> EnvModel {
        match self {
            EnvValue::Path(path) => EnvModel::Path(path.deep_view()),
            EnvValue::Text(text) => EnvModel::Text(text@),
        }
    }
}

/// A command that is ready to be run.
#[derive(Debug)]
pub struct CargoCommand {
    pub program: String,
    pub current_dir: ScratchPath,
    /// The variables that are set, in the order in which they are set.
    pub env: Vec<(String, EnvValue)>,
    pub args: Vec<String>,
    /// Whether the command is to end when nobody waits for it any more.
    pub kill_on_drop: bool,
}

/// A command that is ready to be run, as plain text.
#[verifier::ext_equal]
pub ghost struct CommandModel {
    pub program: Seq<char>,
    pub current_dir: Seq<Seq<char>>,
    pub env: Seq<(Seq<char>, EnvModel)>,
    pub args: Seq<Seq<char>>,
    pub kill_on_drop: bool,
}

impl DeepView for CargoCommand {
    type V = CommandModel;

    open spec fn deep_view(&self) -> CommandModel {
        CommandModel {
            program: self.program@,
            current_dir: self.current_dir.deep_view(),
            env: self.env.deep_view(),
            args: self.args.deep_view(),
            kill_on_drop: self.kill_on_drop,
        }
    }
}

/// What is known of a call of Cargo so far, as plain text.
#[verifier::ext_equal]
pub ghost struct CallModel {
    pub krate: CreatedModel,
    pub toolchain: Option<Seq<char>>,
    pub msrv_resolver: bool,
    pub credentials: Option<(Seq<char>, Seq<char>)>,
    pub command: Option<Seq<char>>,
    pub args: Option<Seq<Seq<char>>>,
}

/// The token for a user name and a password.
pub open spec fn basic_token(username: Seq<char>, password: Seq<char>) -> Seq<char> {
    "Basic "@ + base64_standard(encode_utf8(username + ":"@ + password))
}

/// A registry's name as it stands in the names of environment variables.
pub open spec fn env_name(registry: Seq<char>) -> Seq<char> {
    registry.map_values(|c: char| ascii_upper(c))
}

/// The variable that holds the token for a registry.
pub open spec fn token_variable(name: Seq<char>) -> Seq<char> {
    "CARGO_REGISTRIES_"@ + name + "_TOKEN"@
}

impl CallModel {
    /// A call of which nothing but the crate is known.
    pub open spec fn new(krate: CreatedModel) -> CallModel {
        CallModel {
            krate,
            toolchain: None,
            msrv_resolver: false,
            credentials: None,
            command: None,
            args: None,
        }
    }

    pub open spec fn use_nightly(self) -> CallModel {
        CallModel { toolchain: Some("nightly"@), ..self }
    }

    pub open spec fn enable_msrv_resolver(self) -> CallModel {
        CallModel { msrv_resolver: true, ..self }
    }

    /// The call with a token for the registry.
    pub open spec fn with_token(self, registry: Seq<char>, token: Seq<char>) -> CallModel {
        CallModel { credentials: Some((env_name(registry), token)), ..self }
    }

    pub open spec fn subcommand(self, command: Seq<char>) -> CallModel {
        CallModel { command: Some(command), ..self }
    }

    pub open spec fn append_arg(self, arg: Seq<char>) -> CallModel {
        CallModel {
            args: match self.args {
                Some(args) => Some(args.push(arg)),
                None => Some(seq![arg]),
            },
            ..self
        }
    }

    /// The variables that the call sets.
    pub open spec fn env(self) -> Seq<(Seq<char>, EnvModel)> {
        let toolchain = match self.toolchain {
            Some(toolchain) => toolchain,
            None => "stable"@,
        };
        let resolver = if self.msrv_resolver {
            seq![
                (
                    "CARGO_RESOLVER_SOMETHING_LIKE_PRECEDENCE"@,
                    EnvModel::Text("something-like-rust-version"@),
                ),
            ]
        } else {
            seq![]
        };
        let token = match self.credentials {
            Some((name, token)) => seq![(token_variable(name), EnvModel::Text(token))],
            None => seq![],
        };
        seq![
            ("CARGO_HOME"@, EnvModel::Path(self.krate.cargo_home)),
            ("RUSTUP_TOOLCHAIN"@, EnvModel::Text(toolchain)),
        ] + resolver + token
    }

    /// The arguments of the call.
    pub open spec fn arguments(self) -> Seq<Seq<char>> {
        let command = match self.command {
            Some(command) => seq![command],
            None => seq![],
        };
        let args = match self.args {
            Some(args) => args,
            None => seq![],
        };
        let policy = if self.msrv_resolver {
            seq!["-Zmsrv-policy"@]
        } else {
            seq![]
        };
        command + args + policy
    }

    /// The command that makes the call.
    pub open spec fn finished(self) -> CommandModel {
        CommandModel {
            program: "cargo"@,
            current_dir: self.krate.directory,
            env: self.env(),
            args: self.arguments(),
            kill_on_drop: true,
        }
    }
}

/// A call of Cargo on a crate.
#[derive(Debug)]
pub struct CargoCommandBuilder<'a> {
    crate_: &'a CreatedCrate,
    toolchain: Option<String>,
    msrv_resolver: bool,
    credentials: Option<(String, String)>,
    command: Option<String>,
    args: Option<Vec<String>>,
}

impl<'a> DeepView for CargoCommandBuilder<'a> {
    type V = CallModel;

    closed spec fn deep_view(&self) -> CallModel {
        CallModel {
            krate: self.crate_.deep_view(),
            toolchain: self.toolchain.deep_view(),
            msrv_resolver: self.msrv_resolver,
            credentials: self.credentials.deep_view(),
            command: self.command.deep_view(),
            args: self.args.deep_view(),
        }
    }
}

impl<'a> CargoCommandBuilder<'a> {
    /// Uses the nightly toolchain instead of the stable one.
    pub fn use_nightly(self) -> (call: Self)
        ensures
            call.deep_view() == self.deep_view().use_nightly(),
    {
        let mut call = self;
        call.toolchain = Some("nightly".to_owned());
        call
    }

    /// Lets Cargo heed the version of Rust that crates ask for.
    pub fn enable_msrv_resolver(self) -> (call: Self)
        ensures
            call.deep_view() == self.deep_view().enable_msrv_resolver(),
    {
        let mut call = self;
        call.msrv_resolver = true;
        call
    }

    /// Logs in to the registry with a user name and a password.
    pub fn basic_auth_credentials(
        self,
        registry: &CreatedRegistry,
        username: &str,
        password: &str,
    ) -> (call: Self)
        ensures
            call.deep_view() == self.deep_view().with_token(
                registry.registry_name(),
                basic_token(username@, password@),
            ),
    {
        let creds = username.to_owned().concat(":").concat(password);
        let mut token = "Basic ".to_owned();
        encode_string(creds.as_str().as_bytes(), &mut token);
        self.with_token(registry, token)
    }

    /// Logs in to the registry with a token.
    pub fn with_token(self, registry: &CreatedRegistry, token: String) -> (call: Self)
        ensures
            call.deep_view() == self.deep_view().with_token(registry.registry_name(), token@),
    {
        let name = ascii_uppercase(registry.name());
        let mut call = self;
        call.credentials = Some((name, token));
        call
    }

    /// Calls `cargo package`.
    pub fn package(self) -> (call: Self)
        ensures
            call.deep_view() == self.deep_view().subcommand("package"@),
    {
        let mut call = self;
        call.command = Some("package".to_owned());
        call
    }

    /// Calls `cargo run`.
    pub fn run(self) -> (call: Self)
        ensures
            call.deep_view() == self.deep_view().subcommand("run"@),
    {
        let mut call = self;
        call.command = Some("run".to_owned());
        call
    }

    /// Adds an argument after those that are there.
    pub fn append_arg(self, arg: &str) -> (call: Self)
        ensures
            call.deep_view() == self.deep_view().append_arg(arg@),
    {
        let mut call = self;
        let mut args = match call.args {
            Some(args) => args,
            None => Vec::new(),
        };
        let ghost before = args.deep_view();
        args.push(arg.to_owned());
        assert(args.deep_view() =~= before.push(arg@));
        call.args = Some(args);
        assert(call.deep_view() =~~= self.deep_view().append_arg(arg@));
        call
    }

    /// The command that makes the call.
    pub fn command(self) -> (command: CargoCommand)
        ensures
            command.deep_view() == self.deep_view().finished(),
    {
        let ghost call = self.deep_view();
        let toolchain = match self.toolchain {
            Some(toolchain) => toolchain,
            None => "stable".to_owned(),
        };
        let mut env: Vec<(String, EnvValue)> = Vec::new();
        env.push(("CARGO_HOME".to_owned(), EnvValue::Path(self.crate_.cargo_home().clone())));
        env.push(("RUSTUP_TOOLCHAIN".to_owned(), EnvValue::Text(toolchain)));

        let mut args: Vec<String> = Vec::new();
        if let Some(command) = self.command {
            args.push(command);
        }
        let ghost first = args.deep_view();
        if let Some(mut more) = self.args {
            args.append(&mut more);
        }
        if self.msrv_resolver {
            env.push(
                (
                    "CARGO_RESOLVER_SOMETHING_LIKE_PRECEDENCE".to_owned(),
                    EnvValue::Text("something-like-rust-version".to_owned()),
                ),
            );
            args.push("-Zmsrv-policy".to_owned());
        }
        if let Some((name, credentials)) = self.credentials {
            let name = "CARGO_REGISTRIES_".to_owned().concat(name.as_str()).concat("_TOKEN");
            env.push((name, EnvValue::Text(credentials)));
        }
        assert(env.deep_view() =~= call.env());
        assert(args.deep_view() =~= call.arguments());
        CargoCommand {
            program: "cargo".to_owned(),
            current_dir: self.crate_.directory().clone(),
            env,
            args,
            kill_on_drop: true,
        }
    }
}

/// Why a crate could not be packaged.
#[derive(Debug)]
pub enum PackageError<E> {
    Execution { source: CommandError<E> },
    Missing { path: ScratchPath },
}

/// How far the packaging of a crate has come.
#[derive(Debug, Clone, Copy, PartialEq, Eq, Structural)]
pub enum PackageStage {
    Executing,
    Looking,
    Finished,
}

/// What came of the last action.
#[derive(Debug)]
pub enum PackageEvent<E> {
    /// The command ended, or could not be run.
    Executed(Result<RawOutput, E>),
    /// Whether the file is there.
    Exists(bool),
}

/// What is to be done next to package a crate.
#[derive(Debug)]
pub enum PackageAction<E> {
    Execute(CargoCommand),
    /// See whether the file is there.
    LookFor(ScratchPath),
    Finish(Result<ScratchPath, PackageError<E>>),
}

impl<E> PackageAction<E> {
    /// Whether the action is what is to be done for the crate after the event:
    /// look for the package once Cargo has made it, and end with its place if
    /// it is there, with an error otherwise.
    pub open spec fn follows(self, krate: CreatedModel, event: PackageEvent<E>) -> bool {
        match event {
            PackageEvent::Executed(Ok(output)) => if output.success {
                self matches PackageAction::LookFor(path) && path.deep_view()
                    == krate.package_parts()
            } else {
                &&& self matches PackageAction::Finish(Err(PackageError::Execution { source }))
                &&& source matches CommandError::ErrorExit { stdout, stderr }
                &&& is_shown(stdout@, output.stdout@)
                &&& is_shown(stderr@, output.stderr@)
            },
            PackageEvent::Executed(Err(cause)) => {
                &&& self matches PackageAction::Finish(Err(PackageError::Execution { source }))
                &&& source == (CommandError::Output { source: cause })
            },
            PackageEvent::Exists(found) => if found {
                self matches PackageAction::Finish(Ok(path)) && path.deep_view()
                    == krate.package_parts()
            } else {
                &&& self matches PackageAction::Finish(Err(PackageError::Missing { path }))
                &&& path.deep_view() == krate.package_parts()
            },
        }
    }
}

impl CreatedModel {
    /// The call that runs the crate.
    pub open spec fn run_call(self) -> CallModel {
        CallModel::new(self).subcommand("run"@)
    }

    /// The call that packages the crate.
    pub open spec fn package_call(self) -> CallModel {
        CallModel::new(self).subcommand("package"@).append_arg("--no-verify"@)
    }

    /// Where Cargo puts the crate's package.
    pub open spec fn package_parts(self) -> Seq<Seq<char>> {
        self.directory.push("target"@).push("package"@).push(
            self.name + "-"@ + self.version + ".crate"@,
        )
    }
}

impl CreatedCrate {
    /// Starts a call of Cargo on the crate.
    pub fn cargo(&self) -> (call: CargoCommandBuilder<'_>)
        ensures
            call.deep_view() == CallModel::new(self.deep_view()),
    {
        CargoCommandBuilder {
            crate_: self,
            toolchain: None,
            msrv_resolver: false,
            credentials: None,
            command: None,
            args: None,
        }
    }

    /// The command that runs the crate.
    pub fn run(&self) -> (command: CargoCommand)
        ensures
            command.deep_view() == self.deep_view().run_call().finished(),
    {
        self.cargo().run().command()
    }

    fn package_path(&self) -> (path: ScratchPath)
        ensures
            path.deep_view() == self.deep_view().package_parts(),
    {
        let file = self.name().to_owned().concat("-").concat(self.version()).concat(".crate");
        let mut package_path = self.directory().join("target");
        package_path.push("package");
        package_path.push(file.as_str());
        package_path
    }

    /// Starts to package the crate.
    pub fn package<E>(&self) -> (begun: (PackageStage, PackageAction<E>))
        ensures
            begun.0 == PackageStage::Executing,
            begun.1 matches PackageAction::Execute(command) && command.deep_view()
                == self.deep_view().package_call().finished(),
    {
        let command = self.cargo().package().append_arg("--no-verify").command();
        (PackageStage::Executing, PackageAction::Execute(command))
    }

    /// Goes on with the packaging after an event.
    pub fn package_next<E>(&self, stage: PackageStage, event: PackageEvent<E>) -> (next: (
        PackageStage,
        PackageAction<E>,
    ))
        requires
            stage is Executing ==> event is Executed,
            stage is Looking ==> event is Exists,
            stage !is Finished,
        ensures
            next.1.follows(self.deep_view(), event),
            next.1 is LookFor ==> next.0 == PackageStage::Looking,
            next.1 !is LookFor ==> next.0 == PackageStage::Finished,
    {
        let package_path = self.package_path();
        match event {
            PackageEvent::Executed(outcome) => match expect_success(outcome) {
                Ok(_) => (PackageStage::Looking, PackageAction::LookFor(package_path)),
                Err(source) => (
                    PackageStage::Finished,
                    PackageAction::Finish(Err(PackageError::Execution { source })),
                ),
            },
            PackageEvent::Exists(found) => if found {
                (PackageStage::Finished, PackageAction::Finish(Ok(package_path)))
            } else {
                (
                    PackageStage::Finished,
                    PackageAction::Finish(Err(PackageError::Missing { path: package_path })),
                )
            },
        }
    }
}

/// The variable for a token is none of the others that a call sets.
proof fn lemma_token_variable(name: Seq<char>)
    ensures
        token_variable(name) != "CARGO_HOME"@,
        token_variable(name) != "RUSTUP_TOOLCHAIN"@,
        token_variable(name) != "CARGO_RESOLVER_SOMETHING_LIKE_PRECEDENCE"@,
{
    reveal_strlit("CARGO_REGISTRIES_");
    reveal_strlit("CARGO_HOME");
    reveal_strlit("RUSTUP_TOOLCHAIN");
    reveal_strlit("CARGO_RESOLVER_SOMETHING_LIKE_PRECEDENCE");
    let variable = token_variable(name);
    assert(variable[0] == "CARGO_REGISTRIES_"@[0] && variable[0] == 'C');
    assert(variable[6] == "CARGO_REGISTRIES_"@[6] && variable[6] == 'R');
    assert(variable[8] == "CARGO_REGISTRIES_"@[8] && variable[8] == 'G');
    assert("CARGO_HOME"@[6] == 'H');
    assert("RUSTUP_TOOLCHAIN"@[0] == 'R');
    assert("CARGO_RESOLVER_SOMETHING_LIKE_PRECEDENCE"@[8] == 'S');
}

/// Whether the variable is among those that are set.
pub open spec fn sets(env: Seq<(Seq<char>, EnvModel)>, name: Seq<char>) -> bool {
    exists|i: int| 0 <= i < env.len() && (#[trigger] env[i]).0 == name
}

/// A call sets no variable twice.
pub proof fn variables_are_set_once(call: CallModel)
    ensures
        forall|i: int, j: int|
            0 <= i < j < call.env().len() ==> #[trigger] call.env()[i].0 != #[trigger] call.env()[j].0,
{
    reveal_strlit("CARGO_HOME");
    reveal_strlit("RUSTUP_TOOLCHAIN");
    reveal_strlit("CARGO_RESOLVER_SOMETHING_LIKE_PRECEDENCE");
    assert("CARGO_HOME"@.len() == 10);
    assert("RUSTUP_TOOLCHAIN"@.len() == 16);
    assert("CARGO_RESOLVER_SOMETHING_LIKE_PRECEDENCE"@.len() == 40);
    if call.credentials is Some {
        lemma_token_variable((call.credentials->0).0);
    }
}

/// A call sets the variable for a registry's token if and only if it was given
/// one for that registry.
pub proof fn tokens_are_set_where_given(call: CallModel, name: Seq<char>)
    ensures
        sets(call.env(), token_variable(name)) <==> (call.credentials is Some
            && (call.credentials->0).0 == name),
        call.credentials matches Some((registry, token)) ==> call.env().contains(
            (token_variable(registry), EnvModel::Text(token)),
        ),
{
    lemma_token_variable(name);
    let env = call.env();
    if call.credentials is Some {
        let registry = (call.credentials->0).0;
        let last = env.len() - 1;
        assert(env[last] == (token_variable(registry), EnvModel::Text((call.credentials->0).1)));
        if token_variable(registry) == token_variable(name) {
            let start = "CARGO_REGISTRIES_"@.len() as int;
            let a = token_variable(registry);
            let b = token_variable(name);
            assert(registry =~= a.subrange(start, a.len() - "_TOKEN"@.len()));
            assert(name =~= b.subrange(start, b.len() - "_TOKEN"@.len()));
        }
    }
}

impl<E> PackageError<E> {
    /// The path that the error is about, if it is about one.
    pub open spec fn place(self) -> Option<Seq<Seq<char>>> {
        match self {
            PackageError::Missing { path, .. } => Some(path.deep_view()),
            _ => None,
        }
    }

    /// The path that the error is about, if it is about one.
    pub fn path(&self) -> (path: Option<&ScratchPath>)
        ensures
            path.deep_view() == self.place(),
    {
        match self {
            PackageError::Missing { path, .. } => Some(path),
            _ => None,
        }
    }

    /// What the error says of itself, its path being shown as `shown`.
    pub open spec fn wording(self, shown: Seq<char>) -> Seq<char> {
        match self {
            PackageError::Execution { .. } => "Could not run `cargo package`"@,
            PackageError::Missing { .. } => "The package file `"@ + shown + "` was not created"@,
        }
    }

    /// What the error says of itself, its path being shown as `shown`.
    pub fn message(&self, shown: &str) -> (text: String)
        ensures
            text@ == self.wording(shown@),
    {
        match self {
            PackageError::Execution { .. } => "Could not run `cargo package`".to_owned(),
            PackageError::Missing { .. } => "The package file `".to_owned().concat(shown).concat("` was not created"),
        }
    }
}

} // verus!
