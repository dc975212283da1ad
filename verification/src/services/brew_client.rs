//! The package kinds and the commands of the local package tool.
//!
//! Running a command is left to the caller. What is decided here is which
//! arguments a request turns into and what the outcome of a run means.

use vstd::prelude::*;
use crate::error::{BrewDeckError, ErrorKind, ErrorRecovery, ErrorView};
use crate::text::{
    clean_lines,
    clean_lines_of,
    concat_str,
    lowercase_of,
    str_eq,
    str_starts_with,
    to_lowercase,
    views,
};

verus! {

/// The two kinds of package.
#[derive(Clone, Copy, Debug, PartialEq, Eq, Hash, Structural)]
pub enum PackageType {
    Formula,
    Cask,
}

/// The name of a kind, as it stands in cache keys and messages.
pub open spec fn kind_name(kind: PackageType) -> Seq<char> {
    match kind {
        PackageType::Formula => "formula"@,
        PackageType::Cask => "cask"@,
    }
}

/// The kind that a lower-case word names, if any.
pub open spec fn kind_named(lower: Seq<char>) -> Option<PackageType> {
    if lower == "formula"@ || lower == "formulae"@ {
        Some(PackageType::Formula)
    } else if lower == "cask"@ || lower == "casks"@ {
        Some(PackageType::Cask)
    } else {
        None
    }
}

impl PackageType {
    /// The name of the kind: `formula` or `cask`.
    pub fn name(&self) -> (r: &'static str)
        ensures
            r@ == kind_name(*self),
    {
        match self {
            PackageType::Formula => "formula",
            PackageType::Cask => "cask",
        }
    }

    /// The kind that `word` names, whatever its case: `formula`, `formulae`,
    /// `cask` or `casks`. Any other word is an `InvalidConfiguration` error
    /// that quotes the word as it was given.
    pub fn parse(word: &str) -> (r: Result<PackageType, BrewDeckError>)
        ensures
            match kind_named(lowercase_of(word@)) {
                Some(kind) => r matches Ok(k) && k == kind,
                None => r matches Err(e) && e@.kind == ErrorKind::InvalidConfiguration
                    && e@.message == "Invalid package type: "@ + word@,
            },
    {
        let lower = to_lowercase(word);
        Self::from_lowercase(lower.as_str(), word)
    }

    /// The kind that the lower-case word `lower` names; `word` is what an
    /// error quotes.
    pub fn from_lowercase(lower: &str, word: &str) -> (r: Result<PackageType, BrewDeckError>)
        ensures
            match kind_named(lower@) {
                Some(kind) => r matches Ok(k) && k == kind,
                None => r matches Err(e) && e@.kind == ErrorKind::InvalidConfiguration
                    && e@.message == "Invalid package type: "@ + word@,
            },
    {
        if str_eq(lower, "formula") || str_eq(lower, "formulae") {
            Ok(PackageType::Formula)
        } else if str_eq(lower, "cask") || str_eq(lower, "casks") {
            Ok(PackageType::Cask)
        } else {
            Err(BrewDeckError::InvalidConfiguration(concat_str("Invalid package type: ", word)))
        }
    }
}

/// The default time that a command may take, in milliseconds.
pub const DEFAULT_COMMAND_TIMEOUT_MS: u64 = 300_000;

/// One invocation of the package tool. `timeout` is in milliseconds.
#[derive(Debug)]
pub struct BrewCommand {
    pub command: String,
    pub args: Vec<String>,
    pub timeout: u64,
}

impl BrewCommand {
    /// The tool `brew` with the given arguments and five minutes to run.
    pub fn new(args: Vec<String>) -> (c: Self)
        ensures
            c.command@ == "brew"@,
            c.args == args,
            c.timeout == DEFAULT_COMMAND_TIMEOUT_MS,
    {
        BrewCommand { command: "brew".to_owned(), args, timeout: DEFAULT_COMMAND_TIMEOUT_MS }
    }

    /// The same command with another time to run, in milliseconds.
    pub fn with_timeout(self, timeout: u64) -> (c: Self)
        ensures
            c.command == self.command,
            c.args == self.args,
            c.timeout == timeout,
    {
        BrewCommand { timeout, ..self }
    }
}

/// What a run of the package tool produced.
#[derive(Debug)]
pub struct CommandResult {
    pub stdout: String,
    pub stderr: String,
    pub exit_code: i32,
    pub success: bool,
}

/// The mathematical content of a [`CommandResult`].
pub struct CommandResultView {
    pub stdout: Seq<char>,
    pub stderr: Seq<char>,
    pub exit_code: i32,
    pub success: bool,
}

impl View for CommandResult {
    type V = CommandResultView;

    open spec fn view(&self) -> CommandResultView {
        CommandResultView {
            stdout: self.stdout@,
            stderr: self.stderr@,
            exit_code: self.exit_code,
            success: self.success,
        }
    }
}

/// The time that an install or an upgrade of one package may take, in
/// milliseconds.
pub const INSTALL_TIMEOUT_MS: u64 = 600_000;

/// The time that an upgrade of all packages may take, in milliseconds.
pub const UPDATE_ALL_TIMEOUT_MS: u64 = 1_800_000;

/// The flag that restricts a command to one kind.
pub open spec fn kind_flag(kind: PackageType) -> Seq<char> {
    match kind {
        PackageType::Formula => "--formula"@,
        PackageType::Cask => "--cask"@,
    }
}

/// The arguments of a command on one package: the verb and the name, with
/// the flag for casks between them.
pub open spec fn package_args(verb: Seq<char>, name: Seq<char>, kind: PackageType) -> Seq<
    Seq<char>,
> {
    match kind {
        PackageType::Formula => seq![verb, name],
        PackageType::Cask => seq![verb, "--cask"@, name],
    }
}

/// The arguments of a command that may be restricted to one kind.
pub open spec fn optional_kind_args(verb: Seq<char>, kind: Option<PackageType>) -> Seq<Seq<char>> {
    match kind {
        Some(k) => seq![verb, kind_flag(k)],
        None => seq![verb],
    }
}

/// What a run means for an operation that answers with a message: `done` if
/// the run succeeded, else an error of the given kind whose message is
/// `failed` followed by what the tool wrote to its error stream.
pub open spec fn message_outcome(
    result: CommandResultView,
    done: Seq<char>,
    kind: ErrorKind,
    failed: Seq<char>,
) -> Result<Seq<char>, ErrorView> {
    if result.success {
        Ok(done)
    } else {
        Err(ErrorView { kind, message: failed + result.stderr })
    }
}

/// What a run means for an operation that answers with names: the clean
/// lines of what the tool wrote if the run succeeded, else a
/// `CommandExecutionFailed` whose message is `failed` followed by what the
/// tool wrote to its error stream.
pub open spec fn names_outcome(result: CommandResultView, failed: Seq<char>) -> Result<
    Seq<Seq<char>>,
    ErrorView,
> {
    if result.success {
        Ok(clean_lines_of(result.stdout))
    } else {
        Err(ErrorView { kind: ErrorKind::CommandExecutionFailed, message: failed + result.stderr })
    }
}

/// The lines that are no headings: those that do not start with `==>`.
pub open spec fn without_headings(lines: Seq<Seq<char>>) -> Seq<Seq<char>>
    decreases lines.len(),
{
    if lines.len() == 0 {
        Seq::empty()
    } else {
        let front = without_headings(lines.drop_last());
        if "==>"@.is_prefix_of(lines.last()) {
            front
        } else {
            front.push(lines.last())
        }
    }
}

/// The views of the outcome of an operation that answers with names.
pub open spec fn names_view(r: Result<Vec<String>, BrewDeckError>) -> Result<
    Seq<Seq<char>>,
    ErrorView,
> {
    match r {
        Ok(names) => Ok(views(names@)),
        Err(e) => Err(e@),
    }
}

/// The views of the outcome of an operation that answers with a text.
pub open spec fn outcome_view(r: Result<String, BrewDeckError>) -> Result<Seq<char>, ErrorView> {
    match r {
        Ok(text) => Ok(text@),
        Err(e) => Err(e@),
    }
}

/// The local package tool: where it is installed, which commands the data
/// layer sends to it, and what their outcomes mean.
#[derive(Debug)]
pub struct BrewClient {
    pub brew_path: String,
}

impl BrewClient {
    /// The package tool at the given path.
    pub fn new(brew_path: String) -> (client: Self)
        ensures
            client.brew_path == brew_path,
    {
        BrewClient { brew_path }
    }

    /// The policy under which a command is retried: two retries, one second
    /// of base delay.
    pub fn execute_policy() -> (policy: ErrorRecovery)
        ensures
            policy == (ErrorRecovery {
                can_retry: true,
                retry_count: 0,
                max_retries: 2,
                backoff_ms: 1000,
                fallback_available: false,
            }),
    {
        ErrorRecovery::new().with_max_retries(2).with_backoff(1000)
    }

    fn flag(kind: PackageType) -> (flag: String)
        ensures
            flag@ == kind_flag(kind),
    {
        match kind {
            PackageType::Formula => "--formula".to_owned(),
            PackageType::Cask => "--cask".to_owned(),
        }
    }

    fn on_package(verb: &str, name: &str, kind: PackageType, timeout: u64) -> (c: BrewCommand)
        ensures
            c.command@ == "brew"@,
            views(c.args@) == package_args(verb@, name@, kind),
            c.timeout == timeout,
    {
        let mut args: Vec<String> = Vec::new();
        args.push(verb.to_owned());
        match kind {
            PackageType::Formula => {},
            PackageType::Cask => {
                args.push("--cask".to_owned());
            },
        }
        args.push(name.to_owned());
        assert(views(args@) =~= package_args(verb@, name@, kind));
        BrewCommand::new(args).with_timeout(timeout)
    }

    fn on_kind(verb: &str, kind: Option<PackageType>, timeout: u64) -> (c: BrewCommand)
        ensures
            c.command@ == "brew"@,
            views(c.args@) == optional_kind_args(verb@, kind),
            c.timeout == timeout,
    {
        let mut args: Vec<String> = Vec::new();
        args.push(verb.to_owned());
        match kind {
            Some(k) => {
                args.push(Self::flag(k));
            },
            None => {},
        }
        assert(views(args@) =~= optional_kind_args(verb@, kind));
        BrewCommand::new(args).with_timeout(timeout)
    }

    fn message_or(result: &CommandResult, done: String, kind: ErrorKind, failed: &str) -> (r:
        Result<String, BrewDeckError>)
        ensures
            outcome_view(r) == message_outcome(result@, done@, kind, failed@),
    {
        if result.success {
            Ok(done)
        } else {
            Err(BrewDeckError::new(kind, concat_str(failed, result.stderr.as_str())))
        }
    }

    /// The command that lists the installed packages of a kind.
    pub fn list_installed_command(package_type: PackageType) -> (c: BrewCommand)
        ensures
            c.command@ == "brew"@,
            views(c.args@) == seq!["list"@, kind_flag(package_type)],
            c.timeout == DEFAULT_COMMAND_TIMEOUT_MS,
    {
        Self::on_kind("list", Some(package_type), DEFAULT_COMMAND_TIMEOUT_MS)
    }

    /// The command that lists the outdated packages of a kind.
    pub fn list_outdated_command(package_type: PackageType) -> (c: BrewCommand)
        ensures
            c.command@ == "brew"@,
            views(c.args@) == seq!["outdated"@, kind_flag(package_type)],
            c.timeout == DEFAULT_COMMAND_TIMEOUT_MS,
    {
        Self::on_kind("outdated", Some(package_type), DEFAULT_COMMAND_TIMEOUT_MS)
    }

    /// The command that installs a package; it may run for ten minutes.
    pub fn install_command(name: &str, package_type: PackageType) -> (c: BrewCommand)
        ensures
            c.command@ == "brew"@,
            views(c.args@) == package_args("install"@, name@, package_type),
            c.timeout == INSTALL_TIMEOUT_MS,
    {
        Self::on_package("install", name, package_type, INSTALL_TIMEOUT_MS)
    }

    /// The command that uninstalls a package.
    pub fn uninstall_command(name: &str, package_type: PackageType) -> (c: BrewCommand)
        ensures
            c.command@ == "brew"@,
            views(c.args@) == package_args("uninstall"@, name@, package_type),
            c.timeout == DEFAULT_COMMAND_TIMEOUT_MS,
    {
        Self::on_package("uninstall", name, package_type, DEFAULT_COMMAND_TIMEOUT_MS)
    }

    /// The command that upgrades a package; it may run for ten minutes.
    pub fn update_command(name: &str, package_type: PackageType) -> (c: BrewCommand)
        ensures
            c.command@ == "brew"@,
            views(c.args@) == package_args("upgrade"@, name@, package_type),
            c.timeout == INSTALL_TIMEOUT_MS,
    {
        Self::on_package("upgrade", name, package_type, INSTALL_TIMEOUT_MS)
    }

    /// The command that upgrades all packages, or all of one kind; it may run
    /// for thirty minutes.
    pub fn update_all_command(package_type: Option<PackageType>) -> (c: BrewCommand)
        ensures
            c.command@ == "brew"@,
            views(c.args@) == optional_kind_args("upgrade"@, package_type),
            c.timeout == UPDATE_ALL_TIMEOUT_MS,
    {
        Self::on_kind("upgrade", package_type, UPDATE_ALL_TIMEOUT_MS)
    }

    /// The command that describes a package.
    pub fn info_command(name: &str, package_type: PackageType) -> (c: BrewCommand)
        ensures
            c.command@ == "brew"@,
            views(c.args@) == package_args("info"@, name@, package_type),
            c.timeout == DEFAULT_COMMAND_TIMEOUT_MS,
    {
        Self::on_package("info", name, package_type, DEFAULT_COMMAND_TIMEOUT_MS)
    }

    /// The command that searches for packages, of one kind or of both.
    pub fn search_command(query: &str, package_type: Option<PackageType>) -> (c: BrewCommand)
        ensures
            c.command@ == "brew"@,
            views(c.args@) == optional_kind_args("search"@, package_type).push(query@),
            c.timeout == DEFAULT_COMMAND_TIMEOUT_MS,
    {
        let mut args: Vec<String> = Vec::new();
        args.push("search".to_owned());
        match package_type {
            Some(k) => {
                args.push(Self::flag(k));
            },
            None => {},
        }
        args.push(query.to_owned());
        assert(views(args@) =~= optional_kind_args("search"@, package_type).push(query@));
        BrewCommand::new(args)
    }

    /// The command that checks the health of the installation.
    pub fn check_health_command() -> (c: BrewCommand)
        ensures
            c.command@ == "brew"@,
            views(c.args@) == seq!["doctor"@],
            c.timeout == DEFAULT_COMMAND_TIMEOUT_MS,
    {
        Self::on_kind("doctor", None, DEFAULT_COMMAND_TIMEOUT_MS)
    }

    /// The command that updates the package tool itself.
    pub fn update_homebrew_command() -> (c: BrewCommand)
        ensures
            c.command@ == "brew"@,
            views(c.args@) == seq!["update"@],
            c.timeout == DEFAULT_COMMAND_TIMEOUT_MS,
    {
        Self::on_kind("update", None, DEFAULT_COMMAND_TIMEOUT_MS)
    }

    /// What a run of a listing command means: the names that the tool wrote,
    /// one per line, or an error whose message is `failed` followed by what
    /// the tool wrote to its error stream.
    fn names_or(result: &CommandResult, failed: &str) -> (r: Result<Vec<String>, BrewDeckError>)
        ensures
            names_view(r) == names_outcome(result@, failed@),
    {
        if result.success {
            Ok(clean_lines(result.stdout.as_str()))
        } else {
            Err(
                BrewDeckError::new(
                    ErrorKind::CommandExecutionFailed,
                    concat_str(failed, result.stderr.as_str()),
                ),
            )
        }
    }

    /// What a run of the command that lists the installed packages means.
    pub fn list_installed_outcome(result: &CommandResult) -> (r: Result<Vec<String>, BrewDeckError>)
        ensures
            names_view(r) == names_outcome(result@, "Failed to list installed packages: "@),
    {
        Self::names_or(result, "Failed to list installed packages: ")
    }

    /// What a run of the command that lists the outdated packages means.
    pub fn list_outdated_outcome(result: &CommandResult) -> (r: Result<Vec<String>, BrewDeckError>)
        ensures
            names_view(r) == names_outcome(result@, "Failed to list outdated packages: "@),
    {
        Self::names_or(result, "Failed to list outdated packages: ")
    }

    /// What a run of the search command means: the names that the tool
    /// wrote, without its headings, which start with `==>`.
    pub fn search_outcome(result: &CommandResult) -> (r: Result<Vec<String>, BrewDeckError>)
        ensures
            match names_outcome(result@, "Search failed: "@) {
                Ok(lines) => r matches Ok(names) && views(names@) == without_headings(lines),
                Err(e) => r matches Err(error) && error@ == e,
            },
    {
        match Self::names_or(result, "Search failed: ") {
            Ok(lines) => {
                let mut names: Vec<String> = Vec::new();
                let mut i: usize = 0;
                proof {
                    assert(views(lines@).take(0) =~= Seq::<Seq<char>>::empty());
                    assert(views(names@) =~= Seq::<Seq<char>>::empty());
                }
                while i < lines.len()
                    invariant
                        i <= lines.len(),
                        views(names@) == without_headings(views(lines@).take(i as int)),
                    decreases lines.len() - i,
                {
                    proof {
                        let all = views(lines@);
                        assert(all.take(i + 1).drop_last() =~= all.take(i as int));
                        assert(all.take(i + 1).last() == lines@[i as int]@);
                    }
                    if !str_starts_with(lines[i].as_str(), "==>") {
                        let name = lines[i].clone();
                        let ghost before = views(names@);
                        names.push(name);
                        assert(views(names@) =~= before.push(name@));
                    }
                    i += 1;
                }
                proof {
                    assert(views(lines@).take(lines.len() as int) =~= views(lines@));
                }
                Ok(names)
            },
            Err(e) => Err(e),
        }
    }

    /// What a run of the install command means.
    pub fn install_outcome(name: &str, result: &CommandResult) -> (r: Result<String, BrewDeckError>)
        ensures
            outcome_view(r) == message_outcome(
                result@,
                "Successfully installed "@ + name@,
                ErrorKind::InstallationFailed,
                "Failed to install "@ + name@ + ": "@,
            ),
    {
        let failed = concat_str("Failed to install ", name);
        let failed = concat_str(failed.as_str(), ": ");
        Self::message_or(
            result,
            concat_str("Successfully installed ", name),
            ErrorKind::InstallationFailed,
            failed.as_str(),
        )
    }

    /// What a run of the uninstall command means.
    pub fn uninstall_outcome(name: &str, result: &CommandResult) -> (r: Result<
        String,
        BrewDeckError,
    >)
        ensures
            outcome_view(r) == message_outcome(
                result@,
                "Successfully uninstalled "@ + name@,
                ErrorKind::UninstallationFailed,
                "Failed to uninstall "@ + name@ + ": "@,
            ),
    {
        let failed = concat_str("Failed to uninstall ", name);
        let failed = concat_str(failed.as_str(), ": ");
        Self::message_or(
            result,
            concat_str("Successfully uninstalled ", name),
            ErrorKind::UninstallationFailed,
            failed.as_str(),
        )
    }

    /// What a run of the upgrade command for one package means.
    pub fn update_outcome(name: &str, result: &CommandResult) -> (r: Result<String, BrewDeckError>)
        ensures
            outcome_view(r) == message_outcome(
                result@,
                "Successfully updated "@ + name@,
                ErrorKind::UpdateFailed,
                "Failed to update "@ + name@ + ": "@,
            ),
    {
        let failed = concat_str("Failed to update ", name);
        let failed = concat_str(failed.as_str(), ": ");
        Self::message_or(
            result,
            concat_str("Successfully updated ", name),
            ErrorKind::UpdateFailed,
            failed.as_str(),
        )
    }

    /// What a run of the upgrade command for all packages means.
    pub fn update_all_outcome(result: &CommandResult) -> (r: Result<String, BrewDeckError>)
        ensures
            outcome_view(r) == message_outcome(
                result@,
                "Successfully updated all packages"@,
                ErrorKind::UpdateFailed,
                "Failed to update packages: "@,
            ),
    {
        Self::message_or(
            result,
            "Successfully updated all packages".to_owned(),
            ErrorKind::UpdateFailed,
            "Failed to update packages: ",
        )
    }

    /// What a run of the info command means: what the tool wrote, or that the
    /// package was not found.
    pub fn info_outcome(name: &str, result: &CommandResult) -> (r: Result<String, BrewDeckError>)
        ensures
            outcome_view(r) == message_outcome(
                result@,
                result@.stdout,
                ErrorKind::PackageNotFound,
                "Package '"@ + name@ + "' not found: "@,
            ),
    {
        let failed = concat_str("Package '", name);
        let failed = concat_str(failed.as_str(), "' not found: ");
        Self::message_or(
            result,
            result.stdout.clone(),
            ErrorKind::PackageNotFound,
            failed.as_str(),
        )
    }

    /// What a run of the health check means: what the tool wrote, whether or
    /// not it found problems.
    pub fn check_health_outcome(result: &CommandResult) -> (r: Result<String, BrewDeckError>)
        ensures
            outcome_view(r) == Ok::<Seq<char>, ErrorView>(result@.stdout),
    {
        Ok(result.stdout.clone())
    }

    /// What a run of the update of the package tool means.
    pub fn update_homebrew_outcome(result: &CommandResult) -> (r: Result<String, BrewDeckError>)
        ensures
            outcome_view(r) == message_outcome(
                result@,
                "Homebrew updated successfully"@,
                ErrorKind::UpdateFailed,
                "Failed to update Homebrew: "@,
            ),
    {
        Self::message_or(
            result,
            "Homebrew updated successfully".to_owned(),
            ErrorKind::UpdateFailed,
            "Failed to update Homebrew: ",
        )
    }
}

} // verus!
