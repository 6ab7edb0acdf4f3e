//! Making sure that the tools of every stack are there: which command asks a
//! tool for its version, and what follows from how that command ended.
//!
//! The commands are run elsewhere. Each function here takes how a command
//! ended and says what to do next.

use vstd::prelude::*;
use crate::error::KataError;
use crate::scaffold::ToolCommand;
use crate::text::same_text;

verus! {

/// How a command ended.
#[derive(Clone, Copy, Debug, PartialEq, Eq, Structural)]
pub enum Outcome {
    /// It could not be started.
    NotStarted,
    /// It ran and reported failure.
    Failed,
    /// It ran and reported success.
    Succeeded,
}

/// What to do next.
#[derive(Clone, Debug, PartialEq, Eq)]
pub enum Step {
    /// The tool is there.
    Done,
    /// Install the package of this name.
    InstallPackage(String),
    /// Install Rust with its own installer.
    InstallRust,
    /// Give up.
    Fail(KataError),
}

/// A `Step` as contracts speak of it.
pub ghost enum StepView {
    Done,
    InstallPackage(Seq<char>),
    InstallRust,
    Fail(KataError),
}

impl View for Step {
    type V = StepView;

    open spec fn view(&self) -> StepView {
        match self {
            Step::Done => StepView::Done,
            Step::InstallPackage(package) => StepView::InstallPackage(package@),
            Step::InstallRust => StepView::InstallRust,
            Step::Fail(e) => StepView::Fail(*e),
        }
    }
}

/// A tool that a stack needs, and the package that brings it.
#[derive(Clone, Debug, PartialEq, Eq)]
pub struct Tool {
    pub name: String,
    pub package: String,
}

impl View for Tool {
    type V = (Seq<char>, Seq<char>);

    open spec fn view(&self) -> (Seq<char>, Seq<char>) {
        (self.name@, self.package@)
    }
}

/// The tools that the stacks need, in the order in which they are checked,
/// each with the package that brings it. Rust has no package: it comes by
/// its own installer, and the package `gcc` after it.
pub open spec fn required_tools() -> Seq<(Seq<char>, Seq<char>)> {
    seq![("dotnet"@, "dotnet-sdk-6.0"@), ("npm"@, "npm"@), ("rust"@, ""@)]
}

/// The program that is asked for its version on behalf of a tool.
pub open spec fn probed_program(tool_name: Seq<char>) -> Seq<char> {
    if tool_name == "rust"@ {
        "rustc"@
    } else {
        tool_name
    }
}

/// What follows from asking the Rust compiler for its version: Rust counts
/// as there only where the compiler reported success, and is installed by
/// its own installer.
pub open spec fn rust_step_after_probe(probe: Outcome) -> StepView {
    match probe {
        Outcome::NotStarted => StepView::Fail(KataError::ExternalToolLaunch),
        Outcome::Succeeded => StepView::Done,
        Outcome::Failed => StepView::InstallRust,
    }
}

/// What follows from asking a tool for its version. Rust goes by
/// `rust_step_after_probe`; any other tool counts as there once it could be
/// started, and is installed as the package named with it.
pub open spec fn step_after_probe(tool_name: Seq<char>, package_name: Seq<char>, probe: Outcome)
    -> StepView {
    if tool_name == "rust"@ {
        rust_step_after_probe(probe)
    } else {
        match probe {
            Outcome::NotStarted => StepView::InstallPackage(package_name),
            _ => StepView::Done,
        }
    }
}

/// The package that is installed once Rust's own installer has succeeded:
/// the C compiler that Rust links with.
pub open spec fn package_after_rust() -> Seq<char> {
    "gcc"@
}

/// What follows from how Rust's installer ended: after a success the
/// package `gcc` is installed.
pub open spec fn step_after_rust_installer(outcome: Outcome) -> StepView {
    match outcome {
        Outcome::NotStarted => StepView::Fail(KataError::ExternalToolLaunch),
        Outcome::Succeeded => StepView::InstallPackage(package_after_rust()),
        Outcome::Failed => StepView::Fail(KataError::ToolInstall),
    }
}

/// What follows from how the installation of a package ended.
pub open spec fn result_of_install(outcome: Outcome) -> Result<(), KataError> {
    match outcome {
        Outcome::NotStarted => Err(KataError::ExternalToolLaunch),
        Outcome::Succeeded => Ok(()),
        Outcome::Failed => Err(KataError::ToolInstall),
    }
}

/// The tools that the stacks need, in the order in which they are checked.
pub fn init() -> (r: Vec<Tool>)
    ensures
        r@.map_values(|t: Tool| t@) == required_tools(),
{
    let mut tools: Vec<Tool> = Vec::new();
    tools.push(Tool { name: "dotnet".to_owned(), package: "dotnet-sdk-6.0".to_owned() });
    tools.push(Tool { name: "npm".to_owned(), package: "npm".to_owned() });
    tools.push(Tool { name: "rust".to_owned(), package: "".to_owned() });
    tools
}

/// The command that asks a tool for its version.
pub fn probe_command(tool_name: &str) -> (r: ToolCommand)
    ensures
        r@ == (probed_program(tool_name@), seq!["--version"@]),
{
    if same_text(tool_name, "rust") {
        crate::scaffold::tool_command("rustc", "--version")
    } else {
        crate::scaffold::tool_command(tool_name, "--version")
    }
}

/// The command that installs a package: `sudo apt-get install -y` and the
/// package's name.
pub fn install_command(package_name: &str) -> (r: ToolCommand)
    ensures
        r@ == ("sudo"@, seq!["apt-get"@, "install"@, "-y"@, package_name@]),
{
    let mut args: Vec<String> = Vec::new();
    args.push("apt-get".to_owned());
    args.push("install".to_owned());
    args.push("-y".to_owned());
    args.push(package_name.to_owned());
    ToolCommand { program: "sudo".to_owned(), args }
}

/// The two commands that install Rust: the first fetches the installer, the
/// second runs what the first has written out.
pub fn rust_installer_commands() -> (r: (ToolCommand, ToolCommand))
    ensures
        r.0@ == (
            "curl"@,
            seq!["--proto"@, "https"@, "--tlsv1.2"@, "-sSf"@, "https://sh.rustup.rs"@],
        ),
        r.1@ == ("sh"@, Seq::<Seq<char>>::empty()),
{
    let mut args: Vec<String> = Vec::new();
    args.push("--proto".to_owned());
    args.push("https".to_owned());
    args.push("--tlsv1.2".to_owned());
    args.push("-sSf".to_owned());
    args.push("https://sh.rustup.rs".to_owned());
    let shell_args: Vec<String> = Vec::new();
    (
        ToolCommand { program: "curl".to_owned(), args },
        ToolCommand { program: "sh".to_owned(), args: shell_args },
    )
}

/// What to do once the Rust compiler has been asked for its version.
pub fn check_and_install_rust(probe: Outcome) -> (r: Step)
    ensures
        r@ == rust_step_after_probe(probe),
{
    match probe {
        Outcome::NotStarted => Step::Fail(KataError::ExternalToolLaunch),
        Outcome::Succeeded => Step::Done,
        Outcome::Failed => Step::InstallRust,
    }
}

/// What to do once a tool has been asked for its version. `package_name` is
/// the package that brings the tool.
pub fn check_and_install_tool(tool_name: &str, package_name: &str, probe: Outcome) -> (r: Step)
    ensures
        r@ == step_after_probe(tool_name@, package_name@, probe),
{
    if same_text(tool_name, "rust") {
        check_and_install_rust(probe)
    } else {
        match probe {
            Outcome::NotStarted => Step::InstallPackage(package_name.to_owned()),
            _ => Step::Done,
        }
    }
}

/// What follows from how Rust's installer ended: after a success the
/// package `gcc` is installed, after a failure nothing more is tried.
pub fn install_rust(outcome: Outcome) -> (r: Step)
    ensures
        r@ == step_after_rust_installer(outcome),
{
    match outcome {
        Outcome::NotStarted => Step::Fail(KataError::ExternalToolLaunch),
        Outcome::Succeeded => Step::InstallPackage("gcc".to_owned()),
        Outcome::Failed => Step::Fail(KataError::ToolInstall),
    }
}

/// What follows from how the installation of a package ended.
pub fn install_tool(outcome: Outcome) -> (r: Result<(), KataError>)
    ensures
        r == result_of_install(outcome),
{
    match outcome {
        Outcome::NotStarted => Err(KataError::ExternalToolLaunch),
        Outcome::Succeeded => Ok(()),
        Outcome::Failed => Err(KataError::ToolInstall),
    }
}

} // verus!
