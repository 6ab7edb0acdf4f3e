use kata_machine::bootstrap::{
    check_and_install_rust, check_and_install_tool, install_command, install_rust, install_tool,
    probe_command, rust_installer_commands, Outcome, Step, Tool,
};
use kata_machine::scaffold::ToolCommand;
use kata_machine::{init, KataError};

fn command(program: &str, args: &[&str]) -> ToolCommand {
    ToolCommand {
        program: program.to_string(),
        args: args.iter().map(|s| s.to_string()).collect(),
    }
}

#[test]
fn tools_in_the_order_of_checking() {
    assert_eq!(
        init(),
        vec![
            Tool { name: "dotnet".to_string(), package: "dotnet-sdk-6.0".to_string() },
            Tool { name: "npm".to_string(), package: "npm".to_string() },
            Tool { name: "rust".to_string(), package: "".to_string() },
        ]
    );
}

#[test]
fn tools_are_asked_for_their_version() {
    assert_eq!(probe_command("dotnet"), command("dotnet", &["--version"]));
    assert_eq!(probe_command("npm"), command("npm", &["--version"]));
    assert_eq!(probe_command("rust"), command("rustc", &["--version"]));
}

#[test]
fn packages_are_installed_with_apt() {
    assert_eq!(
        install_command("dotnet-sdk-6.0"),
        command("sudo", &["apt-get", "install", "-y", "dotnet-sdk-6.0"])
    );
    assert_eq!(install_command("gcc"), command("sudo", &["apt-get", "install", "-y", "gcc"]));
}

#[test]
fn rust_is_installed_by_its_installer() {
    let (fetch, run) = rust_installer_commands();
    assert_eq!(
        fetch,
        command("curl", &["--proto", "https", "--tlsv1.2", "-sSf", "https://sh.rustup.rs"])
    );
    assert_eq!(run, command("sh", &[]));
}

#[test]
fn a_tool_that_starts_is_there() {
    assert_eq!(check_and_install_tool("npm", "npm", Outcome::Succeeded), Step::Done);
    assert_eq!(check_and_install_tool("npm", "npm", Outcome::Failed), Step::Done);
    assert_eq!(
        check_and_install_tool("npm", "npm", Outcome::NotStarted),
        Step::InstallPackage("npm".to_string())
    );
    assert_eq!(
        check_and_install_tool("dotnet", "dotnet-sdk-6.0", Outcome::NotStarted),
        Step::InstallPackage("dotnet-sdk-6.0".to_string())
    );
}

#[test]
fn rust_is_there_where_its_compiler_succeeds() {
    assert_eq!(check_and_install_tool("rust", "", Outcome::Succeeded), Step::Done);
    assert_eq!(check_and_install_tool("rust", "", Outcome::Failed), Step::InstallRust);
    assert_eq!(check_and_install_tool("rust", "anything", Outcome::Failed), Step::InstallRust);
    assert_eq!(
        check_and_install_tool("rust", "", Outcome::NotStarted),
        Step::Fail(KataError::ExternalToolLaunch)
    );
    assert_eq!(check_and_install_rust(Outcome::Succeeded), Step::Done);
    assert_eq!(check_and_install_rust(Outcome::Failed), Step::InstallRust);
    assert_eq!(
        check_and_install_rust(Outcome::NotStarted),
        Step::Fail(KataError::ExternalToolLaunch)
    );
}

#[test]
fn after_rust_comes_gcc() {
    assert_eq!(install_rust(Outcome::Succeeded), Step::InstallPackage("gcc".to_string()));
    assert_eq!(install_rust(Outcome::Failed), Step::Fail(KataError::ToolInstall));
    assert_eq!(install_rust(Outcome::NotStarted), Step::Fail(KataError::ExternalToolLaunch));
    let Step::InstallPackage(package) = install_rust(Outcome::Succeeded) else {
        panic!("a package follows the installer");
    };
    assert_eq!(
        install_command(&package),
        command("sudo", &["apt-get", "install", "-y", "gcc"])
    );
}

#[test]
fn every_tool_is_checked_with_its_package() {
    let steps: Vec<Step> = init()
        .iter()
        .map(|tool| check_and_install_tool(&tool.name, &tool.package, Outcome::NotStarted))
        .collect();
    assert_eq!(
        steps,
        vec![
            Step::InstallPackage("dotnet-sdk-6.0".to_string()),
            Step::InstallPackage("npm".to_string()),
            Step::Fail(KataError::ExternalToolLaunch),
        ]
    );
}

#[test]
fn how_an_installation_ends() {
    assert_eq!(install_tool(Outcome::Succeeded), Ok(()));
    assert_eq!(install_tool(Outcome::Failed), Err(KataError::ToolInstall));
    assert_eq!(install_tool(Outcome::NotStarted), Err(KataError::ExternalToolLaunch));
}
