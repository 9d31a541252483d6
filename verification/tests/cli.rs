use linkbudget::cli::CliRequest;
use linkbudget::cli::Command;
use linkbudget::cli::output_html_path;
use linkbudget::file_operations::get_file_path_config;

fn html_path_of(path: &str) -> String {
    output_html_path(&get_file_path_config(path), path)
}

#[test]
fn test_help_flag() {
    // Help flag test - verifies the flag is recognized
    // Note: In actual execution, this would exit the process
    // This test just documents the expected behavior
    let help_flags = vec!["--help", "-h"];
    for flag in help_flags {
        assert!(flag == "--help" || flag == "-h");
    }
}

#[test]
fn test_version_flag() {
    // Version flag test - verifies the flag is recognized
    // Note: In actual execution, this would exit the process
    // This test just documents the expected behavior
    let version_flags = vec!["--version", "-v"];
    for flag in version_flags {
        assert!(flag == "--version" || flag == "-v");
    }
}

#[test]
fn test_parse_not_enough_args() {
    let args = vec![String::from("program_name")];
    let result = Command::parse(&args);
    assert_eq!(result, Err(String::from("not enough arguments")));
}

#[test]
fn test_parse_too_many_args() {
    let args = vec![
        String::from("program_name"),
        String::from("a.toml"),
        String::from("b.toml"),
    ];
    let result = Command::parse(&args);
    assert_eq!(
        result,
        Err(String::from(
            "too many arguments, expecting only 2, such as `gainlineup filepath`"
        ))
    );
}

#[test]
fn test_parse_version_flags() {
    for flag in ["--version", "-v"] {
        let args = vec![String::from("program_name"), String::from(flag)];
        assert_eq!(Command::parse(&args), Ok(CliRequest::Version));
    }
}

#[test]
fn test_parse_help_flags() {
    for flag in ["--help", "-h"] {
        let args = vec![String::from("program_name"), String::from(flag)];
        assert_eq!(Command::parse(&args), Ok(CliRequest::Help));
    }
}

#[test]
fn test_parse_file_path() {
    let args = vec![String::from("program_name"), String::from("tests/simple_config.toml")];
    assert_eq!(
        Command::parse(&args),
        Ok(CliRequest::RunFile(String::from("tests/simple_config.toml")))
    );
}

#[test]
fn test_output_html_path_absolute() {
    assert_eq!(html_path_of("/home/user/config.toml"), "/home/user/config.toml.html");
}

#[test]
fn test_output_html_path_relative_with_separators() {
    assert_eq!(html_path_of("files/config.toml"), "files/config.toml.html");
}

#[test]
fn test_output_html_path_bare_filename() {
    assert_eq!(html_path_of("config.toml"), "./config.toml.html");
}

#[test]
fn test_output_html_path_windows_drive() {
    assert_eq!(html_path_of("C:\\configs\\link.toml"), "C:\\configs\\link.toml.html");
}

#[test]
fn test_output_html_path_windows_unc_prefix_stripped() {
    // The Windows extended-length prefix \\?\ is removed from the output path
    assert_eq!(
        html_path_of("\\\\?\\C:\\configs\\link.toml"),
        "C:\\configs\\link.toml.html"
    );
}
