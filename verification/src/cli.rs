//! Command-line decisions: argument validation, flag recognition, and the
//! choice of the output report path.
//!
//! Everything here is pure: the surrounding binary reads `std::env::args`,
//! hands the raw strings in, and performs whatever action is decided.

use vstd::prelude::*;

use crate::file_operations;

verus! {

/// The command-line entry point; the decision half of handling an
/// invocation lives on it, the binary performs what is decided.
pub struct Command {}

/// What a command line asks the tool to do.
#[derive(Debug, PartialEq, Eq)]
pub enum CliRequest {
    /// Print the version banner and stop.
    Version,
    /// Print the usage text and stop.
    Help,
    /// Generate a report for the given config file path.
    RunFile(String),
}

/// The argument selects the version banner.
pub open spec fn version_flag(a: Seq<char>) -> bool {
    a == "--version"@ || a == "-v"@
}

/// The argument selects the usage text.
pub open spec fn help_flag(a: Seq<char>) -> bool {
    a == "--help"@ || a == "-h"@
}

/// Character-by-character string comparison.
fn str_eq(a: &str, b: &str) -> (r: bool)
    ensures
        r == (a@ == b@),
{
    let na = a.unicode_len();
    let nb = b.unicode_len();
    if na != nb {
        return false;
    }
    let mut i: usize = 0;
    while i < na
        invariant
            i <= na,
            na == a@.len(),
            na == b@.len(),
            forall|j: int| 0 <= j < i ==> a@[j] == b@[j],
        decreases na - i,
    {
        if a.get_char(i) != b.get_char(i) {
            return false;
        }
        i = i + 1;
    }
    proof {
        assert(a@ =~= b@);
    }
    true
}

impl Command {
    /// Decides what a raw argument list asks for.
    ///
    /// Exactly one config-file path is expected; fewer or more arguments are
    /// rejected with the corresponding message, and the two flag pairs are
    /// recognised before the argument is taken as a path.
    pub fn parse(args: &Vec<String>) -> (r: Result<CliRequest, String>)
        ensures
            args@.len() < 2 ==> r is Err && r->Err_0@ == "not enough arguments"@,
            args@.len() > 2 ==> r is Err && r->Err_0@
                == "too many arguments, expecting only 2, such as `gainlineup filepath`"@,
            args@.len() == 2 && version_flag(args@[1]@) ==> r == Result::<
                CliRequest,
                String,
            >::Ok(CliRequest::Version),
            args@.len() == 2 && help_flag(args@[1]@) ==> r == Result::<CliRequest, String>::Ok(
                CliRequest::Help,
            ),
            args@.len() == 2 && !version_flag(args@[1]@) && !help_flag(args@[1]@) ==> r
                == Result::<CliRequest, String>::Ok(CliRequest::RunFile(args@[1])),
    {
        proof {
            // The two flag pairs are pairwise distinct: the literals differ
            // in length, or at index 1 for `-v` and `-h`.
            reveal_strlit("--version");
            reveal_strlit("-v");
            reveal_strlit("--help");
            reveal_strlit("-h");
            assert("--version"@.len() == 9);
            assert("--help"@.len() == 6);
            assert("-v"@[1] == 'v' && "-h"@[1] == 'h');
        }
        if args.len() < 2 {
            return Err(String::from_str("not enough arguments"));
        }
        if args.len() > 2 {
            return Err(
                String::from_str("too many arguments, expecting only 2, such as `gainlineup filepath`"),
            );
        }
        let arg = &args[1];
        if str_eq(arg.as_str(), "--version") || str_eq(arg.as_str(), "-v") {
            Ok(CliRequest::Version)
        } else if str_eq(arg.as_str(), "--help") || str_eq(arg.as_str(), "-h") {
            Ok(CliRequest::Help)
        } else {
            Ok(CliRequest::RunFile(arg.clone()))
        }
    }
}

/// The path starts with the Windows extended-length prefix `\\?\`.
pub open spec fn has_unc_prefix(s: Seq<char>) -> bool {
    s.len() >= 4 && s[0] == '\\' && s[1] == '\\' && s[2] == '?' && s[3] == '\\'
}

/// Where the HTML report is written for a path classified as `unix` / `win`
/// / `multi` (absolute, Windows absolute, nested relative): the path with
/// `.html` appended; a Windows path loses an extended-length `\\?\` prefix,
/// and a bare filename gains a `./` prefix.
pub open spec fn html_output_path_for(unix: bool, win: bool, multi: bool, s: Seq<char>) -> Seq<
    char,
> {
    let with_ext = s + ".html"@;
    if unix || win {
        if win && has_unc_prefix(with_ext) {
            with_ext.skip(4)
        } else {
            with_ext
        }
    } else if multi {
        with_ext
    } else {
        "./"@ + with_ext
    }
}

/// Derives the report path for a config file path, given its classification.
///
/// The classification may come from a different spelling of the same file
/// (the caller classifies the absolute path but names the report after the
/// path as typed), so it is passed in rather than recomputed.  At least one
/// flag must be set; [`file_operations::get_file_path_config`] always sets
/// exactly one.
pub fn output_html_path(config: &file_operations::FilePathConfig, file_path: &str) -> (r:
    String)
    requires
        config.unix_absolute_path || config.windows_absolute_path
            || config.relative_path_with_separators || config.bare_filename,
    ensures
        r@ == html_output_path_for(
            config.unix_absolute_path,
            config.windows_absolute_path,
            config.relative_path_with_separators,
            file_path@,
        ),
{
    let mut with_ext = String::from_str(file_path);
    with_ext.append(".html");
    if config.unix_absolute_path || config.windows_absolute_path {
        let wn = with_ext.as_str().unicode_len();
        let unc_prefixed = wn >= 4 && with_ext.as_str().get_char(0) == '\\'
            && with_ext.as_str().get_char(1) == '\\' && with_ext.as_str().get_char(2) == '?'
            && with_ext.as_str().get_char(3) == '\\';
        if config.windows_absolute_path && unc_prefixed {
            let stripped = with_ext.as_str().substring_char(4, wn);
            proof {
                assert(stripped@ =~= (file_path@ + ".html"@).skip(4));
            }
            stripped.to_owned()
        } else {
            with_ext
        }
    } else if config.relative_path_with_separators {
        with_ext
    } else {
        let mut r = String::from_str("./");
        r.append(with_ext.as_str());
        r
    }
}

} // verus!
