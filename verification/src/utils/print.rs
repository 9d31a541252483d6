//! Fixed-width console table rows.

use std::io::Write;
use vstd::prelude::*;

verus! {

/// Relies on std's `writeln!` to standard output: prints the three cells as
/// one table row, padded to widths 20 / 20 / 5.
#[verifier::external_body]
pub fn print_row(msg1: &str, msg2: &str, msg3: &str) {
    let _ = writeln!(std::io::stdout(), "{0: <20} | {1: <20} | {2: <5}", msg1, msg2, msg3);
}

/// Prints the dashed rule that opens a table.
pub fn print_header() {
    print_row("--------------", "-----", "----");
}

} // verus!
