//! The two lines of the raw-descriptor demonstration.
//!
//! The demonstration duplicates the process's standard output once,
//! keeps the duplicate for the whole run, and writes two short lines
//! through it with no buffering layer in between. The writing itself is
//! descriptor-level I/O and lives outside; these functions pin down the
//! exact bytes each line carries, newline included.

use vstd::prelude::*;

verus! {

/// The first line the demonstration writes.
pub fn print1() -> (r: &'static str)
    ensures
        r@ == "test1\n"@,
{
    "test1\n"
}

/// The second line the demonstration writes.
pub fn print2() -> (r: &'static str)
    ensures
        r@ == "test2\n"@,
{
    "test2\n"
}

} // verus!
