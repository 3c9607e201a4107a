//! Configuration of the timing-profile run: which standard stream to
//! draw on, read case-insensitively from optional configuration text,
//! and how long to run before exiting.
//!
//! The run draws the animated field onto stdout or stderr for a fixed
//! number of seconds. The environment is read outside; this module
//! decides what the values mean, with a default of stdout and of five
//! seconds when a value is absent or malformed.

use vstd::prelude::*;

use crate::numtext::denotes_u64;
use crate::numtext::parse_u64;

verus! {

/// The stream the timing-profile run draws on.
#[derive(Clone, Copy, PartialEq, Eq, Structural, Debug)]
pub enum IoStream {
    Stdout,
    Stderr,
}

/// Lower-case an ASCII letter; anything else passes through.
pub open spec fn ascii_lower(b: u8) -> u8 {
    if 65 <= b <= 90 {
        (b + 32) as u8
    } else {
        b
    }
}

/// The ASCII lower-casing of a whole byte sequence.
pub open spec fn lower_bytes(s: Seq<u8>) -> Seq<u8> {
    s.map_values(|b: u8| ascii_lower(b))
}

/// The name `stdout`, as bytes.
pub open spec fn stdout_name() -> Seq<u8> {
    seq!['s' as u8, 't' as u8, 'd' as u8, 'o' as u8, 'u' as u8, 't' as u8]
}

/// The name `stderr`, as bytes.
pub open spec fn stderr_name() -> Seq<u8> {
    seq!['s' as u8, 't' as u8, 'd' as u8, 'e' as u8, 'r' as u8, 'r' as u8]
}

/// The stream a configuration value picks: `stdout` or `stderr` in any
/// letter case, and stdout for everything else.
pub open spec fn stream_for_name(s: Seq<u8>) -> IoStream {
    if lower_bytes(s) == stderr_name() {
        IoStream::Stderr
    } else {
        IoStream::Stdout
    }
}

/// Lower-case one ASCII byte.
fn lower_byte(b: u8) -> (r: u8)
    ensures
        r == ascii_lower(b),
{
    if b >= 65 && b <= 90 {
        b + 32
    } else {
        b
    }
}

impl Default for IoStream {
    /// The stream drawn on when nothing is configured.
    fn default() -> (s: IoStream)
        ensures
            s == IoStream::Stdout,
    {
        IoStream::Stdout
    }
}

impl IoStream {
    /// The stream a configuration value picks, compared without regard
    /// to ASCII letter case; anything unrecognized falls back to
    /// stdout.
    pub fn from(name: &[u8]) -> (s: IoStream)
        ensures
            s == stream_for_name(name@),
    {
        if name.len() == 6 {
            let b0 = lower_byte(name[0]);
            let b1 = lower_byte(name[1]);
            let b2 = lower_byte(name[2]);
            let b3 = lower_byte(name[3]);
            let b4 = lower_byte(name[4]);
            let b5 = lower_byte(name[5]);
            proof {
                assert(lower_bytes(name@).len() == 6);
                assert(lower_bytes(name@)[0] == b0);
                assert(lower_bytes(name@)[1] == b1);
                assert(lower_bytes(name@)[2] == b2);
                assert(lower_bytes(name@)[3] == b3);
                assert(lower_bytes(name@)[4] == b4);
                assert(lower_bytes(name@)[5] == b5);
            }
            if b0 == 115 && b1 == 116 && b2 == 100 && b3 == 101 && b4 == 114 && b5 == 114 {
                proof {
                    assert(lower_bytes(name@) =~= stderr_name());
                }
                return IoStream::Stderr;
            }
            proof {
                assert(lower_bytes(name@) != stderr_name());
            }
        } else {
            proof {
                assert(lower_bytes(name@).len() == name@.len());
                assert(lower_bytes(name@) != stderr_name());
            }
        }
        IoStream::Stdout
    }
}

/// The configured run length in whole seconds: the number the optional
/// text denotes, or five when the text is absent or not a number.
pub fn exit_after_secs(text: Option<&[u8]>) -> (r: u64)
    ensures
        match text {
            Some(t) => denotes_u64(t@, r as int) || (r == 5 && forall|v: int|
                0 <= v <= u64::MAX ==> !denotes_u64(t@, v)),
            None => r == 5,
        },
{
    match text {
        Some(t) => match parse_u64(t) {
            Some(v) => v,
            None => 5,
        },
        None => 5,
    }
}

/// Whether the run's time is up: at least the configured number of
/// seconds has passed since the start.
pub fn exit_due(start_millis: u64, now_millis: u64, exit_after_secs: u64) -> (r: bool)
    requires
        start_millis <= now_millis,
    ensures
        r == (now_millis - start_millis >= exit_after_secs * 1000),
{
    let elapsed: u128 = (now_millis - start_millis) as u128;
    elapsed >= (exit_after_secs as u128) * 1000
}

} // verus!
