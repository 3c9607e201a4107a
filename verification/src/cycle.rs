//! The cycle of output configurations.
//!
//! Six configurations pair an output stream (stdout or stderr) with a
//! buffering mode (unbuffered through a raw duplicated descriptor,
//! line-buffered, or block-buffered). They stand in a fixed cyclic
//! order; a switch request moves forward one position and wraps after
//! the last back to the first. Opening the actual stream for a
//! configuration is I/O and is left to the unverified front end; the
//! library owns the order, the labels and the wraparound arithmetic.

use vstd::prelude::*;

use vstd::arithmetic::div_mod::lemma_add_mod_noop;
use vstd::arithmetic::div_mod::lemma_mod_add_multiples_vanish;
use vstd::arithmetic::div_mod::lemma_mod_equivalence;
use vstd::arithmetic::div_mod::lemma_small_mod;

verus! {

/// One output configuration: a standard stream with a buffering mode.
#[derive(Clone, Copy, PartialEq, Eq, Structural, Debug)]
pub enum IoStream {
    Stdout,
    LineBufferedStdout,
    BlockBufferedStdout,
    Stderr,
    LineBufferedStderr,
    BlockBufferedStderr,
}

/// The position of a configuration in the fixed cyclic order.
pub open spec fn index_of(s: IoStream) -> int {
    match s {
        IoStream::Stdout => 0,
        IoStream::LineBufferedStdout => 1,
        IoStream::BlockBufferedStdout => 2,
        IoStream::Stderr => 3,
        IoStream::LineBufferedStderr => 4,
        IoStream::BlockBufferedStderr => 5,
    }
}

/// The configuration standing at a position of the cyclic order.
pub open spec fn at_index(i: int) -> IoStream {
    if i == 0 {
        IoStream::Stdout
    } else if i == 1 {
        IoStream::LineBufferedStdout
    } else if i == 2 {
        IoStream::BlockBufferedStdout
    } else if i == 3 {
        IoStream::Stderr
    } else if i == 4 {
        IoStream::LineBufferedStderr
    } else {
        IoStream::BlockBufferedStderr
    }
}

/// The successor of a configuration in the cycle.
pub open spec fn spec_advance(s: IoStream) -> IoStream {
    match s {
        IoStream::Stdout => IoStream::LineBufferedStdout,
        IoStream::LineBufferedStdout => IoStream::BlockBufferedStdout,
        IoStream::BlockBufferedStdout => IoStream::Stderr,
        IoStream::Stderr => IoStream::LineBufferedStderr,
        IoStream::LineBufferedStderr => IoStream::BlockBufferedStderr,
        IoStream::BlockBufferedStderr => IoStream::Stdout,
    }
}

/// The configuration reached from `s` after `n` forward moves.
pub open spec fn advance_n(s: IoStream, n: nat) -> IoStream
    decreases n,
{
    if n == 0 {
        s
    } else {
        spec_advance(advance_n(s, (n - 1) as nat))
    }
}

/// The human-readable label of a configuration.
pub open spec fn label_spec(s: IoStream) -> Seq<char> {
    match s {
        IoStream::Stdout => "stdout (unbuffered)"@,
        IoStream::LineBufferedStdout => "stdout (line buffered)"@,
        IoStream::BlockBufferedStdout => "stdout (block buffered)"@,
        IoStream::Stderr => "stderr (unbuffered)"@,
        IoStream::LineBufferedStderr => "stderr (line buffered)"@,
        IoStream::BlockBufferedStderr => "stderr (block buffered)"@,
    }
}

impl Default for IoStream {
    /// The cycle starts at unbuffered stdout.
    fn default() -> (s: IoStream)
        ensures
            s == IoStream::Stdout,
    {
        IoStream::Stdout
    }
}

impl IoStream {
    /// Move forward one position in the cyclic order, wrapping after
    /// the last configuration back to the first.
    pub fn advance(self) -> (n: IoStream)
        ensures
            n == spec_advance(self),
            index_of(n) == (index_of(self) + 1) % 6,
    {
        proof {
            lemma_index_step(self);
        }
        match self {
            IoStream::Stdout => IoStream::LineBufferedStdout,
            IoStream::LineBufferedStdout => IoStream::BlockBufferedStdout,
            IoStream::BlockBufferedStdout => IoStream::Stderr,
            IoStream::Stderr => IoStream::LineBufferedStderr,
            IoStream::LineBufferedStderr => IoStream::BlockBufferedStderr,
            IoStream::BlockBufferedStderr => IoStream::Stdout,
        }
    }

    /// The label naming the stream and its buffering mode.
    pub fn label(self) -> (r: &'static str)
        ensures
            r@ == label_spec(self),
    {
        match self {
            IoStream::Stdout => "stdout (unbuffered)",
            IoStream::LineBufferedStdout => "stdout (line buffered)",
            IoStream::BlockBufferedStdout => "stdout (block buffered)",
            IoStream::Stderr => "stderr (unbuffered)",
            IoStream::LineBufferedStderr => "stderr (line buffered)",
            IoStream::BlockBufferedStderr => "stderr (block buffered)",
        }
    }
}

/// Every configuration sits at a position below six, and the position
/// determines the configuration.
proof fn lemma_index_round_trip(s: IoStream)
    ensures
        0 <= index_of(s) < 6,
        at_index(index_of(s)) == s,
{
}

/// One forward move adds one to the position, modulo six.
proof fn lemma_index_step(s: IoStream)
    ensures
        index_of(spec_advance(s)) == (index_of(s) + 1) % 6,
{
}

/// `n` forward moves add `n` to the position, modulo six.
proof fn lemma_advance_n_index(s: IoStream, n: nat)
    ensures
        index_of(advance_n(s, n)) == (index_of(s) + n) % 6,
    decreases n,
{
    lemma_index_round_trip(s);
    if n == 0 {
        lemma_small_mod(index_of(s) as nat, 6);
    } else {
        let prev = advance_n(s, (n - 1) as nat);
        lemma_advance_n_index(s, (n - 1) as nat);
        lemma_index_step(prev);
        lemma_add_mod_noop(index_of(s) + n - 1, 1, 6);
        lemma_small_mod(1, 6);
    }
}

/// Six forward moves return every configuration to itself: the cycle
/// closes after exactly one full round.
pub proof fn lemma_cycle_closure(s: IoStream)
    ensures
        advance_n(s, 6) == s,
{
    lemma_advance_n_index(s, 6);
    lemma_mod_add_multiples_vanish(index_of(s), 6);
    lemma_index_round_trip(s);
    lemma_small_mod(index_of(s) as nat, 6);
    lemma_index_round_trip(advance_n(s, 6));
}

/// Within one full round the cycle never repeats: the six
/// configurations reached by zero to five forward moves are pairwise
/// distinct, so each is visited exactly once per round.
pub proof fn lemma_cycle_visits_once(s: IoStream)
    ensures
        forall|i: int, j: int|
            0 <= i < j < 6 ==> #[trigger] advance_n(s, i as nat) != #[trigger] advance_n(s, j as nat),
{
    assert forall|i: int, j: int|
        0 <= i < j < 6 implies #[trigger] advance_n(s, i as nat) != #[trigger] advance_n(
        s,
        j as nat,
    ) by {
        lemma_advance_n_index(s, i as nat);
        lemma_advance_n_index(s, j as nat);
        if advance_n(s, i as nat) == advance_n(s, j as nat) {
            lemma_mod_equivalence(index_of(s) + i, index_of(s) + j, 6);
            lemma_small_mod((j - i) as nat, 6);
            assert((index_of(s) + j - (index_of(s) + i)) % 6 == (j - i) % 6);
            assert(false);
        }
    }
}

} // verus!
