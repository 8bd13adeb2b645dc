use vstd::prelude::*;

verus! {

/// A tamper-evident handshake timestamp: whole seconds plus a sub-second
/// nanosecond component. The wire encoding is opaque bytes; its natural
/// ordering is lexicographic on (seconds, nanoseconds).
#[derive(Clone, Copy, PartialEq, Eq, Debug)]
pub struct Tai64N {
    pub secs: u64,
    pub nanos: u32,
}

/// `b` is strictly newer than `a` under the format's natural ordering.
pub open spec fn ts_after(a: Tai64N, b: Tai64N) -> bool {
    b.secs > a.secs || (b.secs == a.secs && b.nanos > a.nanos)
}

/// The natural ordering on timestamps is transitive: strict growth of the
/// stored timestamp at each accepted initiation therefore gives strict
/// growth over any sequence of acceptances.
pub proof fn lemma_ts_after_transitive(a: Tai64N, b: Tai64N, c: Tai64N)
    requires
        ts_after(a, b),
        ts_after(b, c),
    ensures
        ts_after(a, c),
{
}

/// Pure replay-detection predicate: returns true iff `ts_new` is strictly
/// newer than `ts_old` under the format's natural ordering. Deterministic,
/// no side effects, never mutates its inputs.
pub fn compare(ts_old: &Tai64N, ts_new: &Tai64N) -> (r: bool)
    ensures
        r == ts_after(*ts_old, *ts_new),
{
    if ts_new.secs > ts_old.secs {
        true
    } else if ts_new.secs == ts_old.secs {
        ts_new.nanos > ts_old.nanos
    } else {
        false
    }
}

} // verus!
