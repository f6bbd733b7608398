//! The transaction fields a validation error reports, lock times and input
//! sequence numbers, held as their consensus values.

use vstd::prelude::*;

use crate::text::{decimal, push_decimal};

verus! {

/// Below this consensus value a lock time is a block height; from it on, a UNIX
/// timestamp.
pub const LOCK_TIME_THRESHOLD: u32 = 500_000_000;

/// A block height of an absolute lock time.
#[derive(Debug, Clone, Copy, PartialEq, Eq, Structural)]
pub struct Height(pub u32);

/// A UNIX timestamp (seconds since epoch) of an absolute lock time.
#[derive(Debug, Clone, Copy, PartialEq, Eq, Structural)]
pub struct Time(pub u32);

/// An absolute lock time: a block height or a UNIX timestamp.
#[derive(Debug, Clone, Copy, PartialEq, Eq, Structural)]
pub enum LockTime {
    Blocks(Height),
    Seconds(Time),
}

/// The sequence number of a transaction input.
#[derive(Debug, Clone, Copy, PartialEq, Eq, Structural)]
pub struct Sequence(pub u32);

/// The consensus value of a lock time.
pub open spec fn lock_time_value(t: LockTime) -> u32 {
    match t {
        LockTime::Blocks(h) => h.0,
        LockTime::Seconds(s) => s.0,
    }
}

/// A lock time as its `Display` writes it: its value in decimal.
pub open spec fn lock_time_text(t: LockTime) -> Seq<char> {
    decimal(lock_time_value(t) as nat)
}

/// A lock time as its derived `Debug` writes it.
pub open spec fn lock_time_debug(t: LockTime) -> Seq<char> {
    match t {
        LockTime::Blocks(h) => "Blocks(Height("@ + decimal(h.0 as nat) + "))"@,
        LockTime::Seconds(s) => "Seconds(Time("@ + decimal(s.0 as nat) + "))"@,
    }
}

/// A sequence number as its `Display` writes it: its value in decimal.
pub open spec fn sequence_text(s: Sequence) -> Seq<char> {
    decimal(s.0 as nat)
}

/// A sequence number as its derived `Debug` writes it.
pub open spec fn sequence_debug(s: Sequence) -> Seq<char> {
    "Sequence("@ + decimal(s.0 as nat) + ")"@
}

impl LockTime {
    /// The lock time of an nLockTime value: a block height below the threshold, a
    /// timestamp from it on.
    pub fn from_consensus(n: u32) -> (r: LockTime)
        ensures
            lock_time_value(r) == n,
            r is Blocks <==> n < LOCK_TIME_THRESHOLD,
    {
        if n < LOCK_TIME_THRESHOLD {
            LockTime::Blocks(Height(n))
        } else {
            LockTime::Seconds(Time(n))
        }
    }

    /// The lock time as its `Display` writes it.
    pub fn to_string(&self) -> (r: String)
        ensures
            r@ == lock_time_text(*self),
    {
        let mut s = String::new();
        match self {
            LockTime::Blocks(h) => push_decimal(&mut s, h.0 as u64),
            LockTime::Seconds(t) => push_decimal(&mut s, t.0 as u64),
        }
        assert(s@ =~= lock_time_text(*self));
        s
    }

    /// The lock time as its derived `Debug` writes it.
    pub fn debug_string(&self) -> (r: String)
        ensures
            r@ == lock_time_debug(*self),
    {
        match self {
            LockTime::Blocks(h) => {
                let mut s = "Blocks(Height(".to_owned();
                push_decimal(&mut s, h.0 as u64);
                s.append("))");
                assert(s@ =~= lock_time_debug(*self));
                s
            },
            LockTime::Seconds(t) => {
                let mut s = "Seconds(Time(".to_owned();
                push_decimal(&mut s, t.0 as u64);
                s.append("))");
                assert(s@ =~= lock_time_debug(*self));
                s
            },
        }
    }
}

impl Sequence {
    /// The sequence number as its `Display` writes it.
    pub fn to_string(&self) -> (r: String)
        ensures
            r@ == sequence_text(*self),
    {
        let mut s = String::new();
        push_decimal(&mut s, self.0 as u64);
        assert(s@ =~= sequence_text(*self));
        s
    }

    /// The sequence number as its derived `Debug` writes it.
    pub fn debug_string(&self) -> (r: String)
        ensures
            r@ == sequence_debug(*self),
    {
        let mut s = "Sequence(".to_owned();
        push_decimal(&mut s, self.0 as u64);
        s.append(")");
        assert(s@ =~= sequence_debug(*self));
        s
    }
}

} // verus!
