//! Delivery policies: each outbound message carries the retry budget of its
//! delivery class.

use vstd::prelude::*;

verus! {

/// A span of time in microseconds.
#[derive(Debug, Clone, Copy, PartialEq, Eq, Structural)]
pub struct Duration {
    pub micros: u64,
}

impl Duration {
    pub fn from_micros(micros: u64) -> (r: Self)
        ensures
            r.micros == micros,
    {
        Duration { micros }
    }

    pub fn from_millis(millis: u64) -> (r: Self)
        requires
            millis * 1000 <= u64::MAX,
        ensures
            r.micros == millis * 1000,
    {
        Duration { micros: millis * 1000 }
    }

    pub fn as_micros(&self) -> (r: u64)
        ensures
            r == self.micros,
    {
        self.micros
    }
}

/// Retry budget of latency-sensitive, loss-tolerant traffic, in microseconds.
pub const LOW_LATENCY_TIMEOUT_US: u64 = 500;

/// Retry budget of traffic that must land, in microseconds.
pub const RELIABLE_TIMEOUT_US: u64 = 2000;

/// An outbound message and its retry budget; `None` means it is sent once
/// and never retried.
#[derive(Debug)]
pub struct TransmittedMessage<T> {
    pub msg: T,
    pub timeout: Option<Duration>,
}

pub fn low_latency_msg<T>(msg: T) -> (r: TransmittedMessage<T>)
    ensures
        r.msg == msg,
        r.timeout == Some(Duration { micros: LOW_LATENCY_TIMEOUT_US }),
{
    TransmittedMessage { msg, timeout: Some(Duration::from_micros(LOW_LATENCY_TIMEOUT_US)) }
}

pub fn reliable_msg<T>(msg: T) -> (r: TransmittedMessage<T>)
    ensures
        r.msg == msg,
        r.timeout == Some(Duration { micros: RELIABLE_TIMEOUT_US }),
{
    TransmittedMessage { msg, timeout: Some(Duration::from_millis(2)) }
}

pub fn unreliable_msg<T>(msg: T) -> (r: TransmittedMessage<T>)
    ensures
        r.msg == msg,
        r.timeout is None,
{
    TransmittedMessage { msg, timeout: None }
}

} // verus!
