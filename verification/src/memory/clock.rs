//! A clock that moves only when it is told to.
use vstd::prelude::*;

use crate::error::{failure, fault, fault_of, CentralErrorCode, CentralResult};
use crate::identifier::UnixMillis;

verus! {

#[derive(Debug)]
pub struct InMemoryClock {
    now_ms: u64,
}

impl View for InMemoryClock {
    type V = u64;

    closed spec fn view(&self) -> u64 {
        self.now_ms
    }
}

impl InMemoryClock {
    #[must_use]
    pub fn new(now_ms: u64) -> (clock: Self)
        ensures
            clock@ == now_ms,
    {
        Self { now_ms }
    }

    pub fn set(&mut self, now_ms: u64)
        ensures
            final(self)@ == now_ms,
    {
        self.now_ms = now_ms;
    }

    /// Moves the clock on and gives the new time. A clock that would overflow stays where it is.
    pub fn advance(&mut self, delta_ms: u64) -> (result: CentralResult<u64>)
        ensures
            fault_of(result) == if old(self)@ + delta_ms > u64::MAX {
                Some(fault(CentralErrorCode::Internal, "clock overflow"@))
            } else {
                None
            },
            result matches Ok(now) ==> now == old(self)@ + delta_ms && final(self)@ == now,
            result is Err ==> final(self)@ == old(self)@,
    {
        match self.now_ms.checked_add(delta_ms) {
            Some(now) => {
                self.now_ms = now;
                Ok(now)
            },
            None => Err(failure(CentralErrorCode::Internal, "clock overflow")),
        }
    }

    #[must_use]
    pub fn now(&self) -> (now: UnixMillis)
        ensures
            now == self@,
    {
        self.now_ms
    }
}

impl Default for InMemoryClock {
    fn default() -> (clock: Self)
        ensures
            clock@ == 0,
    {
        Self::new(0)
    }
}

} // verus!
