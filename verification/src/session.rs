//! The decisions of one polling session: whether any module was found, and
//! when the management info is due again. Times are milliseconds since the
//! session started.
use vstd::prelude::*;
use crate::error::{AppError, AppFault};
use crate::model::ModuleIdentity;
use crate::text::{decimal, text_with_number, push_decimal};

verus! {

pub open spec fn nothing_found_text(scan_start: u8, scan_end: u8) -> Seq<char> {
    "no modules discovered in range "@ + decimal(scan_start as nat) + "..="@ + decimal(scan_end as nat)
}

/// A session needs at least one module to poll.
pub fn require_modules(modules: &[ModuleIdentity], scan_start: u8, scan_end: u8) -> (res: Result<(), AppError>)
    ensures
        modules@.len() > 0 ==> res is Ok,
        modules@.len() == 0 ==> res is Err && res->Err_0@ == AppFault::InvalidState(nothing_found_text(scan_start, scan_end)),
{
    if modules.len() > 0 {
        return Ok(());
    }
    let mut m = text_with_number("no modules discovered in range ", scan_start as u64, "..=");
    push_decimal(&mut m, scan_end as u64);
    Err(AppError::InvalidState(m))
}

/// When the management info of the modules is to be polled next.
pub struct ManagementSchedule {
    next_due: u64,
    interval: u64,
}

impl ManagementSchedule {
    pub closed spec fn next_due(&self) -> u64 {
        self.next_due
    }

    pub closed spec fn interval(&self) -> u64 {
        self.interval
    }

    /// Due at once, then every `interval` milliseconds.
    pub fn new(interval: u64) -> (res: Self)
        ensures
            res.next_due() == 0,
            res.interval() == interval,
    {
        ManagementSchedule { next_due: 0, interval }
    }

    pub fn is_due(&self, now: u64) -> (res: bool)
        ensures
            res == (now >= self.next_due()),
    {
        now >= self.next_due
    }

    /// The management info was polled at `now`: due again one interval
    /// later (at the end of time if that is beyond it).
    pub fn polled_at(&mut self, now: u64)
        ensures
            final(self).interval() == old(self).interval(),
            final(self).next_due() as int == if now + old(self).interval() > u64::MAX {
                u64::MAX as int
            } else {
                now + old(self).interval()
            },
    {
        self.next_due = if now > u64::MAX - self.interval { u64::MAX } else { now + self.interval };
    }
}

} // verus!
