use crate::config::hero::{ComboAction, ComboTrigger};
use crate::macro_engine::timing::{elapsed_ms, elapsed_since};
use vstd::prelude::*;

verus! {

/// A combo together with the time of the last key that advanced it.
#[derive(Debug)]
pub struct ComboTracker {
    pub name: String,
    pub trigger: ComboTrigger,
    pub action: ComboAction,
    pub last_key_time: u64,
}

impl ComboTracker {
    pub fn new(name: &str, trigger: ComboTrigger, action: ComboAction, now: u64) -> (r: ComboTracker)
        ensures
            r.name@ == name@,
            r.trigger == trigger,
            r.action == action,
            r.last_key_time == now,
    {
        ComboTracker { name: name.to_owned(), trigger, action, last_key_time: now }
    }

    /// Records `now` as the time of the last key.
    pub fn update_time(&mut self, now: u64)
        ensures
            final(self).last_key_time == now,
            final(self).name == old(self).name,
            final(self).trigger == old(self).trigger,
            final(self).action == old(self).action,
    {
        self.last_key_time = now;
    }

    /// More than `timeout_ms` milliseconds have passed since the last key.
    pub fn is_expired(&self, timeout_ms: u64, now: u64) -> (r: bool)
        ensures
            r == (elapsed_ms(self.last_key_time, now) > timeout_ms),
    {
        elapsed_since(self.last_key_time, now) > timeout_ms
    }
}

} // verus!
