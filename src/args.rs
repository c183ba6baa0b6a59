use vstd::prelude::*;

verus! {

/// The sit length used when none is configured, in minutes.
pub const DEFAULT_SIT_MINUTES: u32 = 20;

/// The stand length used when none is configured, in minutes.
pub const DEFAULT_STAND_MINUTES: u32 = 5;

/// The configured phase lengths, in minutes.
pub struct Args {
    /// Sit time in minutes
    pub sit_time: u32,
    /// Stand time in minutes
    pub stand_time: u32,
}

impl Default for Args {
    /// Twenty minutes of sitting, five of standing.
    fn default() -> (r: Args)
        ensures
            r.sit_time == DEFAULT_SIT_MINUTES,
            r.stand_time == DEFAULT_STAND_MINUTES,
    {
        Args { sit_time: DEFAULT_SIT_MINUTES, stand_time: DEFAULT_STAND_MINUTES }
    }
}

} // verus!
