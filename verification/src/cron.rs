//! Scheduling decisions of the photo loop.
use vstd::prelude::*;

verus! {

/// The photo loop: it wakes at the start of every minute and photographs
/// on the minutes divisible by five.
pub struct Croner;

impl Croner {
    /// Seconds to wait, from a clock reading whose second is `second`,
    /// until the start of the next minute.
    pub fn seconds_until_next_minute(second: u8) -> (r: u64)
        requires
            second <= 60,
        ensures
            r == 60 - second,
    {
        60 - second as u64
    }

    /// Whether a photo is taken in the minute `minute` of the hour.
    pub fn is_photo_minute(minute: u8) -> (r: bool)
        ensures
            r == (minute % 5 == 0),
    {
        minute % 5 == 0
    }
}

} // verus!
