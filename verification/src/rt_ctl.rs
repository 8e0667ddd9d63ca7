//! The realtime/watchdog control surface: a process-wide service every
//! long-running background task must unsubscribe from (and lower its
//! own priority against) before doing blocking work.

use vstd::prelude::*;

verus! {

/// Watchdog and scheduling control, implemented outside this crate per
/// platform.
pub trait RtSystemControl {
    fn wdt_subscribe_me();

    fn wdt_unsubscribe_me();

    fn wdt_feed_the_puppy();

    fn set_low_priority();
}

} // verus!
