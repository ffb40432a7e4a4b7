//! Double-press detection of the Alt key from a stream of key events.
use vstd::prelude::*;

verus! {

/// Longest gap between two Alt releases that counts as a double press, in
/// microseconds.
pub const DOUBLE_PRESS_WINDOW_US: u64 = 400000;

/// A hotkey gesture recognised by the detector.
#[derive(Debug, Clone, Copy, PartialEq, Eq, Structural)]
pub enum HotkeyEvent {
    DoubleAlt,
}

/// State of the double-Alt gesture: whether one Alt release is waiting for its
/// partner, and when it happened.
#[derive(Debug, Clone, Copy, PartialEq, Eq, Structural)]
pub struct DoubleAltDetector {
    pub armed: bool,
    pub last_release_us: u64,
}

impl DoubleAltDetector {
    pub fn new() -> (r: Self)
        ensures
            !r.armed,
    {
        DoubleAltDetector { armed: false, last_release_us: 0 }
    }

    /// An Alt key was released at `now_us` (monotonic clock): a second release
    /// within the window completes the gesture and disarms; otherwise this
    /// release arms the detector.
    pub fn on_alt_release(&mut self, now_us: u64) -> (r: Option<HotkeyEvent>)
        ensures
            ({
                let fires = old(self).armed && (if now_us >= old(self).last_release_us {
                    now_us - old(self).last_release_us
                } else {
                    0
                }) < DOUBLE_PRESS_WINDOW_US;
                &&& r == (if fires { Some(HotkeyEvent::DoubleAlt) } else { None })
                &&& final(self).armed == !fires
                &&& final(self).last_release_us == now_us
            }),
    {
        let elapsed = now_us.saturating_sub(self.last_release_us);
        let fires = self.armed && elapsed < DOUBLE_PRESS_WINDOW_US;
        self.armed = !fires;
        self.last_release_us = now_us;
        if fires {
            Some(HotkeyEvent::DoubleAlt)
        } else {
            None
        }
    }

    /// A key other than Alt or AltGr was pressed: the gesture is broken.
    pub fn on_other_key_press(&mut self)
        ensures
            !final(self).armed,
            final(self).last_release_us == old(self).last_release_us,
    {
        self.armed = false;
    }
}

} // verus!
