use vstd::prelude::*;

verus! {

/// State of the on-screen messages.
#[derive(Clone, Copy, Debug, PartialEq, Eq, Structural)]
pub struct Ui {
    /// Frames left to show the speed message.
    pub speed_msg_timer: u8,
}

impl Ui {
    /// No message shown.
    pub fn new() -> (r: Ui)
        ensures
            r.speed_msg_timer == 0,
    {
        Ui { speed_msg_timer: 0 }
    }
}

} // verus!
