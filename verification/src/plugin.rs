//! The configuration the host application registers the splash screen
//! with: the host state the overlay is active in, and an optional
//! follow-up state.

use vstd::prelude::*;

verus! {

/// Configuration of the splash screen: the overlay lives while the host is
/// in `state`.  The follow-up state is accepted and stored, but no update
/// or exit logic here consumes it; it is reserved for hosts that read it.
pub struct JammySplashScreenPlugin<S> {
    /// The host state during which the overlay lives.
    pub state: S,
    /// An optional follow-up state; reserved, driving no logic here.
    pub next_state: Option<S>,
}

impl<S> JammySplashScreenPlugin<S> {
    /// Configuration for a splash screen active during `state`, with no
    /// follow-up state.
    pub fn new(state: S) -> (p: Self)
        ensures
            p.state == state,
            p.next_state is None,
    {
        JammySplashScreenPlugin { state, next_state: None }
    }

    /// The same configuration with the follow-up state recorded.
    pub fn continue_to(self, next_state: S) -> (p: Self)
        ensures
            p.state == self.state,
            p.next_state == Some(next_state),
    {
        JammySplashScreenPlugin { state: self.state, next_state: Some(next_state) }
    }
}

} // verus!
