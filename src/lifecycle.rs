//! The lifecycle controller: quitting, closing windows, and the bounded
//! shutdown of the worker when the application exits.
use vstd::prelude::*;

verus! {

/// How long the exit path waits for the worker to end after asking it to,
/// in milliseconds, before killing it.
pub const EXIT_GRACE_MS: u64 = 500;

/// Delay after launch before the worker is started, in milliseconds.
pub const STARTUP_DELAY_MS: u64 = 500;

/// What to do with a window whose close was requested.
#[derive(Clone, Copy, Debug, PartialEq, Eq, Structural)]
pub enum CloseAction {
    /// Let the window close.
    Close,
    /// Keep the application in the background: cancel the close and hide the
    /// window.
    Hide,
}

/// The application's lifecycle flag: whether the user is quitting. Once set
/// it stays set for the rest of the session.
#[derive(Debug)]
pub struct AppLifecycleState {
    pub is_quitting: bool,
}

impl AppLifecycleState {
    /// A session that is not quitting.
    pub fn new() -> (r: Self)
        ensures
            !r.is_quitting,
    {
        AppLifecycleState { is_quitting: false }
    }

    /// A quit was requested. The worker is not stopped here; that happens on
    /// exit.
    pub fn request_quit(&mut self)
        ensures
            final(self).is_quitting,
    {
        self.is_quitting = true;
    }

    /// Whether a quit was requested.
    pub fn quitting(&self) -> (r: bool)
        ensures
            r == self.is_quitting,
    {
        self.is_quitting
    }

    /// The fate of a window whose close was requested. On a platform where
    /// applications keep running in the background, a close that is not part
    /// of quitting hides the window instead.
    pub fn on_close_requested(&self, background_convention: bool) -> (r: CloseAction)
        ensures
            r == (if background_convention && !self.is_quitting {
                CloseAction::Hide
            } else {
                CloseAction::Close
            }),
    {
        if background_convention && !self.is_quitting {
            CloseAction::Hide
        } else {
            CloseAction::Close
        }
    }
}

} // verus!
