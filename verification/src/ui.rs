//! Process-wide toolkit lifecycle.
//!
//! The native toolkit is process-wide, single-instance state: only one live
//! initialization is permitted per process. Instead of relying on ambient
//! globals, the process-wide state is an explicit [`Toolkit`] value, and a
//! successful initialization hands back a [`UI`] guard that cannot be forged;
//! operations that need an initialized toolkit ask for the guard.

use crate::error::UIError;
use crate::registry::Handle;
use vstd::prelude::*;
use vstd::string::StringExecFns;

verus! {

/// The process-wide state of the native toolkit.
pub struct Toolkit {
    gui_available: bool,
    initialized: bool,
    quit_requested: bool,
    should_quit: Option<Handle>,
}

/// Proof that the toolkit was initialized: the token returned by [`UI::init`]
/// and required by every operation that touches the native side. It cannot be
/// constructed any other way and cannot be cloned.
pub struct UI {
    guard: (),
}

impl Toolkit {
    /// Whether the platform's GUI subsystem can be attached (for instance,
    /// whether a display server is present). Fixed by the environment the
    /// process runs in.
    pub closed spec fn gui_available_spec(&self) -> bool {
        self.gui_available
    }

    /// Whether an initialization is live in this process.
    pub closed spec fn initialized_spec(&self) -> bool {
        self.initialized
    }

    /// Whether the event loop was asked to end.
    pub closed spec fn quit_requested_spec(&self) -> bool {
        self.quit_requested
    }

    /// The callback slot consulted when the user asks the application to
    /// quit.
    pub closed spec fn should_quit_slot(&self) -> Option<Handle> {
        self.should_quit
    }

    /// The toolkit state at process start: no instance is live yet, no quit
    /// asked for, no callback registered.
    pub fn new(gui_available: bool) -> (r: Toolkit)
        ensures
            r.gui_available_spec() == gui_available,
            !r.initialized_spec(),
            !r.quit_requested_spec(),
            r.should_quit_slot() is None,
    {
        Toolkit { gui_available, initialized: false, quit_requested: false, should_quit: None }
    }
}

impl UI {
    /// Initializes the underlying UI library.
    ///
    /// Succeeds exactly once per process: the first call on a platform whose
    /// GUI subsystem is reachable returns the guard; a second call while an
    /// instance is live fails with the distinct `MultipleInitError`, and a
    /// platform without a reachable GUI subsystem fails with
    /// `FailedInitError`. Neither failure changes the toolkit state.
    pub fn init(toolkit: &mut Toolkit) -> (r: Result<UI, UIError>)
        ensures
            r is Ok <==> !old(toolkit).initialized_spec() && old(toolkit).gui_available_spec(),
            final(toolkit).gui_available_spec() == old(toolkit).gui_available_spec(),
            final(toolkit).initialized_spec() == (old(toolkit).initialized_spec() || old(
                toolkit,
            ).gui_available_spec()),
            old(toolkit).initialized_spec() ==> r == Err::<UI, UIError>(
                UIError::MultipleInitError(),
            ),
            !old(toolkit).initialized_spec() && !old(toolkit).gui_available_spec() ==> (r matches
            Err(e) && e matches UIError::FailedInitError { error }
                && error@ == "could not attach to the platform GUI subsystem"@),
            final(toolkit).quit_requested_spec() == old(toolkit).quit_requested_spec(),
            final(toolkit).should_quit_slot() == old(toolkit).should_quit_slot(),
    {
        if toolkit.initialized {
            Err(UIError::MultipleInitError())
        } else if !toolkit.gui_available {
            Err(
                UIError::FailedInitError {
                    error: String::from_str("could not attach to the platform GUI subsystem"),
                },
            )
        } else {
            toolkit.initialized = true;
            Ok(UI { guard: () })
        }
    }

    /// Registers the callback consulted when the user asks the application to
    /// quit, fully superseding any previously registered one.
    pub fn on_should_quit(&self, toolkit: &mut Toolkit, callback: Handle)
        ensures
            final(toolkit).should_quit_slot() == Some(callback),
            final(toolkit).gui_available_spec() == old(toolkit).gui_available_spec(),
            final(toolkit).initialized_spec() == old(toolkit).initialized_spec(),
            final(toolkit).quit_requested_spec() == old(toolkit).quit_requested_spec(),
    {
        toolkit.should_quit = Some(callback);
    }

    /// Asks the event loop to end once the event being handled is done.
    pub fn quit(&self, toolkit: &mut Toolkit)
        ensures
            final(toolkit).quit_requested_spec(),
            final(toolkit).gui_available_spec() == old(toolkit).gui_available_spec(),
            final(toolkit).initialized_spec() == old(toolkit).initialized_spec(),
            final(toolkit).should_quit_slot() == old(toolkit).should_quit_slot(),
    {
        toolkit.quit_requested = true;
    }

    /// The user asked the application to quit: the currently registered
    /// callback — and nothing else — is owed exactly one run before the loop
    /// decides, or nothing if no callback is registered.
    pub fn deliver_should_quit(&self, toolkit: &Toolkit) -> (r: Option<Handle>)
        ensures
            r == toolkit.should_quit_slot(),
    {
        toolkit.should_quit
    }
}

} // verus!
