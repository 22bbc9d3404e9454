//! Initialization modes and the at-most-one-live-environment guard.

use vstd::prelude::*;

verus! {

/// Native flag bit: topmost window.
pub const INIT_TOPMOST: i32 = 4;

/// Native flag bit: borderless window.
pub const INIT_NOBORDER: i32 = 1;

/// Native flag bit: child window.
pub const INIT_CHILD: i32 = 2;

/// Native flag bit: manual rendering mode.
pub const INIT_RENDERMANUAL: i32 = 8;

/// Native flag bit: do not force the process to exit when the window closes.
pub const INIT_NOFORCEEXIT: i32 = 16;

/// Native flag bit: UTF-16 text mode, always set by initialization.
pub const INIT_UNICODE: i32 = 32;

/// Native flag bit: hide the window on creation.
pub const INIT_HIDE: i32 = 64;

/// Native flag bit: play the logo animation after creating the window.
pub const INIT_WITHLOGO: i32 = 256;

/// A set of initialization options, stored as the native flag bits.
#[derive(Clone, Copy, Debug, PartialEq, Eq, Structural, Hash)]
pub struct Init {
    /// The native flag bits.
    pub bits: i32,
}

impl Init {
    /// Default initialization mode: no flags set.
    pub fn default_mode() -> (r: Init)
        ensures
            r.bits == 0,
    {
        Init { bits: 0 }
    }

    /// Topmost window.
    pub fn top_most() -> (r: Init)
        ensures
            r.bits == INIT_TOPMOST,
    {
        Init { bits: INIT_TOPMOST }
    }

    /// Borderless window.
    pub fn no_border() -> (r: Init)
        ensures
            r.bits == INIT_NOBORDER,
    {
        Init { bits: INIT_NOBORDER }
    }

    /// Child window.
    pub fn child() -> (r: Init)
        ensures
            r.bits == INIT_CHILD,
    {
        Init { bits: INIT_CHILD }
    }

    /// Manual rendering mode.
    pub fn render_manual() -> (r: Init)
        ensures
            r.bits == INIT_RENDERMANUAL,
    {
        Init { bits: INIT_RENDERMANUAL }
    }

    /// Do not force the process to exit when the user closes the window.
    pub fn no_force_exit() -> (r: Init)
        ensures
            r.bits == INIT_NOFORCEEXIT,
    {
        Init { bits: INIT_NOFORCEEXIT }
    }

    /// Hide the window on creation.
    pub fn hidden() -> (r: Init)
        ensures
            r.bits == INIT_HIDE,
    {
        Init { bits: INIT_HIDE }
    }

    /// Play the logo animation after creating the window.
    pub fn with_logo() -> (r: Init)
        ensures
            r.bits == INIT_WITHLOGO,
    {
        Init { bits: INIT_WITHLOGO }
    }

    /// Animation mode: manual rendering without forced exit.
    pub fn animation() -> (r: Init)
        ensures
            r.bits == INIT_RENDERMANUAL | INIT_NOFORCEEXIT,
    {
        Init { bits: INIT_RENDERMANUAL | INIT_NOFORCEEXIT }
    }

    /// The union of two option sets.
    pub fn or(self, other: Init) -> (r: Init)
        ensures
            r.bits == self.bits | other.bits,
    {
        Init { bits: self.bits | other.bits }
    }

    /// Whether every flag of `other` is set in `self`.
    pub fn contains(self, other: Init) -> (r: bool)
        ensures
            r == (self.bits & other.bits == other.bits),
    {
        self.bits & other.bits == other.bits
    }

    /// The native mode word handed to initialization: the chosen flags with
    /// the UTF-16 text flag always set.
    pub fn native_mode(self) -> (r: i32)
        ensures
            r == self.bits | INIT_UNICODE,
    {
        self.bits | INIT_UNICODE
    }
}

/// Failure of environment initialization.
#[derive(Clone, Copy, Debug, PartialEq, Eq, Structural, Hash)]
pub enum XEGEError {
    /// The environment is already initialized.
    Initialized,
}

impl XEGEError {
    /// A human-readable description of the error.
    pub fn message(&self) -> (r: String)
        ensures
            r@ == "XEGE is already initialized."@,
    {
        "XEGE is already initialized.".to_owned()
    }
}

/// The process-wide mutual-exclusion guard: at most one environment may be
/// live at a time.  The unverified shell keeps one value of this type behind
/// a lock; acquisition and release are the verified transitions below.
pub struct InitGuard {
    initialized: bool,
}

impl InitGuard {
    /// Whether an environment currently holds the guard.
    pub closed spec fn is_initialized(&self) -> bool {
        self.initialized
    }

    /// The guard state and result of an acquisition attempt: if the guard is
    /// held the attempt fails and the state is unchanged; otherwise it
    /// succeeds and the guard becomes held.
    pub closed spec fn spec_try_acquire(g: InitGuard) -> (InitGuard, Result<(), XEGEError>) {
        if g.initialized {
            (g, Err(XEGEError::Initialized))
        } else {
            (InitGuard { initialized: true }, Ok(()))
        }
    }

    /// A fresh guard, held by nobody.
    pub fn new() -> (g: InitGuard)
        ensures
            !g.is_initialized(),
    {
        InitGuard { initialized: false }
    }

    /// Attempt to acquire the guard for a new environment.
    pub fn try_acquire(&mut self) -> (r: Result<(), XEGEError>)
        ensures
            (*final(self), r) == Self::spec_try_acquire(*old(self)),
            old(self).is_initialized() ==> r == Result::<(), XEGEError>::Err(
                XEGEError::Initialized,
            ) && *final(self) == *old(self),
            !old(self).is_initialized() ==> r == Result::<(), XEGEError>::Ok(())
                && final(self).is_initialized(),
    {
        if self.initialized {
            Err(XEGEError::Initialized)
        } else {
            self.initialized = true;
            Ok(())
        }
    }

    /// Release the guard when the environment is dropped.
    pub fn release(&mut self)
        ensures
            !final(self).is_initialized(),
    {
        self.initialized = false;
    }
}

/// Initialization exclusivity: while an environment is live a second
/// acquisition fails with [`XEGEError::Initialized`] and leaves the guard
/// unchanged; acquiring a free guard succeeds; and after a release, an
/// acquisition succeeds again.
pub proof fn lemma_init_exclusivity(g: InitGuard, freed: InitGuard)
    requires
        !freed.is_initialized(),
    ensures
        g.is_initialized() ==> InitGuard::spec_try_acquire(g) == (
            g,
            Result::<(), XEGEError>::Err(XEGEError::Initialized),
        ),
        !g.is_initialized() ==> InitGuard::spec_try_acquire(g).1 == Result::<(), XEGEError>::Ok(())
            && InitGuard::spec_try_acquire(g).0.is_initialized(),
        InitGuard::spec_try_acquire(freed).1 == Result::<(), XEGEError>::Ok(()),
{
}

} // verus!
