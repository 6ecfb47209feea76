//! The global launcher core: initialized once, then shared.
use vstd::prelude::*;
use crate::error::LauncherError;

verus! {

/// Holds the launcher core once it has been initialized. Setting it is
/// allowed more than once; the first core stored wins and later ones are
/// refused.
pub struct CoreCell<T> {
    core: Option<T>,
}

impl<T> View for CoreCell<T> {
    type V = Option<T>;

    closed spec fn view(&self) -> Option<T> {
        self.core
    }
}

/// What the cell holds after `core` is offered to it.
pub open spec fn after_install<T>(held: Option<T>, core: T) -> Option<T> {
    match held {
        Some(c) => Some(c),
        None => Some(core),
    }
}

impl<T> CoreCell<T> {
    /// A cell with no core yet.
    pub fn new() -> (c: Self)
        ensures
            c@ == None::<T>,
    {
        CoreCell { core: None }
    }

    /// Offers `core` to the cell; it is kept only when the cell is still
    /// empty. Returns whether it was kept.
    pub fn install(&mut self, core: T) -> (kept: bool)
        ensures
            final(self)@ == after_install(old(self)@, core),
            kept == old(self)@ is None,
    {
        if self.core.is_none() {
            self.core = Some(core);
            true
        } else {
            false
        }
    }

    /// The core, or `NotInitialized` when none has been stored yet.
    pub fn state(&self) -> (r: Result<&T, LauncherError>)
        ensures
            match self@ {
                Some(c) => r matches Ok(x) && *x == c,
                None => r matches Err(LauncherError::NotInitialized),
            },
    {
        match &self.core {
            Some(c) => Ok(c),
            None => Err(LauncherError::NotInitialized),
        }
    }
}

/// The first initialization wins: once a core is stored, offering another
/// one changes nothing.
pub proof fn lemma_first_install_wins<T>(held: Option<T>, first: T, second: T)
    ensures
        after_install(after_install(held, first), second) == after_install(held, first),
        held is None ==> after_install(after_install(held, first), second) == Some(first),
{
}

} // verus!
