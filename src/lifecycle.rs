use vstd::prelude::*;

verus! {

/// The library's global state: it must be initialized before use, and once
/// finalized it cannot be used or initialized again.
#[derive(Debug, Clone, Copy, PartialEq, Eq, Structural)]
pub enum Lifecycle {
    Uninitialized,
    Initialized,
    Finalized,
}

/// A misuse of the lifecycle; each one is a bug of the embedding host, on
/// which the entry point aborts.
#[derive(Debug, Clone, Copy, PartialEq, Eq, Structural)]
pub enum LifecycleError {
    /// An operation was called before initialization.
    NotInitialized,
    /// Initialization was asked for after finalization.
    InitAfterFinalize,
    /// Finalization was asked for a second time.
    FinalizedTwice,
}

impl Lifecycle {
    /// Initialization: the first one starts the engines (`Ok(true)`); one on
    /// an initialized library does nothing (`Ok(false)`); one after
    /// finalization is refused.
    pub fn initialize(&mut self) -> (r: Result<bool, LifecycleError>)
        ensures
            match *old(self) {
                Lifecycle::Uninitialized => r == Ok::<bool, LifecycleError>(true) && *final(self)
                    == Lifecycle::Initialized,
                Lifecycle::Initialized => r == Ok::<bool, LifecycleError>(false) && *final(self)
                    == Lifecycle::Initialized,
                Lifecycle::Finalized => r == Err::<bool, LifecycleError>(
                    LifecycleError::InitAfterFinalize,
                ) && *final(self) == Lifecycle::Finalized,
            },
    {
        match *self {
            Lifecycle::Uninitialized => {
                *self = Lifecycle::Initialized;
                Ok(true)
            },
            Lifecycle::Initialized => Ok(false),
            Lifecycle::Finalized => Err(LifecycleError::InitAfterFinalize),
        }
    }

    /// Finalization: allowed once, on an initialized library; the caller
    /// then clears the registries and stops the engines.
    pub fn finalize(&mut self) -> (r: Result<(), LifecycleError>)
        ensures
            match *old(self) {
                Lifecycle::Uninitialized => r == Err::<(), LifecycleError>(
                    LifecycleError::NotInitialized,
                ) && *final(self) == *old(self),
                Lifecycle::Initialized => r == Ok::<(), LifecycleError>(()) && *final(self)
                    == Lifecycle::Finalized,
                Lifecycle::Finalized => r == Err::<(), LifecycleError>(
                    LifecycleError::FinalizedTwice,
                ) && *final(self) == *old(self),
            },
    {
        match *self {
            Lifecycle::Uninitialized => Err(LifecycleError::NotInitialized),
            Lifecycle::Initialized => {
                *self = Lifecycle::Finalized;
                Ok(())
            },
            Lifecycle::Finalized => Err(LifecycleError::FinalizedTwice),
        }
    }

    /// Whether an operational entry point may run: anywhere but before
    /// initialization. After finalization the registries are empty, so
    /// calls find nothing.
    pub fn check_ready(&self) -> (r: Result<(), LifecycleError>)
        ensures
            r == (if *self == Lifecycle::Uninitialized {
                Err::<(), LifecycleError>(LifecycleError::NotInitialized)
            } else {
                Ok::<(), LifecycleError>(())
            }),
    {
        match *self {
            Lifecycle::Uninitialized => Err(LifecycleError::NotInitialized),
            _ => Ok(()),
        }
    }
}

} // verus!
