use vstd::prelude::*;

use crate::error::Error;

verus! {

/// The process-wide callback registration state: the native callback class
/// is loaded and registered once, then cached and reused by every manager
/// constructed afterwards.
///
/// The cache is an explicit init-once value rather than ad hoc mutable
/// state: initialization happens at most once, a failed load leaves the
/// cache empty so a later attempt can retry, and once a handle is cached it
/// is the handle every later lookup returns, whatever further load outcomes
/// are offered.
pub struct CallbackRegistry {
    class: Option<u64>,
}

impl CallbackRegistry {
    /// Whether the native callback class has been loaded and cached.
    pub closed spec fn initialized(&self) -> bool {
        self.class is Some
    }

    /// The cached native class handle (meaningful only once initialized).
    pub closed spec fn class_handle(&self) -> u64
        recommends
            self.initialized(),
    {
        self.class->0
    }

    /// Creates an empty registry: nothing loaded yet.
    pub fn new() -> (r: CallbackRegistry)
        ensures
            !r.initialized(),
    {
        CallbackRegistry { class: None }
    }

    /// Returns the cached class handle, initializing the cache from the
    /// offered load outcome on first use.
    ///
    /// Once initialized the registry is immutable: the cached handle is
    /// returned and the offered outcome is ignored. On first use a
    /// successful load is cached and returned; a failed load surfaces its
    /// error and leaves the registry uninitialized, so the next call
    /// retries.
    pub fn get_or_init(&mut self, loaded: Result<u64, Error>) -> (r: Result<u64, Error>)
        ensures
            old(self).initialized() ==> {
                &&& final(self).initialized()
                &&& final(self).class_handle() == old(self).class_handle()
                &&& r == Ok::<u64, Error>(old(self).class_handle())
            },
            !old(self).initialized() ==> (loaded matches Ok(h) ==> {
                &&& final(self).initialized()
                &&& final(self).class_handle() == h
                &&& r == Ok::<u64, Error>(h)
            }),
            !old(self).initialized() ==> (loaded matches Err(e) ==> {
                &&& !final(self).initialized()
                &&& r == Err::<u64, Error>(e)
            }),
    {
        match self.class {
            Some(h) => Ok(h),
            None => match loaded {
                Ok(h) => {
                    self.class = Some(h);
                    Ok(h)
                },
                Err(e) => Err(e),
            },
        }
    }
}

} // verus!
