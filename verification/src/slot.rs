use vstd::prelude::*;

verus! {

/// A set-once cell: the controlled single-initialization slot that holds
/// the process-wide command-sender handle. Setting it a second time is a
/// configuration error and is reported instead of overwriting; reading it
/// before it is set yields nothing, for the caller to treat as fatal.
pub struct SetOnce<T> {
    inner: Option<T>,
}

impl<T> SetOnce<T> {
    /// What the slot holds, if it was set.
    pub closed spec fn spec_get(&self) -> Option<T> {
        self.inner
    }

    /// An empty slot.
    pub fn new() -> (s: SetOnce<T>)
        ensures
            s.spec_get() is None,
    {
        SetOnce { inner: None }
    }

    /// Sets the slot if it is still empty. An occupied slot is left as it
    /// was and the rejected value is handed back.
    pub fn set(&mut self, value: T) -> (r: Result<(), T>)
        ensures
            match r {
                Ok(()) => old(self).spec_get() is None && final(self).spec_get() == Some(value),
                Err(v) => old(self).spec_get() is Some && v == value && *final(self) == *old(
                    self,
                ),
            },
    {
        if self.inner.is_some() {
            Err(value)
        } else {
            self.inner = Some(value);
            Ok(())
        }
    }

    /// The held value, or nothing if the slot was never set.
    pub fn get(&self) -> (r: Option<&T>)
        ensures
            match r {
                Some(v) => self.spec_get() == Some(*v),
                None => self.spec_get() is None,
            },
    {
        self.inner.as_ref()
    }
}

} // verus!
