use vstd::prelude::*;

verus! {

/// Holds the handle of a background task until it is taken to be joined.
///
/// Taking is idempotent: the handle comes out once, and every later take
/// finds nothing, so the task is joined at most once.
pub struct JoinOnce<T> {
    handle: Option<T>,
}

impl<T> JoinOnce<T> {
    /// The handle still held, if it has not been taken.
    pub closed spec fn handle(&self) -> Option<T> {
        self.handle
    }

    /// Guards a freshly started task.
    pub fn new(handle: T) -> (j: JoinOnce<T>)
        ensures
            j.handle() == Some(handle),
    {
        JoinOnce { handle: Some(handle) }
    }

    /// Whether the handle has already been taken.
    pub fn is_taken(&self) -> (r: bool)
        ensures
            r == self.handle().is_none(),
    {
        self.handle.is_none()
    }

    /// Takes the handle out, leaving nothing behind.
    pub fn take(&mut self) -> (r: Option<T>)
        ensures
            r == old(self).handle(),
            final(self).handle().is_none(),
    {
        self.handle.take()
    }
}

} // verus!
