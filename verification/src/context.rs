//! Rendering contexts: creation, the current context of a thread, the lock
//! that serializes access, and release.
//!
//! A context is created, is made current on a thread and taken off again any
//! number of times, and is released in the end; a released context is never
//! used again. Each thread has one slot for its current context, so it has
//! at most one at any time: making a context current supersedes whichever
//! was current before. The binding layer keeps one [`CurrentSlot`] per
//! thread, issues the driver calls, and reports each status code here.

use vstd::prelude::*;
use crate::cgl::{kCGLNoError, CGLError};
use crate::error::ContextError;
use crate::negotiation::PixelFormat;

verus! {

/// Where a context stands in its life, as one thread sees it.
#[derive(Clone, Copy, Debug, PartialEq, Eq, Structural)]
pub enum ContextState {
    /// Alive, and not the current context of the thread.
    NotCurrent,
    /// The current context of the thread.
    Current,
    /// Given back to the driver. Nothing leads out of this state.
    Released,
}

/// A stream of commands to the GPU, bound to the pixel format that it was
/// created with.
///
/// A context created without a share context founds an object namespace of
/// its own. One created with a share context joins that context's
/// namespace, for good: buffers, textures and programs made through either
/// are known to both by the same names.
#[derive(Debug, PartialEq, Eq)]
pub struct Context {
    handle: usize,
    format: usize,
    share: Option<usize>,
    namespace: usize,
    released: bool,
}

impl Context {
    /// The driver's handle of the context.
    pub closed spec fn spec_handle(&self) -> usize {
        self.handle
    }

    /// The handle of the pixel format that the context is bound to.
    pub closed spec fn spec_format(&self) -> usize {
        self.format
    }

    /// The handle of the context that this one was created to share with.
    pub closed spec fn spec_share(&self) -> Option<usize> {
        self.share
    }

    /// The handle of the context that founded this context's namespace.
    pub closed spec fn spec_namespace(&self) -> usize {
        self.namespace
    }

    /// Whether the context has been given back to the driver.
    pub closed spec fn spec_is_released(&self) -> bool {
        self.released
    }

    /// Concludes the creation of a context for `format`, from the status
    /// code and the handle that the driver returned.
    ///
    /// Fails with [`ContextError::CreationFailed`], carrying the status
    /// code, if and only if the status is not success. The new context is
    /// alive and shares its namespace with `share` where one is given.
    pub fn create(format: &PixelFormat, share: Option<&Context>, status: CGLError, handle: usize) -> (r:
        Result<Context, ContextError>)
        requires
            share matches Some(other) ==> !other.is_released(),
        ensures
            status != kCGLNoError ==> r == Err::<Context, ContextError>(
                ContextError::CreationFailed(status),
            ),
            status == kCGLNoError ==> (r matches Ok(context) && {
                &&& context.handle() == handle
                &&& context.format() == format.handle()
                &&& !context.is_released()
                &&& match share {
                    Some(other) => context.share() == Some(other.handle())
                        && context.namespace() == other.namespace(),
                    None => context.share().is_none() && context.namespace() == handle,
                }
            }),
    {
        if status != kCGLNoError {
            return Err(ContextError::CreationFailed(status));
        }
        let (share, namespace): (Option<usize>, usize) = match share {
            Some(other) => (Some(other.handle), other.namespace),
            None => (None, handle),
        };
        Ok(Context { handle, format: format.handle(), share, namespace, released: false })
    }

    /// The driver's handle of the context.
    #[verifier::when_used_as_spec(spec_handle)]
    pub fn handle(&self) -> (handle: usize)
        ensures
            handle == self.spec_handle(),
    {
        self.handle
    }

    /// The handle of the pixel format that the context is bound to.
    #[verifier::when_used_as_spec(spec_format)]
    pub fn format(&self) -> (format: usize)
        ensures
            format == self.spec_format(),
    {
        self.format
    }

    /// The handle of the context that this one was created to share with.
    #[verifier::when_used_as_spec(spec_share)]
    pub fn share(&self) -> (share: Option<usize>)
        ensures
            share == self.spec_share(),
    {
        self.share
    }

    /// The handle of the context that founded this context's namespace.
    #[verifier::when_used_as_spec(spec_namespace)]
    pub fn namespace(&self) -> (namespace: usize)
        ensures
            namespace == self.spec_namespace(),
    {
        self.namespace
    }

    /// Whether the context has been given back to the driver.
    #[verifier::when_used_as_spec(spec_is_released)]
    pub fn is_released(&self) -> (released: bool)
        ensures
            released == self.spec_is_released(),
    {
        self.released
    }

    /// Whether objects made through this context are known to `other` by
    /// the same names.
    pub fn shares_namespace_with(&self, other: &Context) -> (shared: bool)
        ensures
            shared == (self.namespace() == other.namespace()),
    {
        self.namespace == other.namespace
    }

    /// Concludes the acquisition of the context's lock, from the status
    /// code of the driver's lock call. On success the caller holds a guard
    /// for this context; on failure it holds nothing.
    pub fn lock(&self, status: CGLError) -> (r: Result<ScopedLock, ContextError>)
        requires
            !self.is_released(),
        ensures
            status == kCGLNoError ==> (r matches Ok(guard) && guard.context() == self.handle()),
            status != kCGLNoError ==> r == Err::<ScopedLock, ContextError>(
                ContextError::DriverError(status),
            ),
    {
        if status == kCGLNoError {
            Ok(ScopedLock { context: self.handle })
        } else {
            Err(ContextError::DriverError(status))
        }
    }

    /// Concludes the release of the context, from the status code of the
    /// driver's call. The context must be alive and must not be the current
    /// context of the calling thread. On success it is released for good;
    /// on failure it is as it was.
    pub fn release(&mut self, slot: &CurrentSlot, status: CGLError) -> (r: Result<
        (),
        ContextError,
    >)
        requires
            slot.state_of(old(self)) == ContextState::NotCurrent,
        ensures
            final(self).handle() == old(self).handle(),
            final(self).format() == old(self).format(),
            final(self).share() == old(self).share(),
            final(self).namespace() == old(self).namespace(),
            status == kCGLNoError ==> r == Ok::<(), ContextError>(()) && slot.state_of(
                final(self),
            ) == ContextState::Released,
            status != kCGLNoError ==> r == Err::<(), ContextError>(
                ContextError::DriverError(status),
            ) && slot.state_of(final(self)) == ContextState::NotCurrent,
    {
        if status == kCGLNoError {
            self.released = true;
            Ok(())
        } else {
            Err(ContextError::DriverError(status))
        }
    }
}

/// Token of a held context lock. It cannot be copied, and giving it to
/// [`ScopedLock::unlock`] uses it up, so that a lock is released once.
#[derive(Debug, PartialEq, Eq)]
pub struct ScopedLock {
    context: usize,
}

impl ScopedLock {
    /// The handle of the locked context.
    pub closed spec fn spec_context(&self) -> usize {
        self.context
    }

    /// The handle of the locked context.
    #[verifier::when_used_as_spec(spec_context)]
    pub fn context(&self) -> (handle: usize)
        ensures
            handle == self.spec_context(),
    {
        self.context
    }

    /// Concludes the release of the lock, from the status code of the
    /// driver's unlock call. The guard is gone either way.
    pub fn unlock(self, status: CGLError) -> (r: Result<(), ContextError>)
        ensures
            status == kCGLNoError ==> r == Ok::<(), ContextError>(()),
            status != kCGLNoError ==> r == Err::<(), ContextError>(
                ContextError::DriverError(status),
            ),
    {
        if status == kCGLNoError {
            Ok(())
        } else {
            Err(ContextError::DriverError(status))
        }
    }
}

/// The current-context slot of one thread.
#[derive(Debug, PartialEq, Eq)]
pub struct CurrentSlot {
    current: Option<usize>,
}

impl CurrentSlot {
    /// The handle of the thread's current context.
    pub closed spec fn spec_current(&self) -> Option<usize> {
        self.current
    }

    /// Where `context` stands in its life, as this thread sees it.
    pub open spec fn state_of(&self, context: &Context) -> ContextState {
        if context.is_released() {
            ContextState::Released
        } else if self.current() == Some(context.handle()) {
            ContextState::Current
        } else {
            ContextState::NotCurrent
        }
    }

    /// The slot of a thread that has no current context.
    pub fn new() -> (slot: CurrentSlot)
        ensures
            slot.current().is_none(),
    {
        CurrentSlot { current: None }
    }

    /// The handle of the thread's current context.
    #[verifier::when_used_as_spec(spec_current)]
    pub fn current(&self) -> (current: Option<usize>)
        ensures
            current == self.spec_current(),
    {
        self.current
    }

    /// Where `context` stands in its life, as this thread sees it.
    pub fn state(&self, context: &Context) -> (state: ContextState)
        ensures
            state == self.state_of(context),
    {
        if context.released {
            ContextState::Released
        } else {
            match self.current {
                Some(handle) => if handle == context.handle {
                    ContextState::Current
                } else {
                    ContextState::NotCurrent
                },
                None => ContextState::NotCurrent,
            }
        }
    }

    /// Concludes making `context` the thread's current context, from the
    /// status code of the driver's call. On success the slot holds
    /// `context` and no context with another handle, whichever was current
    /// before; on failure the slot is as it was.
    pub fn make_current(&mut self, context: &Context, status: CGLError) -> (r: Result<
        (),
        ContextError,
    >)
        requires
            !context.is_released(),
        ensures
            status == kCGLNoError ==> r == Ok::<(), ContextError>(()) && final(self).current()
                == Some(context.handle()) && final(self).state_of(context)
                == ContextState::Current,
            status == kCGLNoError ==> forall|other: Context|
                other.handle() != context.handle() ==> #[trigger] final(self).state_of(&other)
                    != ContextState::Current,
            status != kCGLNoError ==> r == Err::<(), ContextError>(
                ContextError::DriverError(status),
            ) && final(self).current() == old(self).current(),
    {
        if status == kCGLNoError {
            self.current = Some(context.handle);
            Ok(())
        } else {
            Err(ContextError::DriverError(status))
        }
    }

    /// Concludes leaving the thread without a current context, from the
    /// status code of the driver's call. On success the slot is empty, so
    /// that no context is current; on failure it is as it was.
    pub fn clear_current(&mut self, status: CGLError) -> (r: Result<(), ContextError>)
        ensures
            status == kCGLNoError ==> r == Ok::<(), ContextError>(())
                && final(self).current().is_none(),
            status == kCGLNoError ==> forall|other: Context| #[trigger]
                final(self).state_of(&other) != ContextState::Current,
            status != kCGLNoError ==> r == Err::<(), ContextError>(
                ContextError::DriverError(status),
            ) && final(self).current() == old(self).current(),
    {
        if status == kCGLNoError {
            self.current = None;
            Ok(())
        } else {
            Err(ContextError::DriverError(status))
        }
    }
}

/// A thread never has more than one current context: two contexts that are
/// both current in one slot are one context.
pub proof fn lemma_one_current_context(slot: CurrentSlot, a: Context, b: Context)
    requires
        slot.state_of(&a) == ContextState::Current,
        slot.state_of(&b) == ContextState::Current,
    ensures
        a.handle() == b.handle(),
{
}

/// Making a context current supersedes the one before it: once the slot
/// holds `next`, every live context with another handle is not current.
pub proof fn lemma_current_supersedes(slot: CurrentSlot, next: Context, other: Context)
    requires
        slot.current() == Some(next.handle()),
        other.handle() != next.handle(),
        !other.is_released(),
    ensures
        slot.state_of(&other) == ContextState::NotCurrent,
{
}

} // verus!
