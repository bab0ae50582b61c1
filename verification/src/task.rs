//! The poll-once handle of one asynchronous operation.

use vstd::prelude::*;

verus! {

/// What polling a handle observes.
#[derive(Debug)]
pub enum Poll<T> {
    /// The operation has not completed yet.
    Pending,
    /// The operation completed with this result.
    Ready(T),
}

/// The handle of one asynchronous operation that the caller has started.
///
/// The handle is resolved at most once: the first result delivered to it is
/// kept, and every later poll observes that same result.
#[derive(Debug)]
pub struct TaskHandle<T> {
    outcome: Option<T>,
}

impl<T> View for TaskHandle<T> {
    type V = Poll<T>;

    closed spec fn view(&self) -> Poll<T> {
        match self.outcome {
            Some(value) => Poll::Ready(value),
            None => Poll::Pending,
        }
    }
}

impl<T> TaskHandle<T> {
    /// The handle of an operation that has just been started.
    pub fn spawn() -> (handle: Self)
        ensures
            handle@ == Poll::<T>::Pending,
    {
        TaskHandle { outcome: None }
    }

    /// Delivers the operation's result. A handle that is already resolved
    /// keeps its first result and the new one is discarded.
    pub fn resolve(&mut self, value: T)
        ensures
            final(self)@ == resolved(old(self)@, value),
    {
        if self.outcome.is_none() {
            self.outcome = Some(value);
        }
    }

    /// Polls the handle without blocking.
    pub fn poll(&self) -> (result: Option<&T>)
        ensures
            match result {
                Some(value) => self@ == Poll::Ready(*value),
                None => self@ == Poll::<T>::Pending,
            },
    {
        self.outcome.as_ref()
    }

    /// Gives up the handle and hands out the result that it holds.
    pub(crate) fn into_result(self) -> (value: T)
        requires
            self@ is Ready,
        ensures
            self@ == Poll::Ready(value),
    {
        self.outcome.unwrap()
    }

    /// Whether the operation is still running.
    pub fn is_pending(&self) -> (pending: bool)
        ensures
            pending == (self@ is Pending),
    {
        self.outcome.is_none()
    }
}

/// The state of a handle after a result is delivered to it.
pub open spec fn resolved<T>(before: Poll<T>, value: T) -> Poll<T> {
    match before {
        Poll::Pending => Poll::Ready(value),
        Poll::Ready(first) => Poll::Ready(first),
    }
}

/// A resolved handle is memoized: delivering further results never changes
/// what a poll observes.
pub proof fn law_resolution_is_memoized<T>(before: Poll<T>, first: T, second: T)
    ensures
        resolved(resolved(before, first), second) == resolved(before, first),
{
}

/// A handle together with the key of the request that it was started for.
#[derive(Debug)]
pub struct KeyedTask<K, T> {
    pub key: K,
    pub handle: TaskHandle<T>,
}

/// The mathematical value of a [`KeyedTask`]: the value of its key and the
/// state of its handle.
pub struct TaskModel<K, T> {
    pub key: K,
    pub poll: Poll<T>,
}

/// The state of a handle with its result seen through `f`.
pub open spec fn poll_map<T, U>(poll: Poll<T>, f: spec_fn(T) -> U) -> Poll<U> {
    match poll {
        Poll::Pending => Poll::Pending,
        Poll::Ready(value) => Poll::Ready(f(value)),
    }
}

/// A slot that may hold a handle, with the handle's result seen through `f`.
pub open spec fn slot_map<T, U>(slot: Option<Poll<T>>, f: spec_fn(T) -> U) -> Option<Poll<U>> {
    match slot {
        Some(poll) => Some(poll_map(poll, f)),
        None => None,
    }
}

/// The mathematical value of a slot that may hold a keyed task, with the
/// handle's result seen through `f`.
pub open spec fn task_model<K: View, T, U>(
    slot: Option<KeyedTask<K, T>>,
    f: spec_fn(T) -> U,
) -> Option<TaskModel<K::V, U>> {
    match slot {
        Some(task) => Some(TaskModel { key: task.key@, poll: poll_map(task.handle@, f) }),
        None => None,
    }
}

} // verus!
