//! Fetch caches: stores of task handles and of the values they resolved to,
//! which start each fetch at most once at a time.

use crate::strmap::StrMap;
use crate::task::{poll_map, resolved, Poll, TaskHandle};
use vstd::prelude::*;

verus! {

/// What a query of a singleton cache found.
#[derive(Debug, PartialEq, Eq, Clone, Copy)]
pub enum Status {
    /// The cache held no handle: it holds one now, and the caller starts the
    /// operation.
    Started,
    /// The operation is running.
    InFlight,
    /// The operation has completed.
    Resolved,
}

/// A cache of at most one task handle.
///
/// Once it holds a handle it starts nothing again until it is reset, whether
/// the operation succeeds or fails.
#[derive(Debug)]
pub struct SingletonCache<T> {
    handle: Option<TaskHandle<T>>,
}

impl<T> View for SingletonCache<T> {
    type V = Option<Poll<T>>;

    closed spec fn view(&self) -> Option<Poll<T>> {
        match self.handle {
            Some(handle) => Some(handle@),
            None => None,
        }
    }
}

/// The handle that a singleton cache holds after a query, and what the
/// query found.
pub open spec fn single_lookup<T>(before: Option<Poll<T>>) -> (Option<Poll<T>>, Status) {
    match before {
        None => (Some(Poll::Pending), Status::Started),
        Some(Poll::Pending) => (before, Status::InFlight),
        Some(Poll::Ready(_)) => (before, Status::Resolved),
    }
}

/// The handle that a singleton cache holds after a result is delivered to
/// it. Without a handle the result is discarded.
pub open spec fn single_delivered<T>(before: Option<Poll<T>>, value: T) -> Option<Poll<T>> {
    match before {
        None => None,
        Some(poll) => Some(resolved(poll, value)),
    }
}

impl<T> SingletonCache<T> {
    /// A cache without a handle.
    pub fn new() -> (cache: Self)
        ensures
            cache@ is None,
    {
        SingletonCache { handle: None }
    }

    /// Makes sure that the cache holds a handle and says what it found.
    pub fn get_or_start(&mut self) -> (status: Status)
        ensures
            (final(self)@, status) == single_lookup(old(self)@),
    {
        match &self.handle {
            None => {
                self.handle = Some(TaskHandle::spawn());
                Status::Started
            },
            Some(handle) => {
                if handle.is_pending() {
                    Status::InFlight
                } else {
                    Status::Resolved
                }
            },
        }
    }

    /// The result of the operation, once it has completed.
    pub fn poll(&self) -> (result: Option<&T>)
        ensures
            match result {
                Some(value) => self@ == Some(Poll::Ready(*value)),
                None => self@ is None || self@ == Some(Poll::<T>::Pending),
            },
    {
        match &self.handle {
            None => None,
            Some(handle) => handle.poll(),
        }
    }

    /// Delivers the operation's result to the handle, if there is one.
    pub fn complete(&mut self, value: T)
        ensures
            final(self)@ == single_delivered(old(self)@, value),
    {
        let mut handle = None;
        std::mem::swap(&mut handle, &mut self.handle);
        match handle {
            None => {},
            Some(mut handle) => {
                handle.resolve(value);
                self.handle = Some(handle);
            },
        }
    }

    /// Drops the handle, so that the next query starts the operation anew.
    pub fn reset(&mut self)
        ensures
            final(self)@ is None,
    {
        self.handle = None;
    }
}

/// A singleton cache starts its operation at most once: a query starts it
/// only when there is no handle, no query or delivery removes the handle,
/// and so no later query starts it again.
pub proof fn law_singleton_starts_once<T>(before: Option<Poll<T>>, value: T)
    ensures
        single_lookup(before).1 is Started <==> before is None,
        single_lookup(before).0 is Some,
        before is Some ==> single_delivered(before, value) is Some,
        single_lookup(single_lookup(before).0).1 !is Started,
{
}

/// What a query of a keyed cache found.
#[derive(Debug, PartialEq, Eq)]
pub enum Lookup<E> {
    /// Neither a value nor a handle was there: the cache holds a handle now,
    /// and the caller starts the fetch.
    Started,
    /// The fetch is running.
    InFlight,
    /// The fetch failed with this error. Its handle is dropped, so the next
    /// query starts the fetch anew.
    Failed(E),
    /// The cache holds the value.
    Cached,
}

/// A cache of fetched values by key, with the handles of the fetches that
/// are under way.
#[derive(Debug)]
pub struct KeyedCache<V, E> {
    values: StrMap<V>,
    tasks: StrMap<TaskHandle<Result<V, E>>>,
}

/// The mathematical value of a [`KeyedCache`]: the values it holds and the
/// state of each handle it holds, by key.
pub struct KeyedCacheView<V, E> {
    pub values: Map<Seq<char>, V>,
    pub tasks: Map<Seq<char>, Poll<Result<V, E>>>,
}

/// The mathematical value of a fetch's result.
pub open spec fn result_view<V: View, E: View>(result: Result<V, E>) -> Result<V::V, E::V> {
    match result {
        Ok(value) => Ok(value@),
        Err(error) => Err(error@),
    }
}

/// The mathematical value of what a query found.
pub open spec fn lookup_view<E: View>(found: Lookup<E>) -> Lookup<E::V> {
    match found {
        Lookup::Started => Lookup::Started,
        Lookup::InFlight => Lookup::InFlight,
        Lookup::Failed(error) => Lookup::Failed(error@),
        Lookup::Cached => Lookup::Cached,
    }
}

impl<V: View, E: View> View for KeyedCache<V, E> {
    type V = KeyedCacheView<V::V, E::V>;

    closed spec fn view(&self) -> KeyedCacheView<V::V, E::V> {
        KeyedCacheView {
            values: self.values@.map_values(|value: V| value@),
            tasks: self.tasks@.map_values(
                |handle: TaskHandle<Result<V, E>>| poll_map(
                    handle@,
                    |result: Result<V, E>| result_view(result),
                ),
            ),
        }
    }
}

/// The cache after a query for `key`, and what the query found.
pub open spec fn keyed_lookup<V, E>(before: KeyedCacheView<V, E>, key: Seq<char>) -> (
    KeyedCacheView<V, E>,
    Lookup<E>,
) {
    if before.values.contains_key(key) {
        (before, Lookup::Cached)
    } else if before.tasks.contains_key(key) {
        match before.tasks[key] {
            Poll::Pending => (before, Lookup::InFlight),
            Poll::Ready(Ok(value)) => (
                KeyedCacheView {
                    values: before.values.insert(key, value),
                    tasks: before.tasks.remove(key),
                },
                Lookup::Cached,
            ),
            Poll::Ready(Err(error)) => (
                KeyedCacheView { values: before.values, tasks: before.tasks.remove(key) },
                Lookup::Failed(error),
            ),
        }
    } else {
        (
            KeyedCacheView { values: before.values, tasks: before.tasks.insert(key, Poll::Pending) },
            Lookup::Started,
        )
    }
}

/// The cache after the result of the fetch for `key` is delivered. Without
/// a handle for `key` the result is discarded.
pub open spec fn keyed_delivered<V, E>(
    before: KeyedCacheView<V, E>,
    key: Seq<char>,
    result: Result<V, E>,
) -> KeyedCacheView<V, E> {
    if before.tasks.contains_key(key) {
        KeyedCacheView {
            values: before.values,
            tasks: before.tasks.insert(key, resolved(before.tasks[key], result)),
        }
    } else {
        before
    }
}

impl<V: View, E: View> KeyedCache<V, E> {
    /// The empty cache.
    pub fn new() -> (cache: Self)
        ensures
            cache@.values == Map::<Seq<char>, V::V>::empty(),
            cache@.tasks == Map::<Seq<char>, Poll<Result<V::V, E::V>>>::empty(),
    {
        KeyedCache { values: StrMap::new(), tasks: StrMap::new() }
    }

    /// The value held for `key`, if any.
    pub fn get(&self, key: &String) -> (value: Option<&V>)
        ensures
            match value {
                Some(v) => self@.values.contains_key(key@) && v@ == self@.values[key@],
                None => !self@.values.contains_key(key@),
            },
    {
        self.values.get(key)
    }

    /// Makes sure that the value for `key` is there or being fetched, and
    /// says what it found.
    pub fn get_or_start(&mut self, key: &String) -> (found: Lookup<E>)
        ensures
            (final(self)@, lookup_view(found)) == keyed_lookup(old(self)@, key@),
    {
        if self.values.contains_key(key) {
            return Lookup::Cached;
        }
        let pending = match self.tasks.get(key) {
            None => {
                self.tasks.insert(key.clone(), TaskHandle::spawn());
                assert(self@.tasks =~= old(self)@.tasks.insert(key@, Poll::Pending));
                return Lookup::Started;
            },
            Some(handle) => handle.is_pending(),
        };
        if pending {
            return Lookup::InFlight;
        }
        let handle = self.tasks.remove(key).unwrap();
        assert(self@.tasks =~= old(self)@.tasks.remove(key@));
        match handle.into_result() {
            Ok(value) => {
                self.values.insert(key.clone(), value);
                assert(self@.values =~= old(self)@.values.insert(key@, value@));
                Lookup::Cached
            },
            Err(error) => Lookup::Failed(error),
        }
    }

    /// Delivers the result of the fetch for `key` to its handle, if there is
    /// one.
    pub fn complete(&mut self, key: &String, result: Result<V, E>)
        ensures
            final(self)@ == keyed_delivered(old(self)@, key@, result_view(result)),
    {
        match self.tasks.remove(key) {
            None => {
                assert(self@.tasks =~= old(self)@.tasks);
            },
            Some(mut handle) => {
                handle.resolve(result);
                self.tasks.insert(key.clone(), handle);
                assert(self@.tasks =~= old(self)@.tasks.insert(
                    key@,
                    resolved(old(self)@.tasks[key@], result_view(result)),
                ));
            },
        }
    }
}

/// The fetch for `key` is under way: the cache holds no value for it and a
/// handle that is not resolved.
pub open spec fn in_flight<V, E>(cache: KeyedCacheView<V, E>, key: Seq<char>) -> bool {
    &&& !cache.values.contains_key(key)
    &&& cache.tasks.contains_key(key)
    &&& cache.tasks[key] is Pending
}

/// The cache remembers `value` as the result of the fetch for `key`: it
/// holds the value, or a handle that resolved to it.
pub open spec fn memoized<V, E>(cache: KeyedCacheView<V, E>, key: Seq<char>, value: V) -> bool {
    ||| cache.values.contains_key(key) && cache.values[key] == value
    ||| {
        &&& !cache.values.contains_key(key)
        &&& cache.tasks.contains_key(key)
        &&& cache.tasks[key] == Poll::<Result<V, E>>::Ready(Ok(value))
    }
}

/// Single flight: of two queries for one key with no delivery between them,
/// at most one starts the fetch. A query that starts it leaves it in
/// flight, and the second query then starts nothing and changes nothing.
pub proof fn law_single_flight<V, E>(before: KeyedCacheView<V, E>, key: Seq<char>)
    ensures
        ({
            let first = keyed_lookup(before, key);
            let second = keyed_lookup(first.0, key);
            &&& !(first.1 is Started && second.1 is Started)
            &&& first.1 is Started ==> in_flight(first.0, key) && second.1 is InFlight
                && second.0 == first.0
        }),
{
}

/// A fetch in flight stays in flight, and is not started again, whatever is
/// queried, until its own result is delivered: queries for any key and
/// deliveries for other keys leave it in flight.
pub proof fn law_in_flight_until_resolved<V, E>(
    before: KeyedCacheView<V, E>,
    key: Seq<char>,
    other: Seq<char>,
    result: Result<V, E>,
)
    requires
        in_flight(before, key),
    ensures
        keyed_lookup(before, key).1 is InFlight,
        in_flight(keyed_lookup(before, other).0, key),
        other != key ==> in_flight(keyed_delivered(before, other, result), key),
{
}

/// A success is memoized: once the fetch in flight for a key resolves to a
/// value, the cache remembers that value.
pub proof fn law_success_is_memoized<V, E>(before: KeyedCacheView<V, E>, key: Seq<char>, value: V)
    requires
        in_flight(before, key),
    ensures
        memoized(keyed_delivered(before, key, Ok(value)), key, value),
{
}

/// A query for a memoized key starts nothing: it finds the value.
pub proof fn law_memoized_is_found<V, E>(before: KeyedCacheView<V, E>, key: Seq<char>, value: V)
    requires
        memoized(before, key, value),
    ensures
        keyed_lookup(before, key).1 is Cached,
        keyed_lookup(before, key).0.values.contains_key(key),
        keyed_lookup(before, key).0.values[key] == value,
{
}

/// What is memoized stays memoized: no query and no delivery, for whatever
/// key and with whatever result, makes the cache forget it.
pub proof fn law_memoized_is_kept<V, E>(
    before: KeyedCacheView<V, E>,
    key: Seq<char>,
    value: V,
    other: Seq<char>,
    result: Result<V, E>,
)
    requires
        memoized(before, key, value),
    ensures
        memoized(keyed_lookup(before, other).0, key, value),
        memoized(keyed_delivered(before, other, result), key, value),
{
}

/// A failure does not stay in the cache: the query that finds it drops the
/// handle, and the next query for the key starts the fetch anew.
pub proof fn law_failure_is_retried<V, E>(before: KeyedCacheView<V, E>, key: Seq<char>, error: E)
    requires
        !before.values.contains_key(key),
        before.tasks.contains_key(key),
        before.tasks[key] == Poll::<Result<V, E>>::Ready(Err(error)),
    ensures
        keyed_lookup(before, key).1 == Lookup::Failed(error),
        keyed_lookup(keyed_lookup(before, key).0, key).1 is Started,
{
}

} // verus!
