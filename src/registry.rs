use std::collections::HashMap;
use vstd::prelude::*;
use crate::level::{Level, LevelFilter};

verus! {

broadcast use vstd::std_specs::hash::group_hash_axioms;

/// What the registry holds: for each thread key, the installed sink and the
/// most verbose level it is shown.
pub type Overrides<S> = Map<u64, (S, LevelFilter)>;

/// The sink that an enabled-check on `thread` is asked of: the thread's
/// installed sink, or none when the thread has no override.
pub open spec fn enabled_sink<S>(m: Overrides<S>, thread: u64) -> Option<S> {
    if m.contains_key(thread) {
        Some(m[thread].0)
    } else {
        None
    }
}

/// The sink that a record at `level` on `thread` is delivered to: the
/// thread's installed sink when its filter admits `level`, else none.
pub open spec fn log_sink<S>(m: Overrides<S>, thread: u64, level: Level) -> Option<S> {
    if m.contains_key(thread) && m[thread].1.spec_admits(level) {
        Some(m[thread].0)
    } else {
        None
    }
}

/// The sink that a flush on `thread` goes to: as for an enabled-check.
pub open spec fn flush_sink<S>(m: Overrides<S>, thread: u64) -> Option<S> {
    enabled_sink(m, thread)
}

/// A borrowed answer `r` names exactly the sink `s`, or nothing when `s` is none.
pub open spec fn refers_to<S>(r: Option<&S>, s: Option<S>) -> bool {
    match r {
        Some(x) => s == Some(*x),
        None => s is None,
    }
}

/// The handle returned when a sink is installed for a thread. Handing it back
/// to `MockLogger::remove_logger` removes that thread's override; it cannot be
/// copied, so an override is removed at most once per installation.
pub struct MockLoggerGuard {
    thread: u64,
}

impl MockLoggerGuard {
    /// The key of the thread whose override this guard removes.
    pub closed spec fn thread_key(&self) -> u64 {
        self.thread
    }

    /// The key of the thread whose override this guard removes.
    pub fn thread(&self) -> (r: u64)
        ensures
            r == self.thread_key(),
    {
        self.thread
    }
}

/// Registry of per-thread overrides: at most one sink, with its filter, per
/// thread key.
pub struct MockLogger<S> {
    overrides: HashMap<u64, (S, LevelFilter)>,
}

impl<S> View for MockLogger<S> {
    type V = Overrides<S>;

    closed spec fn view(&self) -> Overrides<S> {
        self.overrides@
    }
}

impl<S> MockLogger<S> {
    /// A registry in which no thread has an override.
    pub fn new() -> (r: Self)
        ensures
            r@ == Overrides::<S>::empty(),
    {
        MockLogger { overrides: HashMap::new() }
    }

    /// Installs `logger` for `thread`, shown records up to `max_level`. An
    /// override that the thread already had is replaced and dropped.
    pub fn set_logger(&mut self, thread: u64, logger: S, max_level: LevelFilter) -> (guard:
        MockLoggerGuard)
        ensures
            final(self)@ == old(self)@.insert(thread, (logger, max_level)),
            guard.thread_key() == thread,
    {
        let _replaced = self.overrides.insert(thread, (logger, max_level));
        MockLoggerGuard { thread }
    }

    /// Removes the override of the guard's thread, whichever sink it holds
    /// now; nothing happens when that thread has none.
    pub fn remove_logger(&mut self, guard: MockLoggerGuard)
        ensures
            final(self)@ == old(self)@.remove(guard.thread_key()),
    {
        let _removed = self.overrides.remove(&guard.thread);
    }

    /// Whether `thread` has an override.
    pub fn has_logger(&self, thread: u64) -> (r: bool)
        ensures
            r == self@.contains_key(thread),
    {
        self.overrides.contains_key(&thread)
    }

    /// The sink to ask whether a record is enabled on `thread`; none means
    /// the answer is "not enabled".
    pub fn sink_for_enabled(&self, thread: u64) -> (r: Option<&S>)
        ensures
            refers_to(r, enabled_sink(self@, thread)),
    {
        match self.overrides.get(&thread) {
            Some(entry) => Some(&entry.0),
            None => None,
        }
    }

    /// The sink that a record at `level` on `thread` is delivered to; none
    /// means the record is dropped.
    pub fn sink_for_log(&self, thread: u64, level: Level) -> (r: Option<&S>)
        ensures
            refers_to(r, log_sink(self@, thread, level)),
    {
        match self.overrides.get(&thread) {
            Some(entry) => {
                if entry.1.admits(level) {
                    Some(&entry.0)
                } else {
                    None
                }
            },
            None => None,
        }
    }

    /// The sink that a flush on `thread` goes to; none means nothing to flush.
    pub fn sink_for_flush(&self, thread: u64) -> (r: Option<&S>)
        ensures
            refers_to(r, flush_sink(self@, thread)),
    {
        self.sink_for_enabled(thread)
    }
}

} // verus!
