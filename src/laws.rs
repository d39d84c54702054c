use vstd::prelude::*;
use crate::level::{Level, LevelFilter};
use crate::registry::{enabled_sink, flush_sink, log_sink, Overrides};

verus! {

/// A thread without an override is silent: no record on it reaches a sink,
/// no enabled-check on it is asked of a sink (so it reports "not enabled"),
/// and a flush on it goes nowhere.
pub proof fn lemma_no_override_is_silent<S>(m: Overrides<S>, thread: u64, level: Level)
    requires
        !m.contains_key(thread),
    ensures
        log_sink(m, thread, level) is None,
        enabled_sink(m, thread) is None,
        flush_sink(m, thread) is None,
{
}

/// A fresh registry has no override on any thread.
pub proof fn lemma_fresh_registry_is_silent<S>(thread: u64, level: Level)
    ensures
        log_sink(Overrides::<S>::empty(), thread, level) is None,
        enabled_sink(Overrides::<S>::empty(), thread) is None,
{
}

/// After a sink is installed for a thread with a filter, a record on that
/// thread goes to that sink exactly when the filter admits its level, and is
/// dropped otherwise.
pub proof fn lemma_installed_sink_filters_by_level<S>(
    m: Overrides<S>,
    thread: u64,
    sink: S,
    max_level: LevelFilter,
    level: Level,
)
    ensures
        log_sink(m.insert(thread, (sink, max_level)), thread, level) == (if max_level.spec_admits(
            level,
        ) {
            Some(sink)
        } else {
            None
        }),
        enabled_sink(m.insert(thread, (sink, max_level)), thread) == Some(sink),
{
}

/// Once a thread's override is removed, records, enabled-checks and flushes
/// on that thread reach no sink, whatever was installed before.
pub proof fn lemma_removed_override_is_silent<S>(m: Overrides<S>, thread: u64, level: Level)
    ensures
        log_sink(m.remove(thread), thread, level) is None,
        enabled_sink(m.remove(thread), thread) is None,
        flush_sink(m.remove(thread), thread) is None,
{
}

/// Installing or removing an override on one thread leaves the routing of
/// every other thread as it was.
pub proof fn lemma_other_threads_unaffected<S>(
    m: Overrides<S>,
    thread: u64,
    other: u64,
    sink: S,
    max_level: LevelFilter,
    level: Level,
)
    requires
        thread != other,
    ensures
        log_sink(m.insert(thread, (sink, max_level)), other, level) == log_sink(m, other, level),
        enabled_sink(m.insert(thread, (sink, max_level)), other) == enabled_sink(m, other),
        log_sink(m.remove(thread), other, level) == log_sink(m, other, level),
        enabled_sink(m.remove(thread), other) == enabled_sink(m, other),
{
}

/// Two threads that install distinct sinks end in the same registry in
/// either order, and each thread's records reach its own sink only.
pub proof fn lemma_two_threads_no_cross_delivery<S>(
    m: Overrides<S>,
    a: u64,
    sink_a: S,
    max_a: LevelFilter,
    b: u64,
    sink_b: S,
    max_b: LevelFilter,
    level: Level,
)
    requires
        a != b,
    ensures
        m.insert(a, (sink_a, max_a)).insert(b, (sink_b, max_b)) == m.insert(b, (sink_b, max_b)).insert(
            a,
            (sink_a, max_a),
        ),
        log_sink(m.insert(a, (sink_a, max_a)).insert(b, (sink_b, max_b)), a, level) == (if max_a.spec_admits(
            level,
        ) {
            Some(sink_a)
        } else {
            None
        }),
        log_sink(m.insert(a, (sink_a, max_a)).insert(b, (sink_b, max_b)), b, level) == (if max_b.spec_admits(
            level,
        ) {
            Some(sink_b)
        } else {
            None
        }),
{
    assert(m.insert(a, (sink_a, max_a)).insert(b, (sink_b, max_b)) =~= m.insert(
        b,
        (sink_b, max_b),
    ).insert(a, (sink_a, max_a)));
}

/// Installing a second sink on a thread that still has one replaces it: the
/// second sink alone receives the thread's records, and removing the override
/// afterwards leaves the thread with none rather than restoring the first.
pub proof fn lemma_reinstall_replaces<S>(
    m: Overrides<S>,
    thread: u64,
    first: S,
    first_max: LevelFilter,
    second: S,
    second_max: LevelFilter,
    level: Level,
)
    ensures
        log_sink(m.insert(thread, (first, first_max)).insert(thread, (second, second_max)), thread, level)
            == (if second_max.spec_admits(level) {
            Some(second)
        } else {
            None
        }),
        !m.insert(thread, (first, first_max)).insert(thread, (second, second_max)).remove(
            thread,
        ).contains_key(thread),
        log_sink(
            m.insert(thread, (first, first_max)).insert(thread, (second, second_max)).remove(thread),
            thread,
            level,
        ) is None,
{
}

} // verus!
