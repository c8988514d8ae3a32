//! The state of the input test: a bounded log of the most recent input
//! events and the set of keys held down.

use vstd::prelude::*;
use std::collections::HashSet;
use std::collections::VecDeque;

verus! {

broadcast use vstd::std_specs::hash::group_hash_axioms;

/// How many entries the event log keeps.
pub const MAX_LOG_ENTRIES: usize = 20;

/// The log after appending `event` to `log`: the event goes at the end and,
/// if that makes the log longer than `MAX_LOG_ENTRIES`, the oldest entry is
/// dropped.
pub open spec fn logged(log: Seq<String>, event: String) -> Seq<String> {
    let appended = log.push(event);
    if appended.len() > MAX_LOG_ENTRIES {
        appended.drop_first()
    } else {
        appended
    }
}

/// The last `n` entries of `s` (all of them if there are fewer).
pub open spec fn last_n(s: Seq<String>, n: nat) -> Seq<String> {
    if s.len() <= n {
        s
    } else {
        s.subrange(s.len() - n, s.len() as int)
    }
}

/// The log after appending each of `events` in turn.
pub open spec fn logged_all(log: Seq<String>, events: Seq<String>) -> Seq<String>
    decreases events.len(),
{
    if events.len() == 0 {
        log
    } else {
        logged(logged_all(log, events.drop_last()), events.last())
    }
}

/// Law: a log of at most `MAX_LOG_ENTRIES` entries, after any run of
/// events, holds exactly the last `MAX_LOG_ENTRIES` of its old entries
/// followed by the events, in order; in particular it never grows past
/// `MAX_LOG_ENTRIES`.
pub proof fn lemma_log_keeps_most_recent(log: Seq<String>, events: Seq<String>)
    requires
        log.len() <= MAX_LOG_ENTRIES,
    ensures
        logged_all(log, events) == last_n(log + events, MAX_LOG_ENTRIES as nat),
        logged_all(log, events).len() <= MAX_LOG_ENTRIES,
    decreases events.len(),
{
    if events.len() == 0 {
        assert(log + events =~= log);
    } else {
        let prefix = events.drop_last();
        lemma_log_keeps_most_recent(log, prefix);
        let before = logged_all(log, prefix);
        let all = log + events;
        assert(all =~= (log + prefix).push(events.last()));
        let n = MAX_LOG_ENTRIES as int;
        assert(logged(before, events.last()) =~= last_n(all, n as nat));
    }
}

/// Law: pressing a key that is not held and then releasing it leaves the
/// set of held keys as it was.
pub proof fn lemma_press_then_release_restores(pressed: Set<u16>, key: u16)
    requires
        !pressed.contains(key),
    ensures
        pressed.insert(key).remove(key) == pressed,
{
    assert(pressed.insert(key).remove(key) =~= pressed);
}

/// The state of the input test.
pub struct InputTest {
    event_log: VecDeque<String>,
    keys_pressed: HashSet<u16>,
}

impl InputTest {
    /// The logged event lines, oldest first.
    pub closed spec fn log_view(&self) -> Seq<String> {
        self.event_log@
    }

    /// The codes of the keys held down.
    pub closed spec fn pressed(&self) -> Set<u16> {
        self.keys_pressed@
    }

    /// An empty log with no keys held.
    pub fn new() -> (t: Self)
        ensures
            t.log_view() == Seq::<String>::empty(),
            t.pressed() == Set::<u16>::empty(),
    {
        InputTest { event_log: VecDeque::new(), keys_pressed: HashSet::new() }
    }

    /// Appends `event` to the log, dropping the oldest entry when the log
    /// would hold more than `MAX_LOG_ENTRIES`.
    pub fn log_event(&mut self, event: String)
        ensures
            final(self).log_view() == logged(old(self).log_view(), event),
            final(self).pressed() == old(self).pressed(),
    {
        self.event_log.push_back(event);
        if self.event_log.len() > MAX_LOG_ENTRIES {
            self.event_log.pop_front();
        }
    }

    /// Key `key` went down: if it was not held yet, it is now held and
    /// `message` is logged, and the result is `true`; a key already held
    /// changes nothing, and the result is `false`.
    pub fn key_down_event(&mut self, key: u16, message: String) -> (newly_pressed: bool)
        ensures
            newly_pressed == !old(self).pressed().contains(key),
            final(self).pressed() == old(self).pressed().insert(key),
            newly_pressed ==> final(self).log_view() == logged(old(self).log_view(), message),
            !newly_pressed ==> final(self).log_view() == old(self).log_view(),
    {
        if self.keys_pressed.insert(key) {
            self.log_event(message);
            true
        } else {
            false
        }
    }

    /// Key `key` went up: if it was held, it is released and `message` is
    /// logged, and the result is `true`; a key not held changes nothing,
    /// and the result is `false`.
    pub fn key_up_event(&mut self, key: u16, message: String) -> (released: bool)
        ensures
            released == old(self).pressed().contains(key),
            final(self).pressed() == old(self).pressed().remove(key),
            released ==> final(self).log_view() == logged(old(self).log_view(), message),
            !released ==> final(self).log_view() == old(self).log_view(),
    {
        if self.keys_pressed.remove(&key) {
            self.log_event(message);
            true
        } else {
            false
        }
    }

    /// The logged event lines, oldest first.
    pub fn event_log(&self) -> (log: &VecDeque<String>)
        ensures
            log@ == self.log_view(),
    {
        &self.event_log
    }

    /// Whether key `key` is held down.
    pub fn is_pressed(&self, key: u16) -> (held: bool)
        ensures
            held == self.pressed().contains(key),
    {
        self.keys_pressed.contains(&key)
    }
}

} // verus!
