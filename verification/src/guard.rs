//! The flag that keeps a hook from intercepting the calls it makes itself.
//!
//! While a hook handles a call it may need the very operations that are
//! hooked. Each thread therefore carries a flag: a hook that finds it raised
//! is running inside another hook of the same thread and goes straight to the
//! native operation. The flag lives with its thread and is handed to the
//! functions below by that thread alone.

use vstd::prelude::*;

verus! {

/// The reentrancy flag of one thread.
///
/// It starts out lowered, is raised when a hook begins to handle a call on
/// its thread and lowered again when the hook is done, however the hook ends.
pub struct ReentrancyFlag {
    active: bool,
}

impl View for ReentrancyFlag {
    type V = bool;

    /// Whether a hook is handling a call on this thread.
    closed spec fn view(&self) -> bool {
        self.active
    }
}

impl ReentrancyFlag {
    /// The flag of a thread that has just started: lowered.
    pub fn new() -> (flag: ReentrancyFlag)
        ensures
            !flag@,
    {
        ReentrancyFlag { active: false }
    }

    /// Whether a hook is handling a call on this thread.
    pub fn is_active(&self) -> (active: bool)
        ensures
            active == self@,
    {
        self.active
    }
}

/// What a thread does with its flag.
pub enum GuardEvent {
    /// It asks for a guard, with [`DetourGuard::new`].
    Acquire,
    /// It gives a guard back, with [`DetourGuard::release`].
    Release,
    /// It lowers the flag by hand, with [`detour_bypass_off`].
    Lower,
}

impl GuardEvent {
    /// The flag as the event leaves it, whatever it was before: asking for a
    /// guard raises it, whether or not there is a guard to be had; giving one
    /// back lowers it, and so does lowering it by hand.
    pub open spec fn leaves(self) -> bool {
        match self {
            GuardEvent::Acquire => true,
            GuardEvent::Release => false,
            GuardEvent::Lower => false,
        }
    }

    /// Whether the event hands out a guard: only a request does, and only
    /// when it finds the flag lowered.
    pub open spec fn grants(self, active: bool) -> bool {
        match self {
            GuardEvent::Acquire => !active,
            GuardEvent::Release => false,
            GuardEvent::Lower => false,
        }
    }
}

/// Lowers the flag, whatever it was.
///
/// This is what releasing a [`DetourGuard`] does, and releasing the guard is
/// the way to go. A thread that calls this while it holds a guard gives up
/// what the guard stood for: its next request for a guard is granted, though
/// the hook that holds the first one is still running.
pub fn detour_bypass_off(flag: &mut ReentrancyFlag)
    ensures
        final(flag)@ == GuardEvent::Lower.leaves(),
{
    flag.active = false;
}

/// Stands for a raised [`ReentrancyFlag`]: while it is held, the thread is
/// inside a hook.
///
/// There is one way to get a guard, [`DetourGuard::new`], which raises the
/// flag, and one way to be rid of it, [`DetourGuard::release`], which lowers
/// it again.
pub struct DetourGuard {
    token: (),
}

impl DetourGuard {
    /// Enters a hook on the thread that owns `flag`.
    ///
    /// A raised flag means that the thread is inside a hook already: there is
    /// no guard to be had, and the caller goes to the native operation at
    /// once. A lowered flag is raised, and a guard stands for it. Neither is
    /// a failure.
    pub fn new(flag: &mut ReentrancyFlag) -> (guard: Option<DetourGuard>)
        ensures
            guard is Some <==> GuardEvent::Acquire.grants(old(flag)@),
            final(flag)@ == GuardEvent::Acquire.leaves(),
    {
        if flag.active {
            None
        } else {
            flag.active = true;
            Some(DetourGuard { token: () })
        }
    }

    /// Leaves the hook: lowers `flag`, whatever it was.
    pub fn release(self, flag: &mut ReentrancyFlag)
        ensures
            final(flag)@ == GuardEvent::Release.leaves(),
    {
        detour_bypass_off(flag);
    }
}

/// The flag of a thread that has gone through `events` since it started.
pub open spec fn flag_after(events: Seq<GuardEvent>) -> bool {
    if events.len() == 0 {
        false
    } else {
        events.last().leaves()
    }
}

/// Whether the last of `events` handed out a guard.
pub open spec fn granted(events: Seq<GuardEvent>) -> bool {
    events.len() > 0 && events.last().grants(flag_after(events.drop_last()))
}

/// The number of guards that a thread holds after `events`: one more for
/// each guard handed out, one less for each guard given back. Lowering the
/// flag by hand takes no guard away.
pub open spec fn guards_held(events: Seq<GuardEvent>) -> int
    decreases events.len(),
{
    if events.len() == 0 {
        0
    } else if events.last() is Release {
        guards_held(events.drop_last()) - 1
    } else if granted(events) {
        guards_held(events.drop_last()) + 1
    } else {
        guards_held(events.drop_last())
    }
}

/// The thread keeps to the rules. It gives back only guards that it holds,
/// and it lowers the flag by hand only while it holds none.
pub open spec fn by_the_rules(events: Seq<GuardEvent>) -> bool {
    forall|n: int|
        0 <= n < events.len() ==> match events[n] {
            GuardEvent::Acquire => true,
            GuardEvent::Release => #[trigger] guards_held(events.take(n)) >= 1,
            GuardEvent::Lower => guards_held(events.take(n)) == 0,
        }
}

/// A thread that keeps to the rules holds at most one guard at any time,
/// and it holds one exactly while its flag is raised. So a thread that asks
/// for a guard while it holds one gets none.
pub proof fn lemma_at_most_one_guard(events: Seq<GuardEvent>)
    requires
        by_the_rules(events),
    ensures
        0 <= guards_held(events) <= 1,
        flag_after(events) <==> guards_held(events) == 1,
        guards_held(events) == 1 ==> !granted(events.push(GuardEvent::Acquire)),
    decreases events.len(),
{
    if events.len() > 0 {
        let before = events.drop_last();
        assert forall|n: int| 0 <= n < before.len() implies match before[n] {
            GuardEvent::Acquire => true,
            GuardEvent::Release => #[trigger] guards_held(before.take(n)) >= 1,
            GuardEvent::Lower => guards_held(before.take(n)) == 0,
        } by {
            assert(before.take(n) == events.take(n));
            assert(before[n] == events[n]);
            assert(guards_held(before.take(n)) == guards_held(events.take(n)));
        }
        lemma_at_most_one_guard(before);
        assert(events.take(events.len() - 1) == before);
        assert(guards_held(events.take(events.len() - 1)) == guards_held(before));
    }
    assert(events.push(GuardEvent::Acquire).drop_last() == events);
}

/// Two requests in a row: whatever went before, the second one gets no
/// guard.
pub proof fn lemma_second_request_gets_no_guard(events: Seq<GuardEvent>)
    ensures
        !granted(events.push(GuardEvent::Acquire).push(GuardEvent::Acquire)),
{
    let once = events.push(GuardEvent::Acquire);
    assert(once.push(GuardEvent::Acquire).drop_last() == once);
}

/// Giving a guard back lowers the flag whatever went before, so the next
/// request for a guard is granted.
pub proof fn lemma_release_reopens(events: Seq<GuardEvent>)
    ensures
        !flag_after(events.push(GuardEvent::Release)),
        granted(events.push(GuardEvent::Release).push(GuardEvent::Acquire)),
{
    let released = events.push(GuardEvent::Release);
    assert(released.push(GuardEvent::Acquire).drop_last() == released);
}

} // verus!
