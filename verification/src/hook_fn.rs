//! The slot that holds the native operation behind a hook.
//!
//! Each hooked operation has one slot. It starts out empty, is filled once
//! with the native operation and is read from then on, whenever a hook
//! steps aside. Filling it is "set if absent": whoever comes first wins, and
//! whoever comes later finds the slot filled and leaves it alone.

use crate::detour::Detour;
use vstd::prelude::*;

verus! {

/// A slot after `value` was offered to it: the first value offered stays.
pub open spec fn offer<T>(held: Option<T>, value: T) -> Option<T> {
    match held {
        Some(kept) => Some(kept),
        None => Some(value),
    }
}

/// A slot after each of `values` was offered to it, in their order.
pub open spec fn offer_all<T>(held: Option<T>, values: Seq<T>) -> Option<T>
    decreases values.len(),
{
    if values.len() == 0 {
        held
    } else {
        offer(offer_all(held, values.drop_last()), values.last())
    }
}

/// A slot after an initialisation whose factory, had it been asked, would
/// have returned `made`: a filled slot stays as it is, an empty one is
/// filled by a success and by nothing else.
pub open spec fn slot_after_init<T>(held: Option<T>, made: Detour<T>) -> Option<T> {
    match held {
        Some(kept) => Some(kept),
        None => match made {
            Detour::Success(value) => Some(value),
            Detour::Bypass(_) => None,
            Detour::Error(_) => None,
        },
    }
}

/// A slot after one initialisation for each of `made`, in their order.
pub open spec fn slot_after_inits<T>(held: Option<T>, made: Seq<Detour<T>>) -> Option<T>
    decreases made.len(),
{
    if made.len() == 0 {
        held
    } else {
        slot_after_init(slot_after_inits(held, made.drop_last()), made.last())
    }
}

/// What such an initialisation returns: the value of a filled slot, else
/// what the factory returned.
pub open spec fn init_outcome<T>(held: Option<T>, made: Detour<T>) -> Detour<T> {
    match held {
        Some(kept) => Detour::Success(kept),
        None => made,
    }
}

/// An outcome that refers to a value, as an outcome with the value itself.
pub open spec fn by_value<T>(detour: Detour<&T>) -> Detour<T> {
    match detour {
        Detour::Success(value) => Detour::Success(*value),
        Detour::Bypass(reason) => Detour::Bypass(reason),
        Detour::Error(error) => Detour::Error(error),
    }
}

/// Whatever the factory `f` returns is `made`.
pub open spec fn yields<T, F: FnOnce() -> Detour<T>>(f: F, made: Detour<T>) -> bool {
    forall|returned: Detour<T>| #[trigger] f.ensures((), returned) ==> returned == made
}

/// The write-once slot for the native operation behind one hook.
///
/// Its view is what it holds: `None` until it is filled, the same `Some`
/// ever after.
#[derive(Debug)]
pub struct HookFn<T> {
    slot: Option<T>,
}

impl<T> View for HookFn<T> {
    type V = Option<T>;

    closed spec fn view(&self) -> Option<T> {
        self.slot
    }
}

impl<T> HookFn<T> {
    /// An empty slot.
    pub fn default_const() -> (hook: HookFn<T>)
        ensures
            hook@ is None,
    {
        HookFn { slot: None }
    }

    /// What the slot holds, if it is filled.
    pub fn get(&self) -> (held: Option<&T>)
        ensures
            held == match self@ {
                Some(value) => Some(&value),
                None => None,
            },
    {
        self.slot.as_ref()
    }

    /// The native operation, from a slot that is filled.
    pub fn deref(&self) -> (value: &T)
        requires
            self@ is Some,
        ensures
            Some(*value) == self@,
    {
        self.slot.as_ref().unwrap()
    }

    /// Fills an empty slot with `value`; a filled slot stays as it is and
    /// `value` comes back.
    pub fn set(&mut self, value: T) -> (done: Result<(), T>)
        ensures
            final(self)@ == offer(old(self)@, value),
            done == match old(self)@ {
                Some(_) => Err(value),
                None => Ok(()),
            },
    {
        if self.slot.is_some() {
            Err(value)
        } else {
            self.slot = Some(value);
            Ok(())
        }
    }

    /// Offers `value` to the slot and returns what the slot then holds: the
    /// value it held before, or else `value`.
    pub fn get_or_init(&mut self, value: T) -> (held: &T)
        ensures
            final(self)@ == offer(old(self)@, value),
            Some(*held) == final(self)@,
    {
        if self.slot.is_none() {
            self.slot = Some(value);
        }
        self.slot.as_ref().unwrap()
    }

    /// Takes up what a factory made for this slot, and returns what the
    /// caller of the factory is to get.
    ///
    /// A success is offered to the slot, and what the slot then holds is
    /// returned: the value at hand if the slot was empty, and else the value
    /// that got there first, in which case the value at hand is dropped. A
    /// bypass or an error is returned as it is, and the slot stays as it was.
    pub fn init_from(&mut self, made: Detour<T>) -> (detour: Detour<&T>)
        ensures
            match made {
                Detour::Success(value) => {
                    &&& final(self)@ == offer(old(self)@, value)
                    &&& final(self)@ matches Some(kept) && by_value(detour) == Detour::Success(
                        kept,
                    )
                },
                Detour::Bypass(reason) => {
                    &&& final(self)@ == old(self)@
                    &&& detour == Detour::<&T>::Bypass(reason)
                },
                Detour::Error(error) => {
                    &&& final(self)@ == old(self)@
                    &&& detour == Detour::<&T>::Error(error)
                },
            },
            old(self)@ is None ==> by_value(detour) == made && final(self)@ == slot_after_init(
                None,
                made,
            ),
    {
        match made {
            Detour::Success(value) => Detour::Success(self.get_or_init(value)),
            Detour::Bypass(reason) => Detour::Bypass(reason),
            Detour::Error(error) => Detour::Error(error),
        }
    }

    /// Returns what the slot holds, filling it first if it is empty.
    ///
    /// A filled slot is returned as it is, and `f` is not called. For an
    /// empty slot `f` is called: a success fills the slot and is returned; a
    /// bypass or an error is returned as it is and leaves the slot empty, so
    /// that a later call tries again.
    ///
    /// `f` has to be callable only when the slot is empty.
    pub fn get_or_detour_init<F>(&mut self, f: F) -> (detour: Detour<&T>) where
        F: FnOnce() -> Detour<T>,

        requires
            old(self)@ is None ==> f.requires(()),
        ensures
            old(self)@ matches Some(kept) ==> final(self)@ == old(self)@ && by_value(detour)
                == Detour::Success(kept),
            old(self)@ is None ==> f.ensures((), by_value(detour)),
            final(self)@ == slot_after_init(old(self)@, by_value(detour)),
            forall|made: Detour<T>| #[trigger]
                yields(f, made) ==> by_value(detour) == init_outcome(old(self)@, made),
    {
        if self.slot.is_some() {
            Detour::Success(self.slot.as_ref().unwrap())
        } else {
            self.init_from(f())
        }
    }
}

/// A filled slot stays as it is: nothing that is offered to it changes what
/// it holds.
pub proof fn lemma_filled_slot_stays<T>(kept: T, values: Seq<T>)
    ensures
        offer_all(Some(kept), values) == Some(kept),
    decreases values.len(),
{
    if values.len() > 0 {
        lemma_filled_slot_stays(kept, values.drop_last());
    }
}

/// An empty slot that was offered some values holds the first of them.
pub proof fn lemma_offers_keep_first<T>(values: Seq<T>)
    requires
        values.len() > 0,
    ensures
        offer_all(None, values) == Some(values[0]),
    decreases values.len(),
{
    let before = values.drop_last();
    if before.len() > 0 {
        lemma_offers_keep_first(before);
        assert(before[0] == values[0]);
    } else {
        assert(offer_all(None::<T>, before) == None::<T>);
        assert(values.last() == values[0]);
    }
}

/// The first writer wins: however many values are offered to an empty slot,
/// and in whatever order they arrive, the slot holds the one that arrived
/// first, and each writer finds that one in the slot when its own offer is
/// through.
pub proof fn lemma_first_writer_wins<T>(values: Seq<T>)
    requires
        values.len() > 0,
    ensures
        forall|n: int|
            1 <= n <= values.len() ==> #[trigger] offer_all(None, values.take(n)) == Some(
                values[0],
            ),
{
    assert forall|n: int| 1 <= n <= values.len() implies #[trigger] offer_all(
        None,
        values.take(n),
    ) == Some(values[0]) by {
        lemma_offers_keep_first(values.take(n));
    }
}

/// An initialisation whose factory succeeds is an offer of the factory's
/// value: the slot takes it if it is empty, and the caller gets what the slot
/// then holds.
pub proof fn lemma_successful_init_is_an_offer<T>(held: Option<T>, value: T)
    ensures
        slot_after_init(held, Detour::Success(value)) == offer(held, value),
        init_outcome(held, Detour::Success(value)) == Detour::Success(
            offer(held, value)->Some_0,
        ),
{
}

/// However many callers initialise an empty slot with factories that
/// succeed, and in whatever order their turns come, one value is stored: that
/// of the caller whose turn came first. Every caller gets that value, and the
/// slot holds it after every turn.
pub proof fn lemma_first_init_wins<T>(made: Seq<Detour<T>>)
    requires
        made.len() > 0,
        forall|i: int| 0 <= i < made.len() ==> made[i] is Success,
    ensures
        forall|n: int|
            1 <= n <= made.len() ==> #[trigger] slot_after_inits(None, made.take(n)) == Some(
                made[0]->Success_0,
            ),
        forall|n: int|
            0 <= n < made.len() ==> init_outcome(
                #[trigger] slot_after_inits(None, made.take(n)),
                made[n],
            ) == made[0],
{
    let first = made[0]->Success_0;
    assert forall|n: int| 1 <= n <= made.len() implies #[trigger] slot_after_inits(
        None,
        made.take(n),
    ) == Some(first) by {
        lemma_inits_keep_first(made.take(n));
    }
    assert forall|n: int| 0 <= n < made.len() implies init_outcome(
        #[trigger] slot_after_inits(None, made.take(n)),
        made[n],
    ) == made[0] by {
        if n > 0 {
            lemma_inits_keep_first(made.take(n));
        } else {
            assert(made.take(0).len() == 0);
        }
    }
}

/// An empty slot that went through initialisations with factories that
/// succeed holds the value of the first of them.
proof fn lemma_inits_keep_first<T>(made: Seq<Detour<T>>)
    requires
        made.len() > 0,
        forall|i: int| 0 <= i < made.len() ==> made[i] is Success,
    ensures
        slot_after_inits(None, made) == Some(made[0]->Success_0),
    decreases made.len(),
{
    let before = made.drop_last();
    if before.len() > 0 {
        lemma_inits_keep_first(before);
        assert(before[0] == made[0]);
    } else {
        assert(slot_after_inits(None::<T>, before) == None::<T>);
        assert(made.last() == made[0]);
    }
}

/// An initialisation of a filled slot returns what the slot holds and
/// leaves it there, whatever the factory would have returned; so two
/// initialisations in a row return the same value.
pub proof fn lemma_init_of_filled_slot<T>(kept: T, first: Detour<T>, second: Detour<T>)
    ensures
        slot_after_init(Some(kept), first) == Some(kept),
        init_outcome(Some(kept), first) == Detour::Success(kept),
        init_outcome(slot_after_init(Some(kept), first), second) == init_outcome(
            Some(kept),
            first,
        ),
{
}

/// An initialisation that did not succeed leaves an empty slot empty, and
/// the next one starts afresh: its outcome is that of its own factory.
pub proof fn lemma_failed_init_is_retried<T>(failed: Detour<T>, next: Detour<T>)
    requires
        !(failed is Success),
    ensures
        slot_after_init(None, failed) == None::<T>,
        init_outcome(slot_after_init(None, failed), next) == next,
{
}

} // verus!
