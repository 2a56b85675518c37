use vstd::prelude::*;

use std::collections::HashMap;

use crate::property::Property;
use crate::property::PropertyModel;

verus! {

broadcast use vstd::std_specs::hash::group_hash_axioms;

/// The two ways a lookup can fail.
#[derive(Clone, Copy, Debug, PartialEq, Eq)]
pub enum PropertyError {
    /// The requested identity has no slot, or its slot has never been
    /// assigned a value.
    NotFound,
    /// The slot found under the requested identity was registered for a
    /// different identity.  This can only arise from a collision in the
    /// identity scheme; the collection proves it impossible for slots it
    /// created itself.
    TypeMismatch,
}

/// The value stored under identity `tag`, or `None` when `tag` has no slot
/// or its slot has never been assigned.
pub open spec fn value_at<V>(collection: Map<u64, PropertyModel<V>>, tag: u64) -> Option<V> {
    if collection.dom().contains(tag) {
        collection[tag].value
    } else {
        None
    }
}

/// The subscriber handles registered under identity `tag`, in registration
/// order; empty when `tag` has no slot.
pub open spec fn subscribers_at<V>(collection: Map<u64, PropertyModel<V>>, tag: u64) -> Seq<u64> {
    if collection.dom().contains(tag) {
        collection[tag].subscribers
    } else {
        Seq::empty()
    }
}

/// The collection after assigning `value` under identity `tag`: the slot for
/// `tag` holds `value`, keeps its subscribers, and every other identity is
/// untouched.
pub open spec fn assign_model<V>(
    collection: Map<u64, PropertyModel<V>>,
    tag: u64,
    value: V,
) -> Map<u64, PropertyModel<V>> {
    collection.insert(
        tag,
        PropertyModel { value: Some(value), subscribers: subscribers_at(collection, tag) },
    )
}

/// The collection after registering `subscriber` under identity `tag`: the
/// slot for `tag` keeps its value (none, if the slot is new) and gains the
/// handle at the end of its subscriber list; every other identity is
/// untouched.
pub open spec fn subscribe_model<V>(
    collection: Map<u64, PropertyModel<V>>,
    tag: u64,
    subscriber: u64,
) -> Map<u64, PropertyModel<V>> {
    collection.insert(
        tag,
        PropertyModel {
            value: value_at(collection, tag),
            subscribers: subscribers_at(collection, tag).push(subscriber),
        },
    )
}

/// One type-erased slot of the collection: the property together with the
/// identity tag of the property type it was registered for.
struct Slot<V> {
    tag: u64,
    property: Property<V>,
}

/// A dynamic collection of properties, at most one per property identity.
///
/// A property identity is a `u64` tag that stands for one nominal property
/// type; distinct types must be given distinct tags.  The collection routes
/// every read, write and subscription to the slot registered under the
/// requested tag, creating the slot on demand.
pub struct PropertyCollection<V> {
    slots: HashMap<u64, Slot<V>>,
}

impl<V> View for PropertyCollection<V> {
    type V = Map<u64, PropertyModel<V>>;

    closed spec fn view(&self) -> Map<u64, PropertyModel<V>> {
        Map::new(
            |tag: u64| self.slots@.dom().contains(tag),
            |tag: u64| self.slots@[tag].property@,
        )
    }
}

impl<V> PropertyCollection<V> {
    /// Every slot records the tag it is stored under: the identity a slot was
    /// registered for never drifts away from the identity it resolves by.
    #[verifier::type_invariant]
    spec fn well_formed(self) -> bool {
        forall|tag: u64| #[trigger]
            self.slots@.dom().contains(tag) ==> self.slots@[tag].tag == tag
    }

    /// Creates an empty collection.
    pub fn new() -> (collection: Self)
        ensures
            collection@ == Map::<u64, PropertyModel<V>>::empty(),
    {
        let collection = PropertyCollection { slots: HashMap::new() };
        proof {
            assert(collection@ =~= Map::<u64, PropertyModel<V>>::empty());
        }
        collection
    }

    /// Resolves identity `tag` to its slot.  The three outcomes mirror what
    /// resolution can mean: no slot (`NotFound`), a slot registered for the
    /// requested identity (`Ok`), or a slot registered for a different
    /// identity (`TypeMismatch`).  The last is checked defensively; the
    /// collection's invariant makes it unreachable, so the contract promises
    /// it is never returned.
    fn get_property(&self, tag: u64) -> (result: Result<&Property<V>, PropertyError>)
        ensures
            match result {
                Ok(property) => self@.dom().contains(tag) && property@ == self@[tag],
                Err(error) => error == PropertyError::NotFound && !self@.dom().contains(tag),
            },
    {
        proof {
            use_type_invariant(&*self);
        }
        match self.slots.get(&tag) {
            Some(slot) => {
                if slot.tag == tag {
                    Ok(&slot.property)
                } else {
                    Err(PropertyError::TypeMismatch)
                }
            },
            None => Err(PropertyError::NotFound),
        }
    }

    /// Returns the value stored under identity `tag`.
    ///
    /// Fails with `NotFound` when `tag` has no slot, and also when its slot
    /// exists only because of subscriptions and has never been assigned.
    /// `TypeMismatch` would report a slot registered for a different
    /// identity; the contract shows it cannot happen.
    pub fn get(&self, tag: u64) -> (result: Result<&V, PropertyError>)
        ensures
            match result {
                Ok(value) => value_at(self@, tag) == Some(*value),
                Err(error) => error == PropertyError::NotFound && value_at(self@, tag) is None,
            },
    {
        match self.get_property(tag) {
            Ok(property) => match property.get() {
                Some(value) => Ok(value),
                None => Err(PropertyError::NotFound),
            },
            Err(error) => Err(error),
        }
    }

    /// Returns whether identity `tag` currently holds a value.  A slot that
    /// exists only because of subscriptions, with no value ever assigned,
    /// counts as absent.
    pub fn contains(&self, tag: u64) -> (result: bool)
        ensures
            result == (value_at(self@, tag) is Some),
    {
        match self.get_property(tag) {
            Ok(property) => property.get().is_some(),
            Err(_) => false,
        }
    }

    /// Stores `value` under identity `tag`, creating the slot on demand, and
    /// returns the subscriber handles to notify of the newly stored value, in
    /// registration order.  Subscribers of every other identity stay silent,
    /// and no slot but the one for `tag` changes.
    pub fn assign(&mut self, tag: u64, value: V) -> (notify: Vec<u64>)
        ensures
            final(self)@ == assign_model(old(self)@, tag, value),
            notify@ == subscribers_at(old(self)@, tag),
    {
        proof {
            use_type_invariant(&*self);
        }
        let mut slots: HashMap<u64, Slot<V>> = HashMap::new();
        std::mem::swap(&mut slots, &mut self.slots);
        let notify: Vec<u64> = match slots.remove(&tag) {
            Some(mut slot) => {
                let notify = slot.property.assign(value);
                slots.insert(tag, slot);
                notify
            },
            None => {
                slots.insert(tag, Slot { tag, property: Property::new(value) });
                Vec::new()
            },
        };
        std::mem::swap(&mut slots, &mut self.slots);
        proof {
            assert(self@ =~= assign_model(old(self)@, tag, value));
        }
        notify
    }

    /// Registers `subscriber` under identity `tag`, creating an empty slot on
    /// demand: subscribing to an identity never assigned is allowed, and the
    /// handle then appears in the firing list of every later assignment to
    /// `tag`.  The handle is not notified now, even if a value is already in
    /// place, and no value anywhere changes.
    pub fn subscribe(&mut self, tag: u64, subscriber: u64)
        ensures
            final(self)@ == subscribe_model(old(self)@, tag, subscriber),
    {
        proof {
            use_type_invariant(&*self);
        }
        let mut slots: HashMap<u64, Slot<V>> = HashMap::new();
        std::mem::swap(&mut slots, &mut self.slots);
        match slots.remove(&tag) {
            Some(mut slot) => {
                slot.property.subscribe(subscriber);
                slots.insert(tag, slot);
            },
            None => {
                let mut property: Property<V> = Property::empty();
                property.subscribe(subscriber);
                slots.insert(tag, Slot { tag, property });
            },
        }
        std::mem::swap(&mut slots, &mut self.slots);
        proof {
            assert(self@ =~= subscribe_model(old(self)@, tag, subscriber));
        }
    }
}

/// Identity isolation: assigning under one identity never changes the value
/// or the subscribers resolved by any other identity, so it can neither make
/// a lookup under another identity succeed nor disturb what it returns.
pub proof fn lemma_assign_isolation<V>(
    collection: Map<u64, PropertyModel<V>>,
    tag: u64,
    other: u64,
    value: V,
)
    requires
        tag != other,
    ensures
        value_at(assign_model(collection, tag, value), other) == value_at(collection, other),
        subscribers_at(assign_model(collection, tag, value), other) == subscribers_at(
            collection,
            other,
        ),
{
}

/// Identity isolation for subscriptions: registering a subscriber under one
/// identity never changes the value or the subscribers resolved by any other
/// identity.
pub proof fn lemma_subscribe_isolation<V>(
    collection: Map<u64, PropertyModel<V>>,
    tag: u64,
    other: u64,
    subscriber: u64,
)
    requires
        tag != other,
    ensures
        value_at(subscribe_model(collection, tag, subscriber), other) == value_at(
            collection,
            other,
        ),
        subscribers_at(subscribe_model(collection, tag, subscriber), other) == subscribers_at(
            collection,
            other,
        ),
{
}

/// A fresh collection resolves no identity: every lookup comes back empty
/// and no identity has subscribers, so `get` fails with `NotFound` and
/// `contains` is false for every identity.
pub proof fn lemma_fresh_collection<V>(tag: u64)
    ensures
        value_at(Map::<u64, PropertyModel<V>>::empty(), tag) is None,
        subscribers_at(Map::<u64, PropertyModel<V>>::empty(), tag) == Seq::<u64>::empty(),
{
}

/// Last write wins: after two assignments under the same identity, the
/// identity resolves to the second value, and no history of the first is
/// retained anywhere in the collection.
pub proof fn lemma_last_write_wins<V>(
    collection: Map<u64, PropertyModel<V>>,
    tag: u64,
    first: V,
    second: V,
)
    ensures
        value_at(assign_model(assign_model(collection, tag, first), tag, second), tag) == Some(
            second,
        ),
        assign_model(assign_model(collection, tag, first), tag, second) == assign_model(
            collection,
            tag,
            second,
        ),
{
    assert(assign_model(assign_model(collection, tag, first), tag, second) =~= assign_model(
        collection,
        tag,
        second,
    ));
}

/// Notification is per write, not per change: an assignment never alters the
/// subscriber list, so each of two consecutive assignments under the same
/// identity fires the full list exactly once, even when the assigned values
/// are equal.
pub proof fn lemma_notification_per_write<V>(
    collection: Map<u64, PropertyModel<V>>,
    tag: u64,
    first: V,
    second: V,
)
    ensures
        subscribers_at(assign_model(collection, tag, first), tag) == subscribers_at(
            collection,
            tag,
        ),
        subscribers_at(assign_model(assign_model(collection, tag, first), tag, second), tag)
            == subscribers_at(collection, tag),
{
}

/// Early subscription: registering a subscriber under an identity that holds
/// no value leaves it without a value, so nothing is delivered at
/// subscription time and `contains` stays false; the first assignment after
/// it fires that subscriber exactly once, with the newly assigned value.
pub proof fn lemma_early_subscription<V>(
    collection: Map<u64, PropertyModel<V>>,
    tag: u64,
    subscriber: u64,
    value: V,
)
    requires
        value_at(collection, tag) is None,
        subscribers_at(collection, tag) == Seq::<u64>::empty(),
    ensures
        value_at(subscribe_model(collection, tag, subscriber), tag) is None,
        subscribers_at(subscribe_model(collection, tag, subscriber), tag) == seq![subscriber],
        value_at(assign_model(subscribe_model(collection, tag, subscriber), tag, value), tag)
            == Some(value),
{
    assert(subscribers_at(subscribe_model(collection, tag, subscriber), tag) =~= seq![subscriber]);
}

/// Subscribers fire in registration order: after registering `first` and
/// then `second` under the same identity, every assignment's firing list is
/// the previously registered handles followed by `first` and then `second`,
/// so `first` is always notified before `second`.
pub proof fn lemma_subscription_order<V>(
    collection: Map<u64, PropertyModel<V>>,
    tag: u64,
    first: u64,
    second: u64,
)
    ensures
        ({
            let order = subscribers_at(
                subscribe_model(subscribe_model(collection, tag, first), tag, second),
                tag,
            );
            &&& order == subscribers_at(collection, tag).push(first).push(second)
            &&& order[order.len() - 2] == first
            &&& order[order.len() - 1] == second
        }),
{
}

} // verus!
