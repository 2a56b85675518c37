use vstd::prelude::*;

verus! {

/// Mathematical model of one property slot: the value currently stored, if
/// any, and the subscriber handles in the order in which they registered.
#[verifier::ext_equal]
pub ghost struct PropertyModel<T> {
    pub value: Option<T>,
    pub subscribers: Seq<u64>,
}

/// A property slot: holds at most one value of type `T` together with the
/// ordered list of subscriber handles interested in changes to that value.
///
/// Subscribers are identified by caller-chosen `u64` handles.  The slot never
/// runs subscriber code itself: [`Property::assign`] returns the handles to
/// notify, in registration order, and the caller dispatches to the callbacks
/// it keeps for those handles.
pub struct Property<T> {
    value: Option<T>,
    subscribers: Vec<u64>,
}

impl<T> View for Property<T> {
    type V = PropertyModel<T>;

    closed spec fn view(&self) -> PropertyModel<T> {
        PropertyModel { value: self.value, subscribers: self.subscribers@ }
    }
}

impl<T> Property<T> {
    /// Creates a property that already holds `value` and has no subscribers.
    pub fn new(value: T) -> (property: Self)
        ensures
            property@.value == Some(value),
            property@.subscribers == Seq::<u64>::empty(),
    {
        Property { value: Some(value), subscribers: Vec::new() }
    }

    /// Creates a property with no value and no subscribers.  A slot in this
    /// state exists only to host subscriptions made before any assignment.
    pub fn empty() -> (property: Self)
        ensures
            property@.value is None,
            property@.subscribers == Seq::<u64>::empty(),
    {
        Property { value: None, subscribers: Vec::new() }
    }

    /// Returns a reference to the current value, or `None` while the slot has
    /// never been assigned.
    pub fn get(&self) -> (result: Option<&T>)
        ensures
            match result {
                Some(value) => self@.value == Some(*value),
                None => self@.value is None,
            },
    {
        self.value.as_ref()
    }

    /// Replaces the stored value, whether or not one was present, and returns
    /// the subscriber handles to notify.  The returned order is exactly the
    /// registration order, every subscriber appears exactly as often as it
    /// registered, and each notification carries the newly stored value.
    pub fn assign(&mut self, value: T) -> (notify: Vec<u64>)
        ensures
            final(self)@.value == Some(value),
            final(self)@.subscribers == old(self)@.subscribers,
            notify@ == old(self)@.subscribers,
    {
        self.value = Some(value);

        let mut notify: Vec<u64> = Vec::new();
        let mut i: usize = 0;
        while i < self.subscribers.len()
            invariant
                i <= self.subscribers@.len(),
                notify@ == self.subscribers@.take(i as int),
            decreases self.subscribers@.len() - i,
        {
            notify.push(self.subscribers[i]);
            i = i + 1;
            proof {
                assert(notify@ =~= self.subscribers@.take(i as int));
            }
        }
        proof {
            assert(notify@ =~= self.subscribers@);
        }
        notify
    }

    /// Appends `subscriber` to the end of the subscriber list.  The handle is
    /// not notified for a value already in place: it only appears in the
    /// firing lists of assignments made after this call.
    pub fn subscribe(&mut self, subscriber: u64)
        ensures
            final(self)@.value == old(self)@.value,
            final(self)@.subscribers == old(self)@.subscribers.push(subscriber),
    {
        self.subscribers.push(subscriber);
    }
}

} // verus!
