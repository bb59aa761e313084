//! The object dictionary: the typed values that a node exposes, each under an
//! index and a sub-index, and the subscribers that follow them.

use std::collections::HashMap;
use vstd::prelude::*;

verus! {

/// A value of one of the data types of the dictionary.
#[derive(Clone, Debug, PartialEq)]
pub enum ObjectValue {
    Boolean(bool),
    Integer8(i8),
    Integer16(i16),
    Integer32(i32),
    Unsigned8(u8),
    Unsigned16(u16),
    Unsigned32(u32),
    /// A 32-bit real number, held as the bits of its IEEE 754 encoding.
    Real32(u32),
    VisibleString(String),
    OctetString(String),
    UnicodeString(String),
}

/// The data type of a value, without the value.
#[derive(Clone, Copy, Debug, PartialEq, Eq, Structural)]
pub enum ObjectType {
    Boolean,
    Integer8,
    Integer16,
    Integer32,
    Unsigned8,
    Unsigned16,
    Unsigned32,
    Real32,
    VisibleString,
    OctetString,
    UnicodeString,
}

impl ObjectValue {
    /// The data type that a value belongs to.
    pub open spec fn tag(&self) -> ObjectType {
        match self {
            ObjectValue::Boolean(_) => ObjectType::Boolean,
            ObjectValue::Integer8(_) => ObjectType::Integer8,
            ObjectValue::Integer16(_) => ObjectType::Integer16,
            ObjectValue::Integer32(_) => ObjectType::Integer32,
            ObjectValue::Unsigned8(_) => ObjectType::Unsigned8,
            ObjectValue::Unsigned16(_) => ObjectType::Unsigned16,
            ObjectValue::Unsigned32(_) => ObjectType::Unsigned32,
            ObjectValue::Real32(_) => ObjectType::Real32,
            ObjectValue::VisibleString(_) => ObjectType::VisibleString,
            ObjectValue::OctetString(_) => ObjectType::OctetString,
            ObjectValue::UnicodeString(_) => ObjectType::UnicodeString,
        }
    }

    /// The data type that this value belongs to.
    pub fn object_type(&self) -> (object_type: ObjectType)
        ensures
            object_type == self.tag(),
    {
        match self {
            ObjectValue::Boolean(_) => ObjectType::Boolean,
            ObjectValue::Integer8(_) => ObjectType::Integer8,
            ObjectValue::Integer16(_) => ObjectType::Integer16,
            ObjectValue::Integer32(_) => ObjectType::Integer32,
            ObjectValue::Unsigned8(_) => ObjectType::Unsigned8,
            ObjectValue::Unsigned16(_) => ObjectType::Unsigned16,
            ObjectValue::Unsigned32(_) => ObjectType::Unsigned32,
            ObjectValue::Real32(_) => ObjectType::Real32,
            ObjectValue::VisibleString(_) => ObjectType::VisibleString,
            ObjectValue::OctetString(_) => ObjectType::OctetString,
            ObjectValue::UnicodeString(_) => ObjectType::UnicodeString,
        }
    }
}

/// Someone who wants to hear of every accepted write to an entry.
pub trait ObjectSubscriber {
    /// What one notification does to a subscriber: whether `after` is this
    /// subscriber once it has been told that the entry at `index` and
    /// `sub_index` now holds `value`. Each subscriber says this of itself.
    open spec fn notified(
        &self,
        after: &Self,
        index: u16,
        sub_index: u8,
        value: &ObjectValue,
    ) -> bool {
        true
    }

    /// Takes one notification.
    fn object_updated(&mut self, index: u16, sub_index: u8, value: &ObjectValue)
        ensures
            old(self).notified(final(self), index, sub_index, value),
    ;
}

/// What an entry is: its address, its value and its subscribers in the order
/// in which they came.
pub struct ObjectView<S> {
    pub index: u16,
    pub sub_index: u8,
    pub value: ObjectValue,
    pub subscribers: Seq<S>,
}

impl<S: ObjectSubscriber> ObjectView<S> {
    /// An entry as it is made: with a value and no subscribers.
    pub open spec fn fresh(index: u16, sub_index: u8, value: ObjectValue) -> ObjectView<S> {
        ObjectView { index, sub_index, value, subscribers: Seq::empty() }
    }

    /// This entry with one subscriber more, behind those that are there.
    pub open spec fn subscribed(self, subscriber: S) -> ObjectView<S> {
        ObjectView {
            index: self.index,
            sub_index: self.sub_index,
            value: self.value,
            subscribers: self.subscribers.push(subscriber),
        }
    }

    /// Whether `after` is this entry once a write of `value` has been
    /// accepted: the value is stored, and every subscriber has been told of
    /// it, once, with the address of the entry and the new value.
    pub open spec fn written(self, after: ObjectView<S>, value: ObjectValue) -> bool {
        &&& after.index == self.index
        &&& after.sub_index == self.sub_index
        &&& after.value == value
        &&& after.subscribers.len() == self.subscribers.len()
        &&& forall|i: int|
            0 <= i < self.subscribers.len() ==> #[trigger] self.subscribers[i].notified(
                &after.subscribers[i],
                self.index,
                self.sub_index,
                &value,
            )
    }
}

/// One entry of a dictionary.
pub struct Object<S: ObjectSubscriber> {
    index: u16,
    sub_index: u8,
    value: ObjectValue,
    subscribers: Vec<S>,
}

impl<S: ObjectSubscriber> View for Object<S> {
    type V = ObjectView<S>;

    closed spec fn view(&self) -> ObjectView<S> {
        ObjectView {
            index: self.index,
            sub_index: self.sub_index,
            value: self.value,
            subscribers: self.subscribers@,
        }
    }
}

impl<S: ObjectSubscriber> Object<S> {
    /// An entry with a value and no subscribers.
    pub fn new(index: u16, sub_index: u8, value: ObjectValue) -> (object: Object<S>)
        ensures
            object@ == ObjectView::<S>::fresh(index, sub_index, value),
    {
        Object { index, sub_index, value, subscribers: Vec::new() }
    }

    /// Stores a value of the entry's own data type and tells every subscriber,
    /// in the order in which they subscribed. A value of another data type is
    /// dropped and nothing changes.
    pub fn write(&mut self, value: ObjectValue)
        ensures
            value.tag() == old(self)@.value.tag() ==> old(self)@.written(final(self)@, value),
            value.tag() != old(self)@.value.tag() ==> final(self)@ == old(self)@,
    {
        if self.value.object_type() == value.object_type() {
            self.value = value;
            let n = self.subscribers.len();
            let mut i: usize = 0;
            while i < n
                invariant
                    i <= n,
                    n == self.subscribers.len(),
                    n == old(self).subscribers.len(),
                    self.index == old(self).index,
                    self.sub_index == old(self).sub_index,
                    self.value == value,
                    forall|k: int|
                        0 <= k < i ==> #[trigger] old(self).subscribers[k].notified(
                            &self.subscribers[k],
                            self.index,
                            self.sub_index,
                            &value,
                        ),
                    forall|k: int| i <= k < n ==> self.subscribers[k] == old(self).subscribers[k],
                decreases n - i,
            {
                self.subscribers[i].object_updated(self.index, self.sub_index, &self.value);
                i = i + 1;
            }
        }
    }

    /// The value that the entry holds.
    pub fn read(&self) -> (value: &ObjectValue)
        ensures
            *value == self@.value,
    {
        &self.value
    }

    /// Adds a subscriber behind those that are there.
    pub fn subscribe(&mut self, subscriber: S)
        ensures
            final(self)@ == old(self)@.subscribed(subscriber),
    {
        self.subscribers.push(subscriber);
    }
}

/// What a dictionary is: its entries, each under an index and a sub-index.
pub struct DictionaryView<S> {
    pub entries: Map<(u16, u8), ObjectView<S>>,
}

impl<S: ObjectSubscriber> DictionaryView<S> {
    /// The dictionary without entries.
    pub open spec fn empty() -> DictionaryView<S> {
        DictionaryView { entries: Map::empty() }
    }

    /// Every entry knows the address under which it is kept. This holds of
    /// the empty dictionary and no operation breaks it.
    pub open spec fn wf(self) -> bool {
        forall|index: u16, sub_index: u8| #[trigger]
            self.entries.contains_key((index, sub_index)) ==> {
                &&& self.entries[(index, sub_index)].index == index
                &&& self.entries[(index, sub_index)].sub_index == sub_index
            }
    }

    /// The value kept at an address, if there is an entry.
    pub open spec fn value_at(self, index: u16, sub_index: u8) -> Option<ObjectValue> {
        if self.entries.contains_key((index, sub_index)) {
            Some(self.entries[(index, sub_index)].value)
        } else {
            None
        }
    }

    /// After an entry has been put under an address, in place of whatever was
    /// there.
    pub open spec fn added(self, index: u16, sub_index: u8, value: ObjectValue) -> DictionaryView<
        S,
    > {
        DictionaryView {
            entries: self.entries.insert(
                (index, sub_index),
                ObjectView::fresh(index, sub_index, value),
            ),
        }
    }

    /// After a subscription: the entry has one subscriber more, and where
    /// there is no entry nothing has changed.
    pub open spec fn subscribed(self, index: u16, sub_index: u8, subscriber: S) -> DictionaryView<
        S,
    > {
        if self.entries.contains_key((index, sub_index)) {
            DictionaryView {
                entries: self.entries.insert(
                    (index, sub_index),
                    self.entries[(index, sub_index)].subscribed(subscriber),
                ),
            }
        } else {
            self
        }
    }

    /// Whether a write is accepted: the entry exists and holds a value of the
    /// data type of the new value.
    pub open spec fn accepts(self, index: u16, sub_index: u8, value: ObjectValue) -> bool {
        &&& self.entries.contains_key((index, sub_index))
        &&& self.entries[(index, sub_index)].value.tag() == value.tag()
    }

    /// Whether `after` is this dictionary once a write has been made. An
    /// accepted write changes the one entry as `ObjectView::written` says and
    /// no other; a write that is not accepted changes nothing.
    pub open spec fn written(
        self,
        after: DictionaryView<S>,
        index: u16,
        sub_index: u8,
        value: ObjectValue,
    ) -> bool {
        if self.accepts(index, sub_index, value) {
            &&& after.entries == self.entries.insert(
                (index, sub_index),
                after.entries[(index, sub_index)],
            )
            &&& self.entries[(index, sub_index)].written(after.entries[(index, sub_index)], value)
        } else {
            after == self
        }
    }
}

/// The place of an entry in the dictionary's table: index and sub-index in
/// one number.
spec fn key_of(index: u16, sub_index: u8) -> u32 {
    (index * 256 + sub_index) as u32
}

fn object_key(index: u16, sub_index: u8) -> (key: u32)
    ensures
        key == key_of(index, sub_index),
{
    (index as u32) * 256 + (sub_index as u32)
}

/// The object dictionary of a node, with subscribers of the type `S`.
pub struct ObjectDictionary<S: ObjectSubscriber> {
    dict: HashMap<u32, Object<S>>,
}

impl<S: ObjectSubscriber> View for ObjectDictionary<S> {
    type V = DictionaryView<S>;

    closed spec fn view(&self) -> DictionaryView<S> {
        DictionaryView {
            entries: Map::new(
                |address: (u16, u8)| self.dict@.contains_key(key_of(address.0, address.1)),
                |address: (u16, u8)| self.dict@[key_of(address.0, address.1)]@,
            ),
        }
    }
}

impl<S: ObjectSubscriber> ObjectDictionary<S> {
    /// A dictionary without entries.
    pub fn new() -> (od: ObjectDictionary<S>)
        ensures
            od@ == DictionaryView::<S>::empty(),
            od@.wf(),
    {
        let od = ObjectDictionary { dict: HashMap::new() };
        assert(od@.entries =~= Map::empty());
        od
    }

    /// Puts an entry under an address. An entry that was there is replaced,
    /// and its subscribers go with it.
    pub fn add(&mut self, index: u16, sub_index: u8, value: ObjectValue)
        ensures
            final(self)@ == old(self)@.added(index, sub_index, value),
            old(self)@.wf() ==> final(self)@.wf(),
    {
        let key = object_key(index, sub_index);
        self.dict.insert(key, Object::new(index, sub_index, value));
        assert(self@.entries =~= old(self)@.added(index, sub_index, value).entries);
    }

    /// Writes a value to an entry. The write is accepted where the entry
    /// exists and holds a value of the same data type: the value is then
    /// stored and every subscriber of the entry is told, in the order in which
    /// they subscribed. Any other write is dropped and nothing changes.
    pub fn write(&mut self, index: u16, sub_index: u8, value: ObjectValue)
        ensures
            old(self)@.written(final(self)@, index, sub_index, value),
            old(self)@.wf() ==> final(self)@.wf(),
    {
        let key = object_key(index, sub_index);
        if let Some(mut obj) = self.dict.remove(&key) {
            obj.write(value);
            self.dict.insert(key, obj);
            assert(self@.entries =~= old(self)@.entries.insert((index, sub_index), obj@));
            assert(!old(self)@.accepts(index, sub_index, value) ==> self@.entries =~= old(
                self,
            )@.entries);
        } else {
            assert(self@.entries =~= old(self)@.entries);
        }
    }

    /// The value kept at an address, or `None` where there is no entry.
    pub fn read(&self, index: u16, sub_index: u8) -> (value: Option<&ObjectValue>)
        ensures
            self@.value_at(index, sub_index) == match value {
                Some(v) => Some(*v),
                None => None,
            },
    {
        let key = object_key(index, sub_index);
        match self.dict.get(&key) {
            Some(obj) => Some(obj.read()),
            None => None,
        }
    }

    /// Adds a subscriber to an entry, behind those that are there. Where the
    /// entry does not exist the subscriber is dropped and nothing changes.
    pub fn subscribe(&mut self, index: u16, sub_index: u8, subscriber: S)
        ensures
            final(self)@ == old(self)@.subscribed(index, sub_index, subscriber),
            old(self)@.wf() ==> final(self)@.wf(),
    {
        let key = object_key(index, sub_index);
        if let Some(mut obj) = self.dict.remove(&key) {
            obj.subscribe(subscriber);
            self.dict.insert(key, obj);
            assert(self@.entries =~= old(self)@.entries.insert((index, sub_index), obj@));
        } else {
            assert(self@.entries =~= old(self)@.entries);
        }
    }
}

/// The empty dictionary is well formed, and adding an entry, subscribing and
/// writing keep a dictionary well formed: every dictionary that was made
/// empty and then only added to, subscribed to and written to is well formed.
pub proof fn lemma_operations_keep_wf<S: ObjectSubscriber>(
    before: DictionaryView<S>,
    after: DictionaryView<S>,
    index: u16,
    sub_index: u8,
    value: ObjectValue,
    subscriber: S,
)
    requires
        before.wf(),
    ensures
        DictionaryView::<S>::empty().wf(),
        before.added(index, sub_index, value).wf(),
        before.subscribed(index, sub_index, subscriber).wf(),
        before.written(after, index, sub_index, value) ==> after.wf(),
{
}

/// The data type of an entry is fixed when the entry is added: a write,
/// accepted or not, leaves the set of addresses and the data type of every
/// entry as they were, and so does a subscription.
pub proof fn lemma_data_types_stay<S: ObjectSubscriber>(
    before: DictionaryView<S>,
    after: DictionaryView<S>,
    index: u16,
    sub_index: u8,
    value: ObjectValue,
    subscriber: S,
)
    requires
        before.written(after, index, sub_index, value) || after == before.subscribed(
            index,
            sub_index,
            subscriber,
        ),
    ensures
        after.entries.dom() == before.entries.dom(),
        forall|address: (u16, u8)| #[trigger]
            before.entries.contains_key(address) ==> after.entries[address].value.tag()
                == before.entries[address].value.tag(),
{
    assert(after.entries.dom() =~= before.entries.dom());
}

/// What a read finds after each operation. After an entry was added it finds
/// the value that was added. After a write it finds the new value where the
/// write was accepted and what was there before where it was not. A
/// subscription changes no value. No operation touches the value at another
/// address.
pub proof fn lemma_read_after<S: ObjectSubscriber>(
    before: DictionaryView<S>,
    after: DictionaryView<S>,
    index: u16,
    sub_index: u8,
    value: ObjectValue,
    subscriber: S,
    other: (u16, u8),
)
    requires
        other != (index, sub_index),
    ensures
        before.added(index, sub_index, value).value_at(index, sub_index) == Some(value),
        before.added(index, sub_index, value).value_at(other.0, other.1) == before.value_at(
            other.0,
            other.1,
        ),
        before.written(after, index, sub_index, value) ==> after.value_at(index, sub_index) == (
        if before.accepts(index, sub_index, value) {
            Some(value)
        } else {
            before.value_at(index, sub_index)
        }) && after.value_at(other.0, other.1) == before.value_at(other.0, other.1),
        before.subscribed(index, sub_index, subscriber).value_at(index, sub_index)
            == before.value_at(index, sub_index),
        before.subscribed(index, sub_index, subscriber).value_at(other.0, other.1)
            == before.value_at(other.0, other.1),
{
}

/// In a well-formed dictionary every accepted write tells each subscriber of
/// the entry exactly once, with the address that was written to and the new
/// value; subscribers of other entries are not told, and a write that is not
/// accepted tells nobody.
pub proof fn lemma_write_tells_subscribers<S: ObjectSubscriber>(
    before: DictionaryView<S>,
    after: DictionaryView<S>,
    index: u16,
    sub_index: u8,
    value: ObjectValue,
)
    requires
        before.wf(),
        before.written(after, index, sub_index, value),
    ensures
        before.accepts(index, sub_index, value) ==> {
            &&& after.entries[(index, sub_index)].subscribers.len() == before.entries[(
                index,
                sub_index,
            )].subscribers.len()
            &&& forall|i: int|
                0 <= i < before.entries[(index, sub_index)].subscribers.len()
                    ==> #[trigger] before.entries[(index, sub_index)].subscribers[i].notified(
                    &after.entries[(index, sub_index)].subscribers[i],
                    index,
                    sub_index,
                    &value,
                )
        },
        !before.accepts(index, sub_index, value) ==> after.entries[(index, sub_index)].subscribers
            == before.entries[(index, sub_index)].subscribers,
        forall|other: (u16, u8)|
            other != (index, sub_index) ==> (#[trigger] after.entries[other]).subscribers
                == before.entries[other].subscribers,
{
}

} // verus!
