//! Stamped storage of one value per property kind.

use vstd::prelude::*;
use crate::property::PropertyKind;
use crate::stamp::{supersedes_spec, WriteOutcome, WriteStamp};
use crate::value::{opt_view, PropertyValue, PropertyValueView, SonosProperty};
use crate::viewed::ViewEq;

verus! {

/// The slot a property kind is kept in.
pub open spec fn kind_index(k: PropertyKind) -> int {
    match k {
        PropertyKind::Volume => 0,
        PropertyKind::Mute => 1,
        PropertyKind::Bass => 2,
        PropertyKind::Treble => 3,
        PropertyKind::Loudness => 4,
        PropertyKind::PlaybackState => 5,
        PropertyKind::Position => 6,
        PropertyKind::CurrentTrack => 7,
        PropertyKind::GroupMembership => 8,
        PropertyKind::Topology => 9,
    }
}

/// The slot a property kind is kept in (executable).
pub fn slot_of(k: PropertyKind) -> (r: usize)
    ensures
        r == kind_index(k),
        r < 10,
{
    match k {
        PropertyKind::Volume => 0,
        PropertyKind::Mute => 1,
        PropertyKind::Bass => 2,
        PropertyKind::Treble => 3,
        PropertyKind::Loudness => 4,
        PropertyKind::PlaybackState => 5,
        PropertyKind::Position => 6,
        PropertyKind::CurrentTrack => 7,
        PropertyKind::GroupMembership => 8,
        PropertyKind::Topology => 9,
    }
}

/// What a bag holds for one kind: the value and the stamp of its observation.
pub type BagEntryView = (PropertyValueView, WriteStamp);

/// The view of a bag after writing `value` stamped `stamp`, and the outcome.
///
/// A write older than the stored observation is rejected and changes nothing.
/// Otherwise the stamp is recorded, and the value replaced if it differs.
pub open spec fn bag_write(
    m: Map<PropertyKind, BagEntryView>,
    value: PropertyValueView,
    stamp: WriteStamp,
) -> (Map<PropertyKind, BagEntryView>, WriteOutcome) {
    let k = value.kind();
    if m.contains_key(k) && !supersedes_spec(stamp, m[k].1) {
        (m, WriteOutcome::Stale)
    } else if m.contains_key(k) && m[k].0 == value {
        (m.insert(k, (value, stamp)), WriteOutcome::Unchanged)
    } else {
        (m.insert(k, (value, stamp)), WriteOutcome::Changed)
    }
}

/// The kind of a stored entry.
pub open spec fn entry_kind(e: (PropertyValue, WriteStamp)) -> PropertyKind {
    e.0@.kind()
}

/// Stamped storage of at most one value per property kind.
#[derive(Debug)]
pub struct PropertyBag {
    slots: Vec<Option<(PropertyValue, WriteStamp)>>,
}

impl View for PropertyBag {
    type V = Map<PropertyKind, BagEntryView>;

    closed spec fn view(&self) -> Map<PropertyKind, BagEntryView> {
        Map::new(
            |k: PropertyKind| self.slots@[kind_index(k)] is Some,
            |k: PropertyKind| {
                let e = self.slots@[kind_index(k)]->0;
                (e.0@, e.1)
            },
        )
    }
}

impl PropertyBag {
    /// Every slot holds a value of its own kind.
    #[verifier::type_invariant]
    closed spec fn wf(&self) -> bool {
        &&& self.slots@.len() == 10
        &&& forall|i: int|
            0 <= i < 10 && #[trigger] self.slots@[i] is Some ==> kind_index(
                entry_kind(self.slots@[i]->0),
            ) == i
    }

    /// An empty bag.
    pub fn new() -> (r: PropertyBag)
        ensures
            r@ == Map::<PropertyKind, BagEntryView>::empty(),
    {
        let mut slots: Vec<Option<(PropertyValue, WriteStamp)>> = Vec::new();
        let mut i: usize = 0;
        while i < 10
            invariant
                i <= 10,
                slots@.len() == i,
                forall|j: int| 0 <= j < i ==> slots@[j] is None,
            decreases 10 - i,
        {
            slots.push(None);
            i = i + 1;
        }
        let r = PropertyBag { slots };
        assert(r@ =~= Map::<PropertyKind, BagEntryView>::empty());
        r
    }

    /// Whether a value of kind `k` is stored.
    pub fn contains(&self, k: PropertyKind) -> (r: bool)
        ensures
            r == self@.contains_key(k),
    {
        proof {
            use_type_invariant(&*self);
        }
        let i = slot_of(k);
        self.slots[i].is_some()
    }

    /// The stored value of kind `k`, if any.
    pub fn get_value(&self, k: PropertyKind) -> (r: Option<PropertyValue>)
        ensures
            r is Some == self@.contains_key(k),
            r matches Some(v) ==> v@ == self@[k].0,
    {
        proof {
            use_type_invariant(&*self);
        }
        let i = slot_of(k);
        match &self.slots[i] {
            Some(e) => Some(e.0.view_clone()),
            None => None,
        }
    }

    /// The stamp of the stored value of kind `k`, if any.
    pub fn get_stamp(&self, k: PropertyKind) -> (r: Option<WriteStamp>)
        ensures
            r is Some == self@.contains_key(k),
            r matches Some(s) ==> s == self@[k].1,
    {
        proof {
            use_type_invariant(&*self);
        }
        let i = slot_of(k);
        match &self.slots[i] {
            Some(e) => Some(e.1),
            None => None,
        }
    }

    /// The stored value of property `P`, if any.
    pub fn get<P: SonosProperty>(&self) -> (r: Option<P>)
        ensures
            opt_view(r) == (if self@.contains_key(P::kind_spec()) {
                P::unwrap_spec(self@[P::kind_spec()].0)
            } else {
                None
            }),
            self@.contains_key(P::kind_spec()) ==> r is Some,
    {
        proof {
            use_type_invariant(&*self);
        }
        let k = P::kind();
        match self.get_value(k) {
            Some(v) => {
                proof {
                    P::lemma_unwrap(v@);
                    assert(v@.kind() == k);
                }
                P::from_value(&v)
            },
            None => None,
        }
    }

    /// Writes `value` unless a newer observation is already stored.
    pub fn set_value(&mut self, value: PropertyValue, stamp: WriteStamp) -> (r: WriteOutcome)
        ensures
            (final(self)@, r) == bag_write(old(self)@, value@, stamp),
    {
        proof {
            use_type_invariant(&*self);
        }
        let k = value.kind();
        let i = slot_of(k);
        let ghost m = self@;
        let outcome;
        match &self.slots[i] {
            Some(e) => {
                if !stamp.supersedes(&e.1) {
                    return WriteOutcome::Stale;
                }
                if e.0.view_eq(&value) {
                    outcome = WriteOutcome::Unchanged;
                } else {
                    outcome = WriteOutcome::Changed;
                }
            },
            None => {
                outcome = WriteOutcome::Changed;
            },
        }
        let ghost vv = value@;
        let mut taken = PropertyBag::new();
        std::mem::swap(&mut taken, self);
        proof {
            use_type_invariant(&taken);
        }
        let mut slots = taken.slots;
        slots.set(i, Some((value, stamp)));
        *self = PropertyBag { slots };
        proof {
            assert(self@ =~= bag_write(m, vv, stamp).0);
        }
        outcome
    }

    /// Writes a value of property `P` unless a newer observation is stored.
    pub fn set<P: SonosProperty>(&mut self, value: P, stamp: WriteStamp) -> (r: WriteOutcome)
        ensures
            (final(self)@, r) == bag_write(old(self)@, P::wrap_spec(value@), stamp),
    {
        let v = value.to_value();
        self.set_value(v, stamp)
    }

    /// Removes every value.
    pub fn clear(&mut self)
        ensures
            final(self)@ == Map::<PropertyKind, BagEntryView>::empty(),
    {
        *self = PropertyBag::new();
    }

    /// Whether the bag holds nothing.
    pub fn is_empty(&self) -> (r: bool)
        ensures
            r == (self@ == Map::<PropertyKind, BagEntryView>::empty()),
    {
        proof {
            use_type_invariant(&*self);
        }
        let mut i: usize = 0;
        while i < 10
            invariant
                i <= 10,
                self.slots@.len() == 10,
                forall|j: int|
                    0 <= j < 10 && #[trigger] self.slots@[j] is Some ==> kind_index(
                        entry_kind(self.slots@[j]->0),
                    ) == j,
                forall|j: int| 0 <= j < i ==> self.slots@[j] is None,
            decreases 10 - i,
        {
            if self.slots[i].is_some() {
                proof {
                    let k = entry_kind(self.slots@[i as int]->0);
                    assert(self@.contains_key(k));
                    assert(!Map::<PropertyKind, BagEntryView>::empty().contains_key(k));
                }
                return false;
            }
            i = i + 1;
        }
        proof {
            assert forall|k: PropertyKind| !self@.contains_key(k) by {
                assert(0 <= kind_index(k) < 10);
            }
            assert(self@ =~= Map::<PropertyKind, BagEntryView>::empty());
        }
        true
    }
}

/// After a write that was not stale, the bag holds the written value with the
/// write's stamp; a stale write leaves the bag exactly as it was.
pub proof fn lemma_write_then_read(
    m: Map<PropertyKind, BagEntryView>,
    value: PropertyValueView,
    stamp: WriteStamp,
)
    ensures
        bag_write(m, value, stamp).1 != WriteOutcome::Stale ==> bag_write(m, value, stamp).0[value.kind()]
            == (value, stamp),
        bag_write(m, value, stamp).1 == WriteOutcome::Stale ==> bag_write(m, value, stamp).0 == m,
        bag_write(m, value, stamp).1 != WriteOutcome::Stale ==> bag_write(m, value, stamp).0.remove(
            value.kind(),
        ) == m.remove(value.kind()),
{
    let k = value.kind();
    if bag_write(m, value, stamp).1 != WriteOutcome::Stale {
        assert(bag_write(m, value, stamp).0.remove(k) =~= m.remove(k));
    }
}

/// A write is rejected exactly when the stored observation of that kind is
/// strictly newer.
pub proof fn lemma_stale_iff_older(
    m: Map<PropertyKind, BagEntryView>,
    value: PropertyValueView,
    stamp: WriteStamp,
)
    ensures
        (bag_write(m, value, stamp).1 == WriteOutcome::Stale) <==> (m.contains_key(value.kind())
            && !supersedes_spec(stamp, m[value.kind()].1)),
{
}

/// Writing the value already stored, at a newer stamp, reports `Unchanged`;
/// writing any other value reports `Changed`.
pub proof fn lemma_changed_iff_different(
    m: Map<PropertyKind, BagEntryView>,
    value: PropertyValueView,
    stamp: WriteStamp,
)
    requires
        !m.contains_key(value.kind()) || supersedes_spec(stamp, m[value.kind()].1),
    ensures
        (bag_write(m, value, stamp).1 == WriteOutcome::Changed) <==> !(m.contains_key(value.kind())
            && m[value.kind()].0 == value),
{
}

} // verus!
