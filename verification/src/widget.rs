//! Per-frame change flags for widgets: which watched properties changed since
//! a widget last looked.

use vstd::prelude::*;
use crate::change_stream::{ChangeEvent, ChangeType, ChangeTypeView};
use crate::ids::SpeakerId;
use crate::property::PropertyKind;
use crate::table::Table;
use crate::viewed::{seq_view, ViewEq};

verus! {

/// A watched property of one speaker.
#[derive(Debug)]
pub struct WidgetKey {
    pub speaker_id: SpeakerId,
    pub kind: PropertyKind,
}

impl View for WidgetKey {
    type V = (Seq<char>, PropertyKind);

    open spec fn view(&self) -> (Seq<char>, PropertyKind) {
        (self.speaker_id@, self.kind)
    }
}

impl ViewEq for WidgetKey {
    fn view_eq(&self, other: &Self) -> (r: bool) {
        self.speaker_id.view_eq(&other.speaker_id) && self.kind == other.kind
    }

    fn view_clone(&self) -> (r: Self) {
        WidgetKey { speaker_id: self.speaker_id.view_clone(), kind: self.kind }
    }
}

/// The abstract state of [`WidgetFlags`].
pub struct WidgetFlagsView {
    /// The properties with a live watcher.
    pub watched: Set<(Seq<char>, PropertyKind)>,
    /// The change flag of each property a widget has looked at.
    pub flags: Map<(Seq<char>, PropertyKind), bool>,
}

/// The flags after one change: a speaker property change marks every flag
/// of that speaker, any other change marks every flag.
pub open spec fn mark_spec(flags: Map<(Seq<char>, PropertyKind), bool>, c: ChangeTypeView) -> Map<
    (Seq<char>, PropertyKind),
    bool,
> {
    match c {
        ChangeTypeView::DeviceProperty { speaker_id, .. } => marked(flags, Some(speaker_id)),
        _ => marked(flags, None),
    }
}

/// The view of an optional speaker id.
pub open spec fn opt_id(o: Option<SpeakerId>) -> Option<Seq<char>> {
    match o {
        Some(id) => Some(id@),
        None => None,
    }
}

/// `flags` with the flags of speaker `only` set, or all of them when no
/// speaker is given.
pub open spec fn marked(flags: Map<(Seq<char>, PropertyKind), bool>, only: Option<Seq<char>>) -> Map<
    (Seq<char>, PropertyKind),
    bool,
> {
    Map::new(
        |k: (Seq<char>, PropertyKind)| flags.contains_key(k),
        |k: (Seq<char>, PropertyKind)|
            match only {
                Some(id) => if k.0 == id {
                    true
                } else {
                    flags[k]
                },
                None => true,
            },
    )
}

/// The flags after the changes `cs`, in order.
pub open spec fn mark_all_spec(flags: Map<(Seq<char>, PropertyKind), bool>, cs: Seq<ChangeTypeView>) -> Map<
    (Seq<char>, PropertyKind),
    bool,
>
    decreases cs.len(),
{
    if cs.len() == 0 {
        flags
    } else {
        mark_spec(mark_all_spec(flags, cs.drop_last()), cs.last())
    }
}

/// Watched properties and their change flags.
#[derive(Debug)]
pub struct WidgetFlags {
    watched: Table<WidgetKey, bool>,
    flags: Table<WidgetKey, bool>,
}

impl View for WidgetFlags {
    type V = WidgetFlagsView;

    closed spec fn view(&self) -> WidgetFlagsView {
        WidgetFlagsView { watched: self.watched@.dom(), flags: self.flags@ }
    }
}

impl WidgetFlags {
    /// The tables are well formed.
    pub closed spec fn wf(&self) -> bool {
        self.watched.wf() && self.flags.wf()
    }

    /// Nothing watched, no flags.
    pub fn new() -> (r: WidgetFlags)
        ensures
            r.wf(),
            r@.watched == Set::<(Seq<char>, PropertyKind)>::empty(),
            r@.flags == Map::<(Seq<char>, PropertyKind), bool>::empty(),
    {
        let r = WidgetFlags { watched: Table::new(), flags: Table::new() };
        assert(r@.watched =~= Set::<(Seq<char>, PropertyKind)>::empty());
        r
    }

    /// Whether a watcher must be made for a speaker property before a widget
    /// can read it.
    pub fn needs_watcher(&self, speaker_id: &SpeakerId, kind: PropertyKind) -> (r: bool)
        requires
            self.wf(),
        ensures
            r == !self@.watched.contains((speaker_id@, kind)),
    {
        !self.watched.contains_key(&WidgetKey { speaker_id: speaker_id.view_clone(), kind })
    }

    /// Records that a watcher now exists for a speaker property.
    pub fn add_watcher(&mut self, speaker_id: &SpeakerId, kind: PropertyKind)
        requires
            old(self).wf(),
        ensures
            final(self).wf(),
            final(self)@.watched == old(self)@.watched.insert((speaker_id@, kind)),
            final(self)@.flags == old(self)@.flags,
    {
        self.watched.insert(WidgetKey { speaker_id: speaker_id.view_clone(), kind }, true);
    }

    /// Whether a speaker property changed since a widget last asked (never,
    /// on the first ask); the flag is cleared.
    pub fn take_changed(&mut self, speaker_id: &SpeakerId, kind: PropertyKind) -> (changed: bool)
        requires
            old(self).wf(),
        ensures
            final(self).wf(),
            changed == (old(self)@.flags.contains_key((speaker_id@, kind)) && old(self)@.flags[(
                speaker_id@,
                kind,
            )]),
            final(self)@.flags == old(self)@.flags.insert((speaker_id@, kind), false),
            final(self)@.watched == old(self)@.watched,
    {
        let key = WidgetKey { speaker_id: speaker_id.view_clone(), kind };
        let changed = match self.flags.get_ref(&key) {
            Some(f) => *f,
            None => false,
        };
        self.flags.insert(key, false);
        changed
    }

    /// Marks the flags the changes `changes` touch, in order.
    pub fn process_changes(&mut self, changes: &Vec<ChangeEvent>)
        requires
            old(self).wf(),
        ensures
            final(self).wf(),
            final(self)@.watched == old(self)@.watched,
            final(self)@.flags == mark_all_spec(
                old(self)@.flags,
                changes@.map_values(|c: ChangeEvent| c.change_type@),
            ),
    {
        let ghost cs = changes@.map_values(|c: ChangeEvent| c.change_type@);
        let mut i: usize = 0;
        assert(cs.take(0) =~= Seq::<ChangeTypeView>::empty());
        while i < changes.len()
            invariant
                self.wf(),
                i <= changes.len(),
                cs == changes@.map_values(|c: ChangeEvent| c.change_type@),
                self@.watched == old(self)@.watched,
                self@.flags == mark_all_spec(old(self)@.flags, cs.take(i as int)),
            decreases changes.len() - i,
        {
            let only = match &changes[i].change_type {
                ChangeType::DeviceProperty { speaker_id, .. } => Some(speaker_id.view_clone()),
                _ => None,
            };
            self.mark(&only);
            proof {
                assert(cs.take(i + 1).drop_last() =~= cs.take(i as int));
                assert(cs.take(i + 1).last() == changes@[i as int].change_type@);
            }
            i = i + 1;
        }
        assert(cs.take(cs.len() as int) =~= cs);
    }

    /// Sets the flags of one speaker, or of every speaker.
    fn mark(&mut self, only: &Option<SpeakerId>)
        requires
            old(self).wf(),
        ensures
            final(self).wf(),
            final(self)@.watched == old(self)@.watched,
            final(self)@.flags == marked(old(self)@.flags, opt_id(*only)),
    {
        let keys = self.flags.keys();
        proof {
            self.flags.lemma_key_seq();
        }
        let ghost ks = self.flags.key_seq();
        let ghost m0 = self.flags@;
        let mut i: usize = 0;
        while i < keys.len()
            invariant
                self.wf(),
                i <= keys.len(),
                seq_view(keys@) == ks,
                ks.to_set() == m0.dom(),
                ks.no_duplicates(),
                self@.watched == old(self)@.watched,
                self@.flags.dom() == m0.dom(),
                forall|k: (Seq<char>, PropertyKind)| #[trigger] self@.flags.contains_key(k) ==> (if ks.take(
                    i as int,
                ).contains(k) {
                    self@.flags[k] == marked(m0, opt_id(*only))[k]
                } else {
                    self@.flags[k] == m0[k]
                }),
            decreases keys.len() - i,
        {
            let key = keys[i].view_clone();
            let ghost kv = ks[i as int];
            let ghost before = self@.flags;
            let set_it = match only {
                Some(id) => key.speaker_id.view_eq(id),
                None => true,
            };
            if set_it {
                self.flags.insert(key, true);
            }
            proof {
                assert(ks.to_set().contains(kv));
                let t1 = ks.take(i + 1);
                let t0 = ks.take(i as int);
                assert(t1 =~= t0.push(kv));
                assert forall|k: (Seq<char>, PropertyKind)| t1.contains(k) <==> (t0.contains(k) || k == kv) by {
                    if t1.contains(k) {
                        let j = choose|j: int| 0 <= j < t1.len() && #[trigger] t1[j] == k;
                        if j < i {
                            assert(t0[j] == k);
                        }
                    }
                    if t0.contains(k) {
                        let j = choose|j: int| 0 <= j < t0.len() && #[trigger] t0[j] == k;
                        assert(t1[j] == k);
                    }
                    if k == kv {
                        assert(t1[i as int] == k);
                    }
                }
                assert(!t0.contains(kv)) by {
                    if ks.take(i as int).contains(kv) {
                        let t0 = ks.take(i as int);
                        let j = choose|j: int| 0 <= j < t0.len() && #[trigger] t0[j] == kv;
                        assert(ks[j] == ks[i as int]);
                    }
                }
                assert(self@.flags.dom() =~= m0.dom());
                assert(key@ == kv);
                assert forall|k: (Seq<char>, PropertyKind)| #[trigger] self@.flags.contains_key(k) implies (if t1.contains(
                    k,
                ) {
                    self@.flags[k] == marked(m0, opt_id(*only))[k]
                } else {
                    self@.flags[k] == m0[k]
                }) by {
                    if k == kv {
                        assert(!t0.contains(kv));
                        assert(before.contains_key(kv));
                        assert(before[kv] == m0[kv]);
                        assert(t1.contains(kv));
                        assert(marked(m0, opt_id(*only)).contains_key(kv));
                        assert(kv.0 == key.speaker_id@);
                        match only {
                            Some(id) => {
                                assert(set_it == (key.speaker_id@ == id@));
                            },
                            None => {
                                assert(set_it);
                            },
                        }
                        if set_it {
                            assert(self@.flags[kv] == true);
                        } else {
                            assert(self@.flags[kv] == before[kv]);
                            assert(only is Some);
                        }
                    } else {
                        assert(self@.flags[k] == before[k]);
                        assert(before.contains_key(k));
                        assert(t1.contains(k) == t0.contains(k));
                    }
                }
            }
            i = i + 1;
        }
        proof {
            assert(ks.take(ks.len() as int) =~= ks);
            assert(self@.flags =~= marked(m0, opt_id(*only)));
        }
    }

    /// Whether any flag is set.
    pub fn has_any_changes(&self) -> (r: bool)
        requires
            self.wf(),
        ensures
            r == exists|k: (Seq<char>, PropertyKind)| #[trigger] self@.flags.contains_key(k) && self@.flags[k],
    {
        let keys = self.flags.keys();
        proof {
            self.flags.lemma_key_seq();
        }
        let ghost ks = self.flags.key_seq();
        let mut i: usize = 0;
        while i < keys.len()
            invariant
                self.wf(),
                i <= keys.len(),
                seq_view(keys@) == ks,
                ks.to_set() == self@.flags.dom(),
                forall|j: int| 0 <= j < i ==> !self@.flags[#[trigger] ks[j]],
            decreases keys.len() - i,
        {
            assert(ks.to_set().contains(ks[i as int]));
            let f = match self.flags.get_ref(&keys[i]) {
                Some(f) => *f,
                None => false,
            };
            if f {
                return true;
            }
            i = i + 1;
        }
        proof {
            assert forall|k: (Seq<char>, PropertyKind)| #[trigger] self@.flags.contains_key(k) implies !self@.flags[k] by {
                assert(ks.to_set().contains(k));
                let j = choose|j: int| 0 <= j < ks.len() && ks[j] == k;
            }
        }
        false
    }

    /// The number of watchers kept.
    pub fn cached_watcher_count(&self) -> (r: usize)
        requires
            self.wf(),
        ensures
            r == self@.watched.len(),
    {
        self.watched.len()
    }

    /// Clears every flag.
    pub fn clear_change_flags(&mut self)
        requires
            old(self).wf(),
        ensures
            final(self).wf(),
            final(self)@.watched == old(self)@.watched,
            final(self)@.flags == Map::new(
                |k: (Seq<char>, PropertyKind)| old(self)@.flags.contains_key(k),
                |k: (Seq<char>, PropertyKind)| false,
            ),
    {
        let keys = self.flags.keys();
        proof {
            self.flags.lemma_key_seq();
        }
        let ghost ks = self.flags.key_seq();
        let ghost m0 = self.flags@;
        let mut i: usize = 0;
        while i < keys.len()
            invariant
                self.wf(),
                i <= keys.len(),
                seq_view(keys@) == ks,
                ks.to_set() == m0.dom(),
                self@.watched == old(self)@.watched,
                m0 == old(self)@.flags,
                self@.flags.dom() == m0.dom(),
                forall|j: int| 0 <= j < i ==> !self@.flags[#[trigger] ks[j]],
            decreases keys.len() - i,
        {
            let key = keys[i].view_clone();
            assert(ks.to_set().contains(ks[i as int]));
            self.flags.insert(key, false);
            assert(self@.flags.dom() =~= m0.dom());
            i = i + 1;
        }
        proof {
            assert forall|k: (Seq<char>, PropertyKind)| #[trigger] self@.flags.contains_key(k) implies !self@.flags[k] by {
                assert(ks.to_set().contains(k));
                let j = choose|j: int| 0 <= j < ks.len() && ks[j] == k;
            }
            assert(self@.flags =~= Map::new(
                |k: (Seq<char>, PropertyKind)| old(self)@.flags.contains_key(k),
                |k: (Seq<char>, PropertyKind)| false,
            ));
        }
    }
}

} // verus!
