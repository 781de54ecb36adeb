//! USB selector component: the tree of connected devices with the expansion
//! state of each element.

pub mod laws;
pub mod rows;
pub mod view;

mod show;

pub use show::ShowAction;

use vstd::prelude::*;

use std::sync::Arc;

use seqid::impls::SeqHashMap;

use crate::usb::device::USBDevice;

use view::USBDeviceView;

verus! {

/// The map of connected devices, as kept by the USB service: a
/// `SeqHashMap` from device keys to device descriptions, whose keys the map
/// hands out itself in sequence.
#[verifier::external_body]
pub struct ConnectedDevices {
    map: SeqHashMap<usize, Arc<USBDevice>>,
}

/// The devices held by a map of connected devices, by key.
pub uninterp spec fn connected_devices(m: ConnectedDevices) -> Map<usize, Arc<USBDevice>>;

/// A new, empty map of connected devices (`SeqHashMap::new`). There is none
/// when the maps created so far have used every map identifier.
#[verifier::external_body]
fn connected_new() -> (m: Option<ConnectedDevices>)
    ensures
        match m {
            Some(c) => connected_devices(c) == Map::<usize, Arc<USBDevice>>::empty(),
            None => true,
        },
{
    SeqHashMap::new().map(|map| ConnectedDevices { map })
}

/// Stores a device under the next key of the map (`SeqHashMap::insert`)
/// and returns that key, a key the map did not hold; returns `None` and
/// stores nothing when the map's keys are used up. Which key comes next is
/// the map's own sequence, which the contents do not tell.
#[verifier::external_body]
fn connected_insert(m: &mut ConnectedDevices, device: Arc<USBDevice>) -> (k: Option<usize>)
    ensures
        match k {
            Some(key) => {
                &&& !connected_devices(*old(m)).dom().contains(key)
                &&& connected_devices(*final(m)) == connected_devices(*old(m)).insert(key, device)
            },
            None => connected_devices(*final(m)) == connected_devices(*old(m)),
        },
{
    m.map.insert(device)
}

impl ConnectedDevices {
    /// Creates an empty map of connected devices, if a map can still be
    /// created.
    pub fn new() -> (m: Option<Self>)
        ensures
            match m {
                Some(c) => connected_devices(c) == Map::<usize, Arc<USBDevice>>::empty(),
                None => true,
            },
    {
        connected_new()
    }

    /// Stores a device under a fresh key and returns the key, or `None`
    /// with the map unchanged when its keys are used up.
    pub fn insert(&mut self, device: Arc<USBDevice>) -> (k: Option<usize>)
        ensures
            match k {
                Some(key) => {
                    &&& !connected_devices(*old(self)).dom().contains(key)
                    &&& connected_devices(*final(self)) == connected_devices(*old(self)).insert(key, device)
                },
                None => connected_devices(*final(self)) == connected_devices(*old(self)),
            },
    {
        connected_insert(self, device)
    }
}

/// The keys of a map of connected devices (`SeqHashMap::keys`, collected):
/// each key of the map once, in the map's unspecified order.
#[verifier::external_body]
fn connected_keys(m: &ConnectedDevices) -> (keys: Vec<usize>)
    ensures
        keys@.to_set() == connected_devices(*m).dom(),
        keys@.no_duplicates(),
{
    m.map.keys().copied().collect()
}

/// The device stored under `key` in a map of connected devices
/// (`SeqHashMap::get`, with the `Arc` cloned), or `None` if there is none.
#[verifier::external_body]
fn connected_get(m: &ConnectedDevices, key: usize) -> (d: Option<Arc<USBDevice>>)
    ensures
        match d {
            Some(dev) => connected_devices(*m).dom().contains(key) && dev == connected_devices(*m)[key],
            None => !connected_devices(*m).dom().contains(key),
        },
{
    m.map.get(&key).cloned()
}

/// The views of a tree hold distinct device keys.
pub open spec fn distinct_keys(tree: Seq<USBDeviceView>) -> bool {
    forall|i: int, j: int|
        0 <= i < tree.len() && 0 <= j < tree.len() && i != j ==> #[trigger] tree[i].key
            != #[trigger] tree[j].key
}

/// Some view of the tree has the given key.
pub open spec fn has_key(tree: Seq<USBDeviceView>, key: usize) -> bool {
    exists|i: int| 0 <= i < tree.len() && #[trigger] tree[i].key == key
}

/// `i` is the first position of the tree whose view has the given key.
pub open spec fn first_with_key(tree: Seq<USBDeviceView>, key: usize, i: int) -> bool {
    &&& 0 <= i < tree.len()
    &&& tree[i].key == key
    &&& forall|j: int| 0 <= j < i ==> #[trigger] tree[j].key != key
}

/// `post` is the tree `pre` rebuilt against the connected devices `m`: it
/// holds a view for exactly the connected keys; the views of `pre` whose
/// device is still connected come first, unchanged and in their order; the
/// rest are fresh views of devices that `pre` did not show.
pub open spec fn tree_rebuilt(
    pre: Seq<USBDeviceView>,
    m: Map<usize, Arc<USBDevice>>,
    post: Seq<USBDeviceView>,
) -> bool {
    let kept = pre.filter(|v: USBDeviceView| m.dom().contains(v.key));
    &&& forall|k: usize| has_key(post, k) <==> m.dom().contains(k)
    &&& kept.len() <= post.len()
    &&& post.take(kept.len() as int) == kept
    &&& forall|i: int|
        kept.len() <= i < post.len() ==> {
            &&& !has_key(pre, (#[trigger] post[i]).key)
            &&& post[i].created_from(*m[post[i].key], post[i].key)
        }
}

/// `post` is the tree `pre` after the show action `a`: the first view with
/// the action's key processes it, every other view is unchanged.
pub open spec fn tree_shown(pre: Seq<USBDeviceView>, a: ShowAction, post: Seq<USBDeviceView>) -> bool {
    &&& post.len() == pre.len()
    &&& forall|i: int|
        0 <= i < pre.len() ==> if first_with_key(pre, a.key, i) {
            (#[trigger] pre[i]).spec_shown(a, post[i])
        } else {
            post[i] == pre[i]
        }
}

/// The selector of a USB device and endpoint, with its configuration view.
pub struct USBSelector<C> {
    /// Configuration of this USB selector.
    pub configuration: C,
    /// Tree of USB devices.
    pub tree: Vec<USBDeviceView>,
}

impl<C> USBSelector<C> {
    /// Well-formedness: no device appears twice in the tree.
    pub open spec fn wf(&self) -> bool {
        distinct_keys(self.tree@)
    }

    /// Creates a new `USBSelector` with an empty tree.
    pub fn new(configuration: C) -> (s: Self)
        ensures
            s.configuration == configuration,
            s.tree@.len() == 0,
            s.wf(),
    {
        Self { configuration, tree: Vec::new() }
    }

    /// Returns true if some view of the tree has the given key.
    fn tree_has(&self, key: usize) -> (b: bool)
        ensures
            b == has_key(self.tree@, key),
    {
        let mut i: usize = 0;
        while i < self.tree.len()
            invariant
                i <= self.tree@.len(),
                forall|j: int| 0 <= j < i ==> #[trigger] self.tree@[j].key != key,
            decreases self.tree@.len() - i,
        {
            if self.tree[i].key() == key {
                return true;
            }
            i = i + 1;
        }
        false
    }

    /// Rebuilds the USB tree against the currently connected devices: the
    /// views of devices that are no longer connected are dropped, the others
    /// are kept with their state and order, and a collapsed view is appended
    /// for each newly connected device.
    pub fn rebuild(&mut self, connected: &ConnectedDevices)
        requires
            old(self).wf(),
        ensures
            final(self).wf(),
            final(self).configuration == old(self).configuration,
            tree_rebuilt(old(self).tree@, connected_devices(*connected), final(self).tree@),
    {
        let ghost dom = connected_devices(*connected).dom();
        let ghost p = |v: USBDeviceView| dom.contains(v.key);
        let ghost s0 = self.tree@;
        let keys = connected_keys(connected);
        // Remove all old devices.
        let mut i: usize = 0;
        let ghost mut j: int = 0;
        while i < self.tree.len()
            invariant
                keys@.to_set() == dom,
                0 <= j <= s0.len(),
                i <= self.tree@.len(),
                self.tree@.take(i as int) == s0.take(j).filter(p),
                self.tree@.skip(i as int) == s0.skip(j),
                self.tree@.len() - i == s0.len() - j,
                distinct_keys(self.tree@),
                self.configuration == old(self).configuration,
                s0 == old(self).tree@,
                p == (|v: USBDeviceView| dom.contains(v.key)),
            decreases self.tree@.len() - i,
        {
            let ghost t = self.tree@;
            assert(t.skip(i as int).len() == s0.skip(j).len());
            assert(t[i as int] == s0[j]) by {
                assert(t.skip(i as int)[0] == s0.skip(j)[0]);
            }
            assert(s0.take(j + 1).drop_last() =~= s0.take(j));
            assert(s0.take(j + 1).last() == s0[j]);
            reveal_with_fuel(Seq::filter, 1);
            let k = self.tree[i].key();
            let mut found = false;
            let mut t2: usize = 0;
            while t2 < keys.len()
                invariant
                    t2 <= keys@.len(),
                    found == (exists|u: int| 0 <= u < t2 && keys@[u] == k),
                decreases keys@.len() - t2,
            {
                if keys[t2] == k {
                    found = true;
                }
                t2 = t2 + 1;
            }
            assert(found == keys@.contains(k));
            assert(keys@.contains(k) == keys@.to_set().contains(k));
            if !found {
                self.tree.remove(i);
                assert(self.tree@.take(i as int) =~= t.take(i as int));
                assert forall|x: int| 0 <= x < self.tree@.skip(i as int).len() implies #[trigger] self.tree@.skip(i as int)[x] == s0.skip(j + 1)[x] by {
                    assert(t.skip(i as int)[x + 1] == s0.skip(j)[x + 1]);
                }
                assert(self.tree@.skip(i as int) =~= s0.skip(j + 1));
                assert forall|a: int, b: int|
                    0 <= a < self.tree@.len() && 0 <= b < self.tree@.len() && a != b implies #[trigger] self.tree@[a].key
                        != #[trigger] self.tree@[b].key by {
                    let a0 = if a < i { a } else { a + 1 };
                    let b0 = if b < i { b } else { b + 1 };
                    assert(self.tree@[a] == t[a0]);
                    assert(self.tree@[b] == t[b0]);
                }
            } else {
                assert(self.tree@.take(i + 1) =~= self.tree@.take(i as int).push(t[i as int]));
                assert forall|x: int| 0 <= x < self.tree@.skip(i + 1).len() implies #[trigger] self.tree@.skip(i + 1)[x] == s0.skip(j + 1)[x] by {
                    assert(t.skip(i as int)[x + 1] == s0.skip(j)[x + 1]);
                }
                assert(self.tree@.skip(i + 1) =~= s0.skip(j + 1));
                i = i + 1;
            }
            proof {
                j = j + 1;
            }
        }
        assert(s0.take(j) =~= s0);
        assert(self.tree@.take(i as int) =~= self.tree@);
        let ghost kept = self.tree@;
        assert forall|v: int| 0 <= v < kept.len() implies dom.contains(#[trigger] kept[v].key) by {
            s0.lemma_filter_pred(p, v);
        }
        // Create all new devices.
        let mut q: usize = 0;
        while q < keys.len()
            invariant
                keys@.to_set() == dom,
                dom == connected_devices(*connected).dom(),
                q <= keys@.len(),
                kept.len() <= self.tree@.len(),
                self.tree@.take(kept.len() as int) == kept,
                kept == s0.filter(p),
                distinct_keys(self.tree@),
                forall|v: int| 0 <= v < self.tree@.len() ==> dom.contains(#[trigger] self.tree@[v].key),
                forall|u: int| 0 <= u < q ==> has_key(self.tree@, #[trigger] keys@[u]),
                forall|v: int|
                    kept.len() <= v < self.tree@.len() ==> {
                        &&& !has_key(s0, (#[trigger] self.tree@[v]).key)
                        &&& self.tree@[v].created_from(
                            *connected_devices(*connected)[self.tree@[v].key],
                            self.tree@[v].key,
                        )
                    },
                forall|v: int| 0 <= v < kept.len() ==> dom.contains(#[trigger] kept[v].key),
                self.configuration == old(self).configuration,
                s0 == old(self).tree@,
                p == (|v: USBDeviceView| dom.contains(v.key)),
            decreases keys@.len() - q,
        {
            let key = keys[q];
            assert(keys@.to_set().contains(key));
            let present = self.tree_has(key);
            if present {
                assert(has_key(self.tree@, key));
            } else {
                let ghost t = self.tree@;
                match connected_get(connected, key) {
                    Some(device) => {
                        let view = USBDeviceView::create(device, key);
                        self.tree.push(view);
                        assert(self.tree@.take(kept.len() as int) =~= t.take(kept.len() as int));
                        assert(!has_key(s0, key)) by {
                            if has_key(s0, key) {
                                let w = choose|w: int| 0 <= w < s0.len() && #[trigger] s0[w].key == key;
                                s0.lemma_filter_contains(p, w);
                                let z = choose|z: int| 0 <= z < kept.len() && kept[z] == s0[w];
                                assert(t[z].key == key);
                            }
                        }
                        assert(has_key(self.tree@, key)) by {
                            assert(self.tree@[t.len() as int].key == key);
                        }
                        assert forall|u: int| 0 <= u < q implies has_key(self.tree@, #[trigger] keys@[u]) by {
                            let w = choose|w: int| 0 <= w < t.len() && #[trigger] t[w].key == keys@[u];
                            assert(self.tree@[w].key == keys@[u]);
                        }
                    },
                    None => {
                        assert(false);
                    },
                }
            }
            assert(has_key(self.tree@, keys@[q as int]));
            q = q + 1;
        }
        assert forall|k: usize| dom.contains(k) implies has_key(self.tree@, k) by {
            assert(keys@.to_set().contains(k));
            let u = choose|u: int| 0 <= u < keys@.len() && keys@[u] == k;
            assert(has_key(self.tree@, keys@[u]));
        }
    }

    /// Processes a show action: it is handed to the first device view with the
    /// action's key, if there is one.
    pub fn show(&mut self, action: &ShowAction)
        ensures
            final(self).configuration == old(self).configuration,
            tree_shown(old(self).tree@, *action, final(self).tree@),
    {
        let ghost pre = self.tree@;
        let mut i: usize = 0;
        while i < self.tree.len()
            invariant
                i <= self.tree@.len(),
                self.tree@ == pre,
                pre == old(self).tree@,
                self.configuration == old(self).configuration,
                forall|j: int| 0 <= j < i ==> #[trigger] pre[j].key != action.key,
            decreases self.tree@.len() - i,
        {
            if self.tree[i].show(action) {
                assert(first_with_key(pre, action.key, i as int));
                assert forall|j: int| 0 <= j < pre.len() && j != i implies !first_with_key(pre, action.key, j) by {
                    if j > i && first_with_key(pre, action.key, j) {
                        assert(pre[i as int].key != action.key);
                    }
                }
                return;
            }
            i = i + 1;
        }
    }
}

} // verus!
