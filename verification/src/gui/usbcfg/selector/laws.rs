//! Properties of the USB selector tree that hold across calls: showing is
//! idempotent, a collapse button toggles its own element, and rebuilding
//! against an unchanged set of devices changes nothing.

use vstd::prelude::*;

use std::sync::Arc;

use crate::usb::device::USBDevice;

use super::view::{USBConfigView, USBDeviceView, USBInterfaceView};
use super::{distinct_keys, first_with_key, has_key, tree_rebuilt, tree_shown, ShowAction};

verus! {

/// Showing the same action twice on an interface view has the effect of
/// showing it once.
pub proof fn law_interface_show_idempotent(v: USBInterfaceView, a: ShowAction)
    ensures
        v.spec_show(a).spec_show(a) == v.spec_show(a),
{
}

/// Showing the same action twice on a configuration view has the effect of
/// showing it once.
pub proof fn law_config_show_idempotent(v: USBConfigView, a: ShowAction, p1: USBConfigView, p2: USBConfigView)
    requires
        v.spec_shown(a, p1),
        p1.spec_shown(a, p2),
    ensures
        v.spec_shown(a, p2),
{
    if a.idx == v.index && a.level != 1 {
        assert(p2.interfaces@ =~= v.interfaces@.map_values(|w: USBInterfaceView| w.spec_show(a)));
    }
}

/// Showing the same action twice on a device view has the effect of showing
/// it once.
pub proof fn law_device_show_idempotent(v: USBDeviceView, a: ShowAction, p1: USBDeviceView, p2: USBDeviceView)
    requires
        v.spec_shown(a, p1),
        p1.spec_shown(a, p2),
    ensures
        v.spec_shown(a, p2),
{
    if a.key == v.key && a.level != 0 {
        assert forall|i: int| 0 <= i < v.configurations@.len() implies (#[trigger] v.configurations@[i]).spec_shown(
            a,
            p2.configurations@[i],
        ) by {
            law_config_show_idempotent(v.configurations@[i], a, p1.configurations@[i], p2.configurations@[i]);
        }
    }
}

/// The collapse button of a device view flips the view's own flag and leaves
/// its configurations as they are.
pub proof fn law_device_collapse_toggles(v: USBDeviceView, post: USBDeviceView)
    requires
        v.spec_shown(v.spec_collapse(), post),
    ensures
        post.expanded == !v.expanded,
        post.configurations@ == v.configurations@,
{
}

/// In a tree without repeated keys, the collapse button of a device flips
/// that device's flag and changes nothing else in the tree.
pub proof fn law_tree_device_collapse(pre: Seq<USBDeviceView>, d: int, post: Seq<USBDeviceView>)
    requires
        distinct_keys(pre),
        0 <= d < pre.len(),
        tree_shown(pre, pre[d].spec_collapse(), post),
    ensures
        post[d].expanded == !pre[d].expanded,
        post[d].configurations@ == pre[d].configurations@,
        forall|i: int| 0 <= i < pre.len() && i != d ==> post[i] == pre[i],
{
    assert(first_with_key(pre, pre[d].key, d));
}

/// In a tree without repeated keys, the collapse button of a configuration
/// view flips that configuration's flag, whose views carry the device's key,
/// and leaves every other device unchanged.
pub proof fn law_tree_config_collapse(pre: Seq<USBDeviceView>, d: int, c: int, post: Seq<USBDeviceView>)
    requires
        distinct_keys(pre),
        0 <= d < pre.len(),
        0 <= c < pre[d].configurations@.len(),
        pre[d].configurations@[c].key == pre[d].key,
        tree_shown(pre, pre[d].configurations@[c].spec_collapse(), post),
    ensures
        post[d].configurations@[c].expanded == !pre[d].configurations@[c].expanded,
        post[d].expanded == pre[d].expanded,
        forall|i: int| 0 <= i < pre.len() && i != d ==> post[i] == pre[i],
{
    assert(first_with_key(pre, pre[d].key, d));
    assert(pre[d].configurations@[c].spec_shown(pre[d].configurations@[c].spec_collapse(), post[d].configurations@[c]));
}

/// In a tree without repeated keys, the collapse button of an interface view
/// flips that interface's flag, when the views of the device are consistent:
/// the interface view carries its configuration's index and the device's key.
pub proof fn law_tree_interface_collapse(
    pre: Seq<USBDeviceView>,
    d: int,
    c: int,
    n: int,
    post: Seq<USBDeviceView>,
)
    requires
        distinct_keys(pre),
        0 <= d < pre.len(),
        0 <= c < pre[d].configurations@.len(),
        0 <= n < pre[d].configurations@[c].interfaces@.len(),
        pre[d].configurations@[c].interfaces@[n].key == pre[d].key,
        pre[d].configurations@[c].interfaces@[n].index == pre[d].configurations@[c].index,
        tree_shown(pre, pre[d].configurations@[c].interfaces@[n].spec_collapse(), post),
    ensures
        post[d].configurations@[c].interfaces@[n].expanded
            == !pre[d].configurations@[c].interfaces@[n].expanded,
        post[d].expanded == pre[d].expanded,
        post[d].configurations@[c].expanded == pre[d].configurations@[c].expanded,
        forall|i: int| 0 <= i < pre.len() && i != d ==> post[i] == pre[i],
{
    let iv = pre[d].configurations@[c].interfaces@[n];
    let a = iv.spec_collapse();
    assert(first_with_key(pre, pre[d].key, d));
    assert(pre[d].configurations@[c].spec_shown(a, post[d].configurations@[c]));
    assert(post[d].configurations@[c].interfaces@[n] == iv.spec_show(a));
}

/// Rebuilding a tree against the devices it already shows, exactly, leaves it
/// unchanged: a second rebuild against the same devices changes nothing.
pub proof fn law_rebuild_stable(
    pre: Seq<USBDeviceView>,
    m: Map<usize, Arc<USBDevice>>,
    mid: Seq<USBDeviceView>,
    post: Seq<USBDeviceView>,
)
    requires
        distinct_keys(pre),
        tree_rebuilt(pre, m, mid),
        tree_rebuilt(mid, m, post),
    ensures
        post == mid,
{
    let p = |v: USBDeviceView| m.dom().contains(v.key);
    assert forall|i: int| 0 <= i < mid.len() implies p(#[trigger] mid[i]) by {
        assert(has_key(mid, mid[i].key));
    }
    crate::seqs::lemma_filter_all(mid, p);
    let kept = mid.filter(p);
    assert(post.take(kept.len() as int) == mid);
    if post.len() > mid.len() {
        let i = mid.len() as int;
        assert(has_key(post, post[i].key));
        assert(m.dom().contains(post[i].key));
        assert(!has_key(mid, post[i].key));
    }
    assert(post =~= mid);
}


} // verus!

verus! {

/// A show action never changes the keys of the tree, so a tree without
/// repeated keys keeps none.
pub proof fn law_show_keeps_distinct(pre: Seq<USBDeviceView>, a: ShowAction, post: Seq<USBDeviceView>)
    requires
        distinct_keys(pre),
        tree_shown(pre, a, post),
    ensures
        distinct_keys(post),
        forall|i: int| 0 <= i < pre.len() ==> #[trigger] post[i].key == pre[i].key,
{
    assert forall|i: int| 0 <= i < pre.len() implies #[trigger] post[i].key == pre[i].key by {
        if first_with_key(pre, a.key, i) {
            assert(pre[i].spec_shown(a, post[i]));
        }
    }
}

} // verus!

verus! {

/// A show action touches only the interface with its number: that interface
/// takes the action's state, and an interface with another number is left
/// exactly as it was.
pub proof fn law_interface_show_frame(v: USBInterfaceView, a: ShowAction)
    ensures
        a.num != v.number ==> v.spec_show(a) == v,
        a.num == v.number ==> v.spec_show(a).expanded == a.state,
        v.spec_show(a).number == v.number,
        v.spec_show(a).index == v.index,
        v.spec_show(a).key == v.key,
        v.spec_show(a).endpoints == v.endpoints,
{
}

/// Within a configuration, an interface action sets the interface with the
/// action's number to the action's state and leaves every interface with
/// another number as it was, so expanding one interface never collapses
/// another.
pub proof fn law_config_interface_action_frame(v: USBConfigView, a: ShowAction, post: USBConfigView)
    requires
        v.spec_shown(a, post),
        a.level != 1,
    ensures
        post.expanded == v.expanded,
        post.interfaces@.len() == v.interfaces@.len(),
        forall|i: int|
            0 <= i < v.interfaces@.len() && (#[trigger] v.interfaces@[i]).number != a.num ==> post.interfaces@[i]
                == v.interfaces@[i],
        forall|i: int|
            0 <= i < v.interfaces@.len() && a.idx == v.index && (#[trigger] v.interfaces@[i]).number == a.num
                ==> post.interfaces@[i].expanded == a.state,
{
}

/// Two interface actions of a configuration for different interfaces both
/// take effect: after the second, the interface of the first still has the
/// first action's state.
pub proof fn law_config_interface_actions_commute(
    v: USBConfigView,
    a1: ShowAction,
    a2: ShowAction,
    p1: USBConfigView,
    p2: USBConfigView,
    i: int,
)
    requires
        v.spec_shown(a1, p1),
        p1.spec_shown(a2, p2),
        a1.level != 1,
        a2.level != 1,
        a1.idx == v.index,
        a1.num != a2.num,
        0 <= i < v.interfaces@.len(),
        v.interfaces@[i].number == a1.num,
    ensures
        p2.interfaces@[i].expanded == a1.state,
{
    law_config_interface_action_frame(v, a1, p1);
    law_config_interface_action_frame(p1, a2, p2);
    assert(p1.interfaces@[i].number == a1.num);
}

} // verus!

verus! {

/// A configuration action names its configuration by index: it sets that
/// configuration's own flag and leaves its interfaces as they were, and an
/// action for another configuration changes nothing.
pub proof fn law_config_action_frame(v: USBConfigView, a: ShowAction, post: USBConfigView)
    requires
        v.spec_shown(a, post),
    ensures
        a.idx != v.index ==> post.expanded == v.expanded && post.interfaces@ == v.interfaces@,
        a.idx == v.index && a.level == 1 ==> post.expanded == a.state && post.interfaces@ == v.interfaces@,
        post.index == v.index,
        post.key == v.key,
{
}

/// A device action names its device by key: at the device level it sets the
/// device's own flag and leaves its configurations as they were; below, it
/// leaves the device's flag alone and every configuration with another
/// index as it was; and an action for another device changes nothing.
pub proof fn law_device_action_frame(v: USBDeviceView, a: ShowAction, post: USBDeviceView)
    requires
        v.spec_shown(a, post),
    ensures
        a.key != v.key ==> post.expanded == v.expanded && post.configurations@ == v.configurations@,
        a.key == v.key && a.level == 0 ==> post.expanded == a.state && post.configurations@ == v.configurations@,
        a.key == v.key && a.level != 0 ==> post.expanded == v.expanded,
        a.level != 0 ==> forall|c: int|
            0 <= c < v.configurations@.len() && (#[trigger] v.configurations@[c]).index != a.idx
                ==> post.configurations@[c].expanded == v.configurations@[c].expanded
                && post.configurations@[c].interfaces@ == v.configurations@[c].interfaces@,
        post.key == v.key,
        post.reference == v.reference,
{
    if a.level != 0 && a.key == v.key {
        assert forall|c: int|
            0 <= c < v.configurations@.len() && (#[trigger] v.configurations@[c]).index != a.idx
            implies post.configurations@[c].expanded == v.configurations@[c].expanded
                && post.configurations@[c].interfaces@ == v.configurations@[c].interfaces@ by {
            law_config_action_frame(v.configurations@[c], a, post.configurations@[c]);
        }
    }
}

} // verus!
