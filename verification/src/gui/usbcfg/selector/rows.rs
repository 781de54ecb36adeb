//! The rows that a USB tree shows: each device title, and below an expanded
//! element the elements it holds, as far as they are expanded.

use vstd::prelude::*;

use crate::usb::common::USBTarget;

use super::view::{USBConfigView, USBDeviceView, USBInterfaceView};
use super::{ShowAction, USBSelector};

verus! {

/// A row of the USB tree, with the positions of its element in the tree and
/// the action of its expand/collapse button, or for an endpoint the target
/// that its "Select" button opens, if it has one.
#[derive(Clone, Copy, Debug, Eq, PartialEq)]
pub enum TreeRow {
    /// A device title.
    Device(usize, ShowAction),
    /// A configuration title: device and configuration positions.
    Config(usize, usize, ShowAction),
    /// An interface title: device, configuration and interface positions.
    Interface(usize, usize, usize, ShowAction),
    /// An endpoint: device, configuration, interface and endpoint positions.
    Endpoint(usize, usize, usize, usize, Option<USBTarget>),
}

/// The rows of an interface view: its title, then its endpoints if expanded.
pub open spec fn interface_view_rows(d: usize, c: usize, i: usize, v: USBInterfaceView) -> Seq<TreeRow> {
    seq![TreeRow::Interface(d, c, i, v.spec_collapse())] + if v.expanded {
        endpoint_view_rows(d, c, i, v)
    } else {
        Seq::empty()
    }
}

/// The rows of the endpoints of an interface view.
pub open spec fn endpoint_view_rows(d: usize, c: usize, i: usize, v: USBInterfaceView) -> Seq<TreeRow> {
    Seq::new(
        v.endpoints@.len(),
        |e: int|
            TreeRow::Endpoint(
                d,
                c,
                i,
                e as usize,
                if v.endpoints@[e].reference.spec_selectable() {
                    Some(v.endpoints@[e].reference.spec_target())
                } else {
                    None
                },
            ),
    )
}

/// The rows of the first `n` interface views of a configuration view.
pub open spec fn interfaces_view_rows(d: usize, c: usize, vs: Seq<USBInterfaceView>, n: int) -> Seq<TreeRow>
    decreases n,
{
    if n <= 0 {
        Seq::empty()
    } else {
        interfaces_view_rows(d, c, vs, n - 1) + interface_view_rows(d, c, (n - 1) as usize, vs[n - 1])
    }
}

/// The rows of a configuration view: its title, then its interfaces if
/// expanded.
pub open spec fn config_view_rows(d: usize, c: usize, v: USBConfigView) -> Seq<TreeRow> {
    seq![TreeRow::Config(d, c, v.spec_collapse())] + if v.expanded {
        interfaces_view_rows(d, c, v.interfaces@, v.interfaces@.len() as int)
    } else {
        Seq::empty()
    }
}

/// The rows of the first `n` configuration views of a device view.
pub open spec fn configs_view_rows(d: usize, vs: Seq<USBConfigView>, n: int) -> Seq<TreeRow>
    decreases n,
{
    if n <= 0 {
        Seq::empty()
    } else {
        configs_view_rows(d, vs, n - 1) + config_view_rows(d, (n - 1) as usize, vs[n - 1])
    }
}

/// The rows of a device view: its title, then its configurations if
/// expanded.
pub open spec fn device_view_rows(d: usize, v: USBDeviceView) -> Seq<TreeRow> {
    seq![TreeRow::Device(d, v.spec_collapse())] + if v.expanded {
        configs_view_rows(d, v.configurations@, v.configurations@.len() as int)
    } else {
        Seq::empty()
    }
}

/// The rows of the first `n` device views of a tree.
pub open spec fn tree_view_rows(tree: Seq<USBDeviceView>, n: int) -> Seq<TreeRow>
    decreases n,
{
    if n <= 0 {
        Seq::empty()
    } else {
        tree_view_rows(tree, n - 1) + device_view_rows((n - 1) as usize, tree[n - 1])
    }
}

/// Appends the rows of an interface view.
fn push_interface(r: &mut Vec<TreeRow>, d: usize, c: usize, i: usize, v: &USBInterfaceView)
    ensures
        final(r)@ == old(r)@ + interface_view_rows(d, c, i, *v),
{
    let ghost base = r@;
    r.push(TreeRow::Interface(d, c, i, v.collapse()));
    if v.expanded {
        let ghost eps = endpoint_view_rows(d, c, i, *v);
        let mut e: usize = 0;
        while e < v.endpoints.len()
            invariant
                e <= v.endpoints@.len(),
                eps == endpoint_view_rows(d, c, i, *v),
                r@ == base + seq![TreeRow::Interface(d, c, i, v.spec_collapse())] + eps.take(e as int),
            decreases v.endpoints@.len() - e,
        {
            r.push(TreeRow::Endpoint(d, c, i, e, v.endpoints[e].select()));
            assert(eps.take(e + 1) =~= eps.take(e as int).push(eps[e as int]));
            e = e + 1;
        }
        assert(eps.take(eps.len() as int) =~= eps);
    }
    assert(r@ =~= base + interface_view_rows(d, c, i, *v));
}

/// Appends the rows of a configuration view.
fn push_config(r: &mut Vec<TreeRow>, d: usize, c: usize, v: &USBConfigView)
    ensures
        final(r)@ == old(r)@ + config_view_rows(d, c, *v),
{
    let ghost base = r@;
    r.push(TreeRow::Config(d, c, v.collapse()));
    if v.expanded {
        let ghost head = r@;
        let mut i: usize = 0;
        assert(head + interfaces_view_rows(d, c, v.interfaces@, 0) =~= head);
        while i < v.interfaces.len()
            invariant
                i <= v.interfaces@.len(),
                r@ == head + interfaces_view_rows(d, c, v.interfaces@, i as int),
            decreases v.interfaces@.len() - i,
        {
            push_interface(r, d, c, i, &v.interfaces[i]);
            assert(r@ =~= head + interfaces_view_rows(d, c, v.interfaces@, i + 1));
            i = i + 1;
        }
    }
    assert(r@ =~= base + config_view_rows(d, c, *v));
}

/// Appends the rows of a device view.
fn push_device(r: &mut Vec<TreeRow>, d: usize, v: &USBDeviceView)
    ensures
        final(r)@ == old(r)@ + device_view_rows(d, *v),
{
    let ghost base = r@;
    r.push(TreeRow::Device(d, v.collapse()));
    if v.expanded {
        let ghost head = r@;
        let mut c: usize = 0;
        assert(head + configs_view_rows(d, v.configurations@, 0) =~= head);
        while c < v.configurations.len()
            invariant
                c <= v.configurations@.len(),
                r@ == head + configs_view_rows(d, v.configurations@, c as int),
            decreases v.configurations@.len() - c,
        {
            push_config(r, d, c, &v.configurations[c]);
            assert(r@ =~= head + configs_view_rows(d, v.configurations@, c + 1));
            c = c + 1;
        }
    }
    assert(r@ =~= base + device_view_rows(d, *v));
}

impl<C> USBSelector<C> {
    /// Returns the rows that the tree shows.
    pub fn rows(&self) -> (r: Vec<TreeRow>)
        ensures
            r@ == tree_view_rows(self.tree@, self.tree@.len() as int),
    {
        let mut r: Vec<TreeRow> = Vec::new();
        let mut d: usize = 0;
        assert(r@ =~= tree_view_rows(self.tree@, 0));
        while d < self.tree.len()
            invariant
                d <= self.tree@.len(),
                r@ == tree_view_rows(self.tree@, d as int),
            decreases self.tree@.len() - d,
        {
            push_device(&mut r, d, &self.tree[d]);
            assert(r@ =~= tree_view_rows(self.tree@, d + 1));
            d = d + 1;
        }
        r
    }
}

} // verus!

verus! {

/// The rows of the first `n` interface views hold the title of each of them,
/// with the view's own collapse action.
proof fn lemma_interface_titles_listed(d: usize, c: usize, vs: Seq<USBInterfaceView>, n: int, i: int)
    requires
        0 <= i < n <= vs.len(),
    ensures
        interfaces_view_rows(d, c, vs, n).contains(TreeRow::Interface(d, c, i as usize, vs[i].spec_collapse())),
    decreases n,
{
    let pre = interfaces_view_rows(d, c, vs, n - 1);
    let last = interface_view_rows(d, c, (n - 1) as usize, vs[n - 1]);
    let all = interfaces_view_rows(d, c, vs, n);
    assert(all == pre + last);
    if i < n - 1 {
        lemma_interface_titles_listed(d, c, vs, n - 1, i);
        let k = choose|k: int| 0 <= k < pre.len() && pre[k] == TreeRow::Interface(d, c, i as usize, vs[i].spec_collapse());
        assert(all[k] == pre[k]);
    } else {
        assert(all[pre.len() as int] == last[0]);
    }
}

/// The rows of the first `n` interface views start with the title of the
/// first of them.
proof fn lemma_first_interface_title(d: usize, c: usize, vs: Seq<USBInterfaceView>, n: int)
    requires
        1 <= n <= vs.len(),
    ensures
        interfaces_view_rows(d, c, vs, n).len() >= n,
        interfaces_view_rows(d, c, vs, n)[0] == TreeRow::Interface(d, c, 0, vs[0].spec_collapse()),
    decreases n,
{
    let pre = interfaces_view_rows(d, c, vs, n - 1);
    let last = interface_view_rows(d, c, (n - 1) as usize, vs[n - 1]);
    assert(interfaces_view_rows(d, c, vs, n) == pre + last);
    if n > 1 {
        lemma_first_interface_title(d, c, vs, n - 1);
        assert((pre + last)[0] == pre[0]);
    } else {
        assert(pre.len() == 0);
        assert((pre + last)[0] == last[0]);
    }
}

/// A configuration row comes first among the rows of its configuration; a
/// collapsed configuration shows that row alone, and an expanded one shows
/// below it the title of every interface it holds, the first right after it.
pub proof fn law_config_rows(d: usize, c: usize, v: USBConfigView)
    ensures
        config_view_rows(d, c, v)[0] == TreeRow::Config(d, c, v.spec_collapse()),
        !v.expanded ==> config_view_rows(d, c, v) == seq![TreeRow::Config(d, c, v.spec_collapse())],
        v.expanded ==> config_view_rows(d, c, v).len() >= 1 + v.interfaces@.len(),
        v.expanded && v.interfaces@.len() > 0 ==> config_view_rows(d, c, v)[1] == TreeRow::Interface(
            d,
            c,
            0,
            v.interfaces@[0].spec_collapse(),
        ),
        forall|i: int|
            0 <= i < v.interfaces@.len() ==> (config_view_rows(d, c, v).contains(
                TreeRow::Interface(d, c, i as usize, #[trigger] v.interfaces@[i].spec_collapse()),
            ) <==> v.expanded),
{
    let rows = config_view_rows(d, c, v);
    let vs = v.interfaces@;
    if v.expanded {
        let inner = interfaces_view_rows(d, c, vs, vs.len() as int);
        assert(rows == seq![TreeRow::Config(d, c, v.spec_collapse())] + inner);
        if vs.len() > 0 {
            lemma_first_interface_title(d, c, vs, vs.len() as int);
        } else {
            assert(inner.len() == 0);
        }
        assert forall|i: int| 0 <= i < vs.len() implies rows.contains(
            TreeRow::Interface(d, c, i as usize, #[trigger] vs[i].spec_collapse()),
        ) by {
            lemma_interface_titles_listed(d, c, vs, vs.len() as int, i);
            let k = choose|k: int| 0 <= k < inner.len() && inner[k] == TreeRow::Interface(d, c, i as usize, vs[i].spec_collapse());
            assert(rows[k + 1] == inner[k]);
        }
    } else {
        assert(rows =~= seq![TreeRow::Config(d, c, v.spec_collapse())]);
        assert forall|i: int| 0 <= i < vs.len() implies !rows.contains(
            TreeRow::Interface(d, c, i as usize, #[trigger] vs[i].spec_collapse()),
        ) by {
            if rows.contains(TreeRow::Interface(d, c, i as usize, vs[i].spec_collapse())) {
                let k = choose|k: int| 0 <= k < rows.len() && rows[k] == TreeRow::Interface(d, c, i as usize, vs[i].spec_collapse());
                assert(k == 0);
            }
        }
    }
}

/// An interface row comes first among the rows of its interface; a
/// collapsed interface shows that row alone, and an expanded one shows one
/// row per endpoint, in order, each with the endpoint's positions and the
/// target of the endpoint exactly when the endpoint can be selected.
pub proof fn law_interface_rows(d: usize, c: usize, i: usize, v: USBInterfaceView)
    ensures
        interface_view_rows(d, c, i, v)[0] == TreeRow::Interface(d, c, i, v.spec_collapse()),
        !v.expanded ==> interface_view_rows(d, c, i, v) == seq![TreeRow::Interface(d, c, i, v.spec_collapse())],
        v.expanded ==> interface_view_rows(d, c, i, v).len() == 1 + v.endpoints@.len(),
        v.expanded ==> forall|e: int|
            0 <= e < v.endpoints@.len() ==> {
                let ep = #[trigger] v.endpoints@[e].reference;
                &&& interface_view_rows(d, c, i, v)[e + 1] matches TreeRow::Endpoint(dd, cc, ii, ee, t)
                &&& dd == d && cc == c && ii == i && ee == e as usize
                &&& (t is Some <==> ep.spec_selectable())
                &&& (t matches Some(x) ==> x == ep.spec_target())
            },
{
    let rows = interface_view_rows(d, c, i, v);
    if v.expanded {
        let eps = endpoint_view_rows(d, c, i, v);
        assert(rows == seq![TreeRow::Interface(d, c, i, v.spec_collapse())] + eps);
        assert forall|e: int| 0 <= e < v.endpoints@.len() implies {
            let ep = #[trigger] v.endpoints@[e].reference;
            &&& rows[e + 1] matches TreeRow::Endpoint(dd, cc, ii, ee, t)
            &&& dd == d && cc == c && ii == i && ee == e as usize
            &&& (t is Some <==> ep.spec_selectable())
            &&& (t matches Some(x) ==> x == ep.spec_target())
        } by {
            assert(rows[e + 1] == eps[e]);
            let ep = v.endpoints@[e].reference;
            let t = if ep.spec_selectable() { Some(ep.spec_target()) } else { None };
            assert(eps[e] == TreeRow::Endpoint(d, c, i, e as usize, t));
        }
    } else {
        assert(rows =~= seq![TreeRow::Interface(d, c, i, v.spec_collapse())]);
    }
}

/// A collapsed device shows its title row alone.
pub proof fn law_collapsed_device_rows(d: usize, v: USBDeviceView)
    requires
        !v.expanded,
    ensures
        device_view_rows(d, v) == seq![TreeRow::Device(d, v.spec_collapse())],
{
    assert(device_view_rows(d, v) =~= seq![TreeRow::Device(d, v.spec_collapse())]);
}

} // verus!
