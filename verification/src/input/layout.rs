//! Layout-cache maintenance: how the cached `KeyboardLayouts` snapshot
//! changes when a compositor reports a layout switch or a fresh layout set,
//! and the resolved event handed to the change callback.

use vstd::prelude::*;

use crate::compositor::{first_index_of, KeyboardLayouts, LayoutEvent};
use crate::text::{chars_eq_str, chars_to_string, str_to_chars};

verus! {

/// A first occurrence found by scanning is the first occurrence.
proof fn lemma_first_index_at(s: Seq<Seq<char>>, x: Seq<char>, i: int)
    requires
        0 <= i < s.len(),
        s[i] == x,
        forall|k: int| 0 <= k < i ==> s[k] != x,
    ensures
        first_index_of(s, x) == i,
    decreases s.len(),
{
    if i > 0 {
        let t = s.drop_first();
        assert(t[i - 1] == x);
        assert(forall|k: int| 0 <= k < i - 1 ==> t[k] == s[k + 1] && #[trigger] t[k] != x);
        lemma_first_index_at(t, x, i - 1);
    }
}

/// An active-layout switch reported with a layout name, as Hyprland reports
/// one: if the name is cached, the current index moves to its first
/// occurrence; otherwise the name is appended and selected. Returns the
/// switch event carrying the name and the new index.
pub fn apply_layout_switch(cache: &mut KeyboardLayouts, name: &str) -> (ev: LayoutEvent)
    ensures
        old(cache).names_view().contains(name@) ==> final(cache).names_view()
            == old(cache).names_view() && final(cache).current_idx == first_index_of(
            old(cache).names_view(),
            name@,
        ),
        !old(cache).names_view().contains(name@) ==> final(cache).names_view()
            == old(cache).names_view().push(name@) && final(cache).current_idx
            == old(cache).names_view().len(),
        ev matches LayoutEvent::LayoutSwitched { name: n, index } && n@ == name@ && index
            == final(cache).current_idx,
{
    let ghost orig = cache.names_view();
    let nc = str_to_chars(name);
    let found = find_name_index(&cache.names, &nc);
    let index: usize = match found {
        Some(idx) => idx,
        None => {
            let s = chars_to_string(&nc);
            cache.names.push(s);
            proof {
                assert(cache.names_view() =~= orig.push(name@));
            }
            cache.names.len() - 1
        },
    };
    cache.current_idx = index;
    let ev_name = chars_to_string(&nc);
    LayoutEvent::LayoutSwitched { name: ev_name, index }
}

/// Index of the first cached name equal to `nc`, if any.
fn find_name_index(names: &Vec<String>, nc: &Vec<char>) -> (r: Option<usize>)
    ensures
        r matches Some(i) ==> names.deep_view().contains(nc@) && first_index_of(
            names.deep_view(),
            nc@,
        ) == i as int,
        r is None ==> !names.deep_view().contains(nc@),
{
    let ghost ns = names.deep_view();
    let n = names.len();
    let mut i: usize = 0;
    while i < n
        invariant
            i <= n,
            n == names@.len(),
            ns == names.deep_view(),
            forall|k: int| 0 <= k < i ==> ns[k] != nc@,
        decreases n - i,
    {
        assert(ns[i as int] == names@[i as int]@);
        if chars_eq_str(nc, names[i].as_str()) {
            proof {
                assert(ns[i as int] == nc@);
                lemma_first_index_at(ns, nc@, i as int);
            }
            return Some(i);
        }
        i += 1;
    }
    proof {
        assert(!ns.contains(nc@)) by {
            if ns.contains(nc@) {
                let j = choose|j: int| 0 <= j < ns.len() && ns[j] == nc@;
            }
        }
    }
    None
}

/// A deep copy of a snapshot.
pub fn snapshot_layouts(l: &KeyboardLayouts) -> (r: KeyboardLayouts)
    ensures
        r.names_view() == l.names_view(),
        r.current_idx == l.current_idx,
{
    let n = l.names.len();
    let mut names: Vec<String> = Vec::new();
    let mut i: usize = 0;
    while i < n
        invariant
            i <= n,
            n == l.names@.len(),
            names@.len() == i,
            forall|k: int| 0 <= k < i ==> (#[trigger] names@[k])@ == l.names@[k]@,
        decreases n - i,
    {
        let nm = l.names[i].clone();
        proof {
            assert(nm@ == l.names@[i as int]@);
        }
        names.push(nm);
        i += 1;
    }
    let r = KeyboardLayouts { names, current_idx: l.current_idx };
    proof {
        assert(r.names_view() =~= l.names_view()) by {
            assert(r.names_view().len() == r.names@.len());
            assert(l.names_view().len() == l.names@.len());
            assert forall|k: int| 0 <= k < n implies r.names_view()[k] == l.names_view()[k] by {
                assert(r.names_view()[k] == r.names@[k]@);
                assert(l.names_view()[k] == l.names@[k]@);
            }
        }
    }
    r
}

/// The index a switch event carries, if it is one.
pub open spec fn switched_index(ev: LayoutEvent) -> Option<usize> {
    match ev {
        LayoutEvent::LayoutSwitched { index, .. } => Some(index),
        LayoutEvent::LayoutsChanged { .. } => None,
    }
}

/// Apply a parsed layout event to the cache and return the event to hand to
/// the change callback. A full snapshot replaces the cache. A switch that
/// carries only an index (as Niri reports one) moves the current index and
/// resolves the layout name from the cache, or leaves it empty when the
/// index points outside the cached list.
pub fn apply_layout_event(cache: &mut KeyboardLayouts, ev: LayoutEvent) -> (r: LayoutEvent)
    ensures
        ev matches LayoutEvent::LayoutsChanged { layouts } ==> final(cache).names_view()
            == layouts.names_view() && final(cache).current_idx == layouts.current_idx && r == ev,
        switched_index(ev) matches Some(idx) ==> ({
            &&& final(cache).names_view() == old(cache).names_view()
            &&& final(cache).current_idx == idx
            &&& (r matches LayoutEvent::LayoutSwitched { name: rn, index: ri } && ri == idx && rn@
                == (if idx < old(cache).names_view().len() {
                    old(cache).names_view()[idx as int]
                } else {
                    Seq::<char>::empty()
                }))
        }),
{
    match &ev {
        LayoutEvent::LayoutsChanged { layouts } => {
            let c = snapshot_layouts(layouts);
            cache.names = c.names;
            cache.current_idx = c.current_idx;
            ev
        },
        LayoutEvent::LayoutSwitched { index, .. } => {
            let index = *index;
            let name: String = if index < cache.names.len() {
                let s = cache.names[index].clone();
                proof {
                    assert(s@ == cache.names_view()[index as int]);
                }
                s
            } else {
                String::new()
            };
            cache.current_idx = index;
            LayoutEvent::LayoutSwitched { name, index }
        },
    }
}

} // verus!
