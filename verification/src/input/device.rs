//! Keyboard-device classification and selection. Enumeration and opening of
//! the kernel devices happens outside the library; the rules that classify a
//! device as a keyboard and pick the primary one live here.

use vstd::prelude::*;

use crate::compositor::contains_sub;
use crate::text::{find_sub, lower_chars, str_to_chars, to_lower_chars};

verus! {

/// A discovered keyboard device: its filesystem path and human-readable name.
#[derive(Debug, Clone)]
pub struct KeyboardDevice {
    pub path: String,
    pub name: String,
}

/// A device is a keyboard exactly when it supports key events and has the
/// full letter range: a lowercase-letter key, an end-of-alphabet letter key
/// and the space key.
pub fn is_keyboard(
    supports_key_events: bool,
    has_key_a: bool,
    has_key_z: bool,
    has_space: bool,
) -> (r: bool)
    ensures
        r == (supports_key_events && has_key_a && has_key_z && has_space),
{
    supports_key_events && has_key_a && has_key_z && has_space
}

/// A device name that marks a virtual keyboard, matched case-insensitively.
pub open spec fn is_virtual_name(n: Seq<char>) -> bool {
    contains_sub(lower_chars(n), "virtual"@)
}

/// Index of the first device whose name does not mark it as virtual.
pub open spec fn first_physical_index(names: Seq<Seq<char>>, from: int) -> Option<int>
    decreases names.len() - from,
{
    if from < 0 || from >= names.len() {
        None
    } else if !is_virtual_name(names[from]) {
        Some(from)
    } else {
        first_physical_index(names, from + 1)
    }
}

/// The device names of a discovery result.
pub open spec fn device_names(devs: Seq<KeyboardDevice>) -> Seq<Seq<char>> {
    devs.map_values(|d: KeyboardDevice| d.name@)
}

/// Pick the primary keyboard from a discovery result: the first device not
/// named as virtual, else the first device, else nothing when the list is
/// empty.
pub fn get_primary_keyboard(keyboards: &Vec<KeyboardDevice>) -> (r: Option<KeyboardDevice>)
    ensures
        keyboards@.len() == 0 ==> r is None,
        keyboards@.len() > 0 ==> (r matches Some(d) && (match first_physical_index(
            device_names(keyboards@),
            0,
        ) {
            Some(i) => d.name@ == keyboards@[i].name@ && d.path@ == keyboards@[i].path@,
            None => d.name@ == keyboards@[0].name@ && d.path@ == keyboards@[0].path@,
        })),
{
    let n = keyboards.len();
    if n == 0 {
        return None;
    }
    let ghost names = device_names(keyboards@);
    let mut i: usize = 0;
    while i < n
        invariant
            i <= n,
            n == keyboards@.len(),
            names == device_names(keyboards@),
            first_physical_index(names, 0) == first_physical_index(names, i as int),
        decreases n - i,
    {
        let nc = str_to_chars(keyboards[i].name.as_str());
        let nl = to_lower_chars(&nc);
        let pat = str_to_chars("virtual");
        if find_sub(&nl, &pat, 0).is_none() {
            proof {
                assert(names[i as int] == keyboards@[i as int].name@);
                assert(first_physical_index(names, i as int) == Some(i as int));
            }
            let d = &keyboards[i];
            return Some(KeyboardDevice { path: d.path.clone(), name: d.name.clone() });
        }
        proof {
            assert(names[i as int] == keyboards@[i as int].name@);
            assert(first_physical_index(names, i as int) == first_physical_index(names, i + 1));
        }
        i += 1;
    }
    proof {
        assert(first_physical_index(names, i as int) is None);
    }
    let d = &keyboards[0];
    Some(KeyboardDevice { path: d.path.clone(), name: d.name.clone() })
}

} // verus!
