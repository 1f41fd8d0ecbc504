//! Compositor identification and the keyboard-layout snapshot type shared by
//! the three IPC clients.

pub mod hyprland;
pub mod niri;
pub mod sway;

use vstd::prelude::*;

use crate::text::{
    chars_eq_str, find_sub, first_match_from, lower_chars, str_to_chars, to_lower_chars,
};

verus! {

/// The compositors this library knows how to identify.
#[derive(Debug, Clone, Copy, PartialEq, Eq, Hash, Structural)]
pub enum Compositor {
    Hyprland,
    Sway,
    Niri,
    River,
    Dwl,
    Labwc,
    Wayfire,
    Unknown,
}

impl Compositor {
    /// Whether the compositor offers a layout query over its IPC socket.
    pub fn supports_layout_query(&self) -> (r: bool)
        ensures
            r == (*self is Hyprland || *self is Sway || *self is Niri),
    {
        matches!(self, Self::Hyprland | Self::Sway | Self::Niri)
    }

    /// Whether the compositor offers a layout-change event stream.
    pub fn supports_layout_events(&self) -> (r: bool)
        ensures
            r == (*self is Hyprland || *self is Sway || *self is Niri),
    {
        matches!(self, Self::Hyprland | Self::Sway | Self::Niri)
    }

    /// The environment variable whose presence identifies the compositor.
    pub fn detection_env_var(&self) -> (r: Option<&'static str>)
        ensures
            *self is Hyprland ==> (r matches Some(s) && s@ == "HYPRLAND_INSTANCE_SIGNATURE"@),
            *self is Sway ==> (r matches Some(s) && s@ == "SWAYSOCK"@),
            *self is Niri ==> (r matches Some(s) && s@ == "NIRI_SOCKET"@),
            *self is Wayfire ==> (r matches Some(s) && s@ == "WAYFIRE_SOCKET"@),
            *self is River || *self is Dwl || *self is Labwc || *self is Unknown ==> r is None,
    {
        match self {
            Self::Hyprland => Some("HYPRLAND_INSTANCE_SIGNATURE"),
            Self::Sway => Some("SWAYSOCK"),
            Self::Niri => Some("NIRI_SOCKET"),
            Self::Wayfire => Some("WAYFIRE_SOCKET"),
            _ => None,
        }
    }

    /// Human-readable name of the compositor.
    pub fn display_name(&self) -> (r: &'static str)
        ensures
            *self is Hyprland ==> r@ == "Hyprland"@,
            *self is Sway ==> r@ == "Sway"@,
            *self is Niri ==> r@ == "Niri"@,
            *self is River ==> r@ == "River"@,
            *self is Dwl ==> r@ == "dwl"@,
            *self is Labwc ==> r@ == "Labwc"@,
            *self is Wayfire ==> r@ == "Wayfire"@,
            *self is Unknown ==> r@ == "Unknown"@,
    {
        match self {
            Self::Hyprland => "Hyprland",
            Self::Sway => "Sway",
            Self::Niri => "Niri",
            Self::River => "River",
            Self::Dwl => "dwl",
            Self::Labwc => "Labwc",
            Self::Wayfire => "Wayfire",
            Self::Unknown => "Unknown",
        }
    }
}

/// `p` occurs somewhere in `h`.
pub open spec fn contains_sub(h: Seq<char>, p: Seq<char>) -> bool {
    first_match_from(h, p, 0) is Some
}

/// Which compositor the environment signals describe: socket variables are
/// checked first, in a fixed priority order, then the desktop identifier is
/// matched case-insensitively by substring. Unrecognized environments map to
/// `Unknown`.
pub open spec fn detect_spec(
    hyprland_sig: bool,
    sway_sock: bool,
    niri_sock: bool,
    wayfire_sock: bool,
    desktop: Option<Seq<char>>,
) -> Compositor {
    if hyprland_sig {
        Compositor::Hyprland
    } else if sway_sock {
        Compositor::Sway
    } else if niri_sock {
        Compositor::Niri
    } else if wayfire_sock {
        Compositor::Wayfire
    } else {
        match desktop {
            Some(d) => {
                let dl = lower_chars(d);
                if contains_sub(dl, "river"@) {
                    Compositor::River
                } else if contains_sub(dl, "dwl"@) {
                    Compositor::Dwl
                } else if contains_sub(dl, "labwc"@) {
                    Compositor::Labwc
                } else if contains_sub(dl, "hyprland"@) {
                    Compositor::Hyprland
                } else if contains_sub(dl, "sway"@) {
                    Compositor::Sway
                } else if contains_sub(dl, "niri"@) {
                    Compositor::Niri
                } else {
                    Compositor::Unknown
                }
            },
            None => Compositor::Unknown,
        }
    }
}

/// Decide the running compositor from the environment signals: whether each
/// discovery socket variable is set, and the desktop identifier if any.
pub fn detect(
    hyprland_sig: bool,
    sway_sock: bool,
    niri_sock: bool,
    wayfire_sock: bool,
    desktop: Option<&str>,
) -> (r: Compositor)
    ensures
        r == detect_spec(
            hyprland_sig,
            sway_sock,
            niri_sock,
            wayfire_sock,
            match desktop {
                Some(d) => Some(d@),
                None => None,
            },
        ),
{
    if hyprland_sig {
        return Compositor::Hyprland;
    }
    if sway_sock {
        return Compositor::Sway;
    }
    if niri_sock {
        return Compositor::Niri;
    }
    if wayfire_sock {
        return Compositor::Wayfire;
    }
    if let Some(d) = desktop {
        let dc = str_to_chars(d);
        let dl = to_lower_chars(&dc);
        if find_sub(&dl, &str_to_chars("river"), 0).is_some() {
            return Compositor::River;
        }
        if find_sub(&dl, &str_to_chars("dwl"), 0).is_some() {
            return Compositor::Dwl;
        }
        if find_sub(&dl, &str_to_chars("labwc"), 0).is_some() {
            return Compositor::Labwc;
        }
        if find_sub(&dl, &str_to_chars("hyprland"), 0).is_some() {
            return Compositor::Hyprland;
        }
        if find_sub(&dl, &str_to_chars("sway"), 0).is_some() {
            return Compositor::Sway;
        }
        if find_sub(&dl, &str_to_chars("niri"), 0).is_some() {
            return Compositor::Niri;
        }
    }
    Compositor::Unknown
}

/// The cached set of keyboard layouts a compositor reported: display names in
/// first-seen order, and the index of the active one. The index is meaningful
/// only while the list is non-empty.
#[derive(Debug, Clone, PartialEq, Eq)]
pub struct KeyboardLayouts {
    pub names: Vec<String>,
    pub current_idx: usize,
}

impl KeyboardLayouts {
    /// The layout names as character sequences.
    pub open spec fn names_view(&self) -> Seq<Seq<char>> {
        self.names.deep_view()
    }

    /// The active layout's name, if the index points into the list.
    pub open spec fn current_name_spec(&self) -> Option<Seq<char>> {
        if self.current_idx < self.names_view().len() {
            Some(self.names_view()[self.current_idx as int])
        } else {
            None
        }
    }

    /// An empty snapshot: no names, index zero.
    pub fn new() -> (r: Self)
        ensures
            r.names_view() == Seq::<Seq<char>>::empty(),
            r.current_idx == 0,
    {
        let r = Self { names: Vec::new(), current_idx: 0 };
        proof {
            assert(r.names_view() =~= Seq::<Seq<char>>::empty());
        }
        r
    }

    /// The name of the active layout; `None` when the list is empty or the
    /// index is out of range.
    pub fn current_name(&self) -> (r: Option<&str>)
        ensures
            r matches Some(s) ==> self.current_name_spec() == Some(s@),
            r is None ==> self.current_name_spec() is None,
    {
        if self.current_idx < self.names.len() {
            Some(self.names[self.current_idx].as_str())
        } else {
            None
        }
    }

    pub fn is_empty(&self) -> (r: bool)
        ensures
            r == (self.names_view().len() == 0),
    {
        self.names.len() == 0
    }

    pub fn len(&self) -> (r: usize)
        ensures
            r == self.names_view().len(),
    {
        self.names.len()
    }
}

impl Default for KeyboardLayouts {
    /// Same as `new`: an empty snapshot.
    fn default() -> (r: Self)
        ensures
            r.names_view() == Seq::<Seq<char>>::empty(),
            r.current_idx == 0,
    {
        Self::new()
    }
}

/// A layout change reported by a compositor's event stream.
#[derive(Debug, Clone, PartialEq, Eq)]
pub enum LayoutEvent {
    /// The active layout switched to `name` at position `index`.
    LayoutSwitched { name: String, index: usize },
    /// The whole layout set was replaced.
    LayoutsChanged { layouts: KeyboardLayouts },
}

/// The subsequence of `s` that keeps only the first occurrence of each value,
/// in order of first appearance.
pub open spec fn dedup_first(s: Seq<Seq<char>>) -> Seq<Seq<char>>
    decreases s.len(),
{
    if s.len() == 0 {
        s
    } else {
        let d = dedup_first(s.drop_last());
        if s.drop_last().contains(s.last()) {
            d
        } else {
            d.push(s.last())
        }
    }
}

/// Deduplication neither loses nor invents values.
pub proof fn lemma_dedup_first_membership(s: Seq<Seq<char>>, x: Seq<char>)
    ensures
        dedup_first(s).contains(x) == s.contains(x),
    decreases s.len(),
{
    if s.len() > 0 {
        let t = s.drop_last();
        lemma_dedup_first_membership(t, x);
        let d = dedup_first(t);
        assert(s.contains(x) == (t.contains(x) || x == s.last())) by {
            if t.contains(x) {
                let i = choose|i: int| 0 <= i < t.len() && t[i] == x;
                assert(s[i] == x);
            }
            if x == s.last() {
                assert(s[s.len() - 1] == x);
            }
            if s.contains(x) {
                let i = choose|i: int| 0 <= i < s.len() && s[i] == x;
                if i < s.len() - 1 {
                    assert(t[i] == x);
                }
            }
        }
        if !t.contains(s.last()) {
            assert(d.push(s.last()).contains(x) == (d.contains(x) || x == s.last())) by {
                if d.contains(x) {
                    let i = choose|i: int| 0 <= i < d.len() && d[i] == x;
                    assert(d.push(s.last())[i] == x);
                }
                if x == s.last() {
                    assert(d.push(s.last())[d.len() as int] == x);
                }
                if d.push(s.last()).contains(x) {
                    let i = choose|i: int|
                        0 <= i < d.push(s.last()).len() && d.push(s.last())[i] == x;
                    if i < d.len() {
                        assert(d[i] == x);
                    }
                }
            }
        }
    }
}

/// Deduplication keeps a non-empty list non-empty.
pub proof fn lemma_dedup_first_len(s: Seq<Seq<char>>)
    ensures
        s.len() > 0 ==> dedup_first(s).len() > 0,
    decreases s.len(),
{
    if s.len() > 0 {
        let t = s.drop_last();
        if t.contains(s.last()) {
            let i = choose|i: int| 0 <= i < t.len() && t[i] == s.last();
            assert(t.len() > 0);
            lemma_dedup_first_len(t);
        }
    }
}

/// Position of the first occurrence of `x` in `s`.
pub open spec fn first_index_of(s: Seq<Seq<char>>, x: Seq<char>) -> int
    decreases s.len(),
{
    if s.len() == 0 {
        0
    } else if s[0] == x {
        0
    } else {
        1 + first_index_of(s.drop_first(), x)
    }
}

proof fn lemma_first_index_bound(s: Seq<Seq<char>>, x: Seq<char>)
    requires
        s.contains(x),
    ensures
        0 <= first_index_of(s, x) < s.len(),
        s[first_index_of(s, x)] == x,
    decreases s.len(),
{
    if s[0] != x {
        let i = choose|i: int| 0 <= i < s.len() && s[i] == x;
        assert(s.drop_first()[i - 1] == x);
        lemma_first_index_bound(s.drop_first(), x);
    }
}

proof fn lemma_first_index_snoc(s: Seq<Seq<char>>, y: Seq<char>, x: Seq<char>)
    requires
        s.contains(x),
    ensures
        first_index_of(s.push(y), x) == first_index_of(s, x),
    decreases s.len(),
{
    if s[0] == x {
        assert(s.push(y)[0] == x);
    } else {
        assert(s.push(y)[0] == s[0]);
        let i = choose|i: int| 0 <= i < s.len() && s[i] == x;
        assert(s.drop_first()[i - 1] == x);
        lemma_first_index_snoc(s.drop_first(), y, x);
        assert(s.push(y).drop_first() =~= s.drop_first().push(y));
    }
}

proof fn lemma_first_index_snoc_new(s: Seq<Seq<char>>, x: Seq<char>)
    requires
        !s.contains(x),
    ensures
        first_index_of(s.push(x), x) == s.len(),
    decreases s.len(),
{
    if s.len() == 0 {
        assert(s.push(x)[0] == x);
    } else {
        assert(s.push(x)[0] == s[0]);
        assert(s[0] != x);
        assert(!s.drop_first().contains(x)) by {
            if s.drop_first().contains(x) {
                let i = choose|i: int| 0 <= i < s.drop_first().len() && s.drop_first()[i] == x;
                assert(s[i + 1] == x);
            }
        }
        lemma_first_index_snoc_new(s.drop_first(), x);
        assert(s.push(x).drop_first() =~= s.drop_first().push(x));
    }
}

/// Every pair of distinct entries of the deduplicated list differs, each entry
/// occurs in the source, and the entries are ordered by first appearance in
/// the source. This is the guarantee the protocol parsers give for the layout
/// lists they build.
pub proof fn lemma_dedup_first_seen_order(s: Seq<Seq<char>>)
    ensures
        forall|i: int, j: int|
            0 <= i < j < dedup_first(s).len() ==> dedup_first(s)[i] != dedup_first(s)[j],
        forall|i: int| 0 <= i < dedup_first(s).len() ==> s.contains(#[trigger] dedup_first(s)[i]),
        forall|i: int, j: int|
            0 <= i < j < dedup_first(s).len() ==> first_index_of(s, dedup_first(s)[i])
                < first_index_of(s, dedup_first(s)[j]),
    decreases s.len(),
{
    if s.len() > 0 {
        let t = s.drop_last();
        let d = dedup_first(t);
        lemma_dedup_first_seen_order(t);
        assert(forall|i: int| 0 <= i < t.len() ==> t[i] == s[i]);
        assert(forall|x: Seq<char>| t.contains(x) ==> s.contains(x)) by {
            assert forall|x: Seq<char>| t.contains(x) implies s.contains(x) by {
                let i = choose|i: int| 0 <= i < t.len() && t[i] == x;
                assert(s[i] == x);
            }
        }
        assert forall|i: int| 0 <= i < d.len() implies first_index_of(s, d[i]) == first_index_of(
            t,
            d[i],
        ) && first_index_of(s, d[i]) < t.len() by {
            lemma_first_index_bound(t, d[i]);
            lemma_first_index_snoc(t, s.last(), d[i]);
            assert(t.push(s.last()) =~= s);
        }
        if !t.contains(s.last()) {
            lemma_dedup_first_membership(t, s.last());
            assert(!d.contains(s.last()));
            assert(forall|i: int| 0 <= i < d.len() ==> #[trigger] d[i] != s.last()) by {
                assert forall|i: int| 0 <= i < d.len() implies d[i] != s.last() by {
                    if d[i] == s.last() {
                        assert(d.contains(s.last()));
                    }
                }
            }
            assert(first_index_of(s, s.last()) == t.len()) by {
                lemma_first_index_snoc_new(t, s.last());
                assert(t.push(s.last()) =~= s);
            }
            assert(s.contains(s.last())) by {
                assert(s[s.len() - 1] == s.last());
            }
            assert(forall|i: int| 0 <= i < dedup_first(s).len() ==> s.contains(
                #[trigger] dedup_first(s)[i],
            )) by {
                assert(forall|i: int| 0 <= i < d.len() ==> dedup_first(s)[i] == d[i]);
                assert(dedup_first(s)[d.len() as int] == s.last());
            }
        }
    }
}

/// Append `name` to the list unless an equal name is already present;
/// preserves exactly the `dedup_first` step for one more raw value.
pub fn push_if_new(names: &mut Vec<String>, name: &Vec<char>)
    ensures
        final(names).deep_view() == if old(names).deep_view().contains(name@) {
            old(names).deep_view()
        } else {
            old(names).deep_view().push(name@)
        },
{
    let ghost orig = names.deep_view();
    let n = names.len();
    let mut i: usize = 0;
    while i < n
        invariant
            i <= n,
            n == names@.len(),
            names.deep_view() == orig,
            forall|k: int| 0 <= k < i ==> orig[k] != name@,
        decreases n - i,
    {
        assert(names.deep_view()[i as int] == names@[i as int]@);
        if chars_eq_str(name, names[i].as_str()) {
            assert(orig.contains(name@)) by {
                assert(orig[i as int] == name@);
            }
            return ;
        }
        i += 1;
    }
    assert(!orig.contains(name@));
    let s = crate::text::chars_to_string(name);
    names.push(s);
    assert(names.deep_view() =~= orig.push(name@));
}

} // verus!
