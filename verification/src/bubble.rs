//! Bubble-mode translation state: command-modifier tracking, the keys the
//! bubble ignores, the press-depth tracker that guards against early key
//! release, and the decision that turns a key plus its keymap text into
//! bubble input.

use vstd::prelude::*;

use crate::input::keymap::Key;

verus! {

/// What a key contributes to the bubble text.
#[derive(Debug, Clone, Copy, PartialEq, Eq, Structural)]
pub enum BubbleInput {
    Char(char),
    Backspace,
    NewLine,
}

/// The held command modifiers: ctrl, alt and the logo key. Shift is not a
/// command modifier; it is left to the keymap state.
#[derive(Debug, Clone, Copy, PartialEq, Eq, Structural)]
pub struct ModifierState {
    pub ctrl: bool,
    pub alt: bool,
    pub super_key: bool,
}

impl Default for ModifierState {
    /// Nothing held.
    fn default() -> (r: Self)
        ensures
            !r.ctrl && !r.alt && !r.super_key,
    {
        ModifierState { ctrl: false, alt: false, super_key: false }
    }
}

/// The modifier state after one key transition.
pub open spec fn modifier_update_spec(m: ModifierState, key: Key, pressed: bool) -> ModifierState {
    if key is LeftCtrl || key is RightCtrl {
        ModifierState { ctrl: pressed, ..m }
    } else if key is LeftAlt || key is RightAlt {
        ModifierState { alt: pressed, ..m }
    } else if key is LeftMeta || key is RightMeta {
        ModifierState { super_key: pressed, ..m }
    } else {
        m
    }
}

impl ModifierState {
    /// Record one key transition; keys that are no command modifier leave
    /// the state alone.
    pub fn update(&mut self, key: Key, pressed: bool)
        ensures
            *final(self) == modifier_update_spec(*old(self), key, pressed),
    {
        match key {
            Key::LeftCtrl | Key::RightCtrl => self.ctrl = pressed,
            Key::LeftAlt | Key::RightAlt => self.alt = pressed,
            Key::LeftMeta | Key::RightMeta => self.super_key = pressed,
            _ => {},
        }
    }

    /// Whether a command modifier is held, gating shortcut keystrokes from
    /// ordinary text.
    pub fn has_command_modifier(&self) -> (r: bool)
        ensures
            r == (self.ctrl || self.alt || self.super_key),
    {
        self.ctrl || self.alt || self.super_key
    }
}

/// The right-hand instance of each command modifier changes the state
/// exactly as the left-hand instance does.
pub proof fn lemma_modifier_hands_interchangeable(m: ModifierState, pressed: bool)
    ensures
        modifier_update_spec(m, Key::RightCtrl, pressed) == modifier_update_spec(
            m,
            Key::LeftCtrl,
            pressed,
        ),
        modifier_update_spec(m, Key::RightAlt, pressed) == modifier_update_spec(
            m,
            Key::LeftAlt,
            pressed,
        ),
        modifier_update_spec(m, Key::RightMeta, pressed) == modifier_update_spec(
            m,
            Key::LeftMeta,
            pressed,
        ),
{
}

/// The modifier keys, both hands of each.
pub fn is_modifier_key(key: Key) -> (r: bool)
    ensures
        r == crate::input::keymap::is_modifier_spec(key),
{
    crate::input::keymap::is_modifier(key)
}

/// The keys the bubble never renders: modifiers, locks, navigation and
/// function keys.
pub open spec fn is_ignored_key_spec(key: Key) -> bool {
    ||| crate::input::keymap::is_modifier_spec(key)
    ||| key is CapsLock
    ||| key is NumLock
    ||| key is ScrollLock
    ||| key is Fn
    ||| key is Esc
    ||| key is Insert
    ||| key is Home
    ||| key is End
    ||| key is PageUp
    ||| key is PageDown
    ||| key is Up
    ||| key is Down
    ||| key is Left
    ||| key is Right
    ||| key is Print
    ||| key is Pause
    ||| key is F1
    ||| key is F2
    ||| key is F3
    ||| key is F4
    ||| key is F5
    ||| key is F6
    ||| key is F7
    ||| key is F8
    ||| key is F9
    ||| key is F10
    ||| key is F11
    ||| key is F12
}

/// Whether the bubble ignores the key outright.
pub fn is_ignored_key(key: Key) -> (r: bool)
    ensures
        r == is_ignored_key_spec(key),
{
    matches!(
        key,
        Key::LeftCtrl | Key::RightCtrl | Key::LeftAlt | Key::RightAlt | Key::LeftMeta
            | Key::RightMeta | Key::LeftShift | Key::RightShift | Key::CapsLock | Key::NumLock
            | Key::ScrollLock | Key::Fn | Key::Esc | Key::Insert | Key::Home | Key::End
            | Key::PageUp | Key::PageDown | Key::Up | Key::Down | Key::Left | Key::Right
            | Key::Print | Key::Pause | Key::F1 | Key::F2 | Key::F3 | Key::F4 | Key::F5 | Key::F6
            | Key::F7 | Key::F8 | Key::F9 | Key::F10 | Key::F11 | Key::F12,
    )
}

/// A control character: the ranges the bubble refuses to render.
pub open spec fn is_control_char(c: char) -> bool {
    (c as u32) < 0x20 || (0x7f <= c as u32 && c as u32 <= 0x9f)
}

/// What bubble input a key produces, given the text the keymap state yields
/// for it: enter keys make a new line; backspace and delete erase; ignored
/// keys and control characters produce nothing; a tab becomes a space; any
/// other first character is taken as it is.
pub open spec fn key_to_char_spec(key: Key, utf8: Option<Seq<char>>) -> Option<BubbleInput> {
    if key is Enter || key is KpEnter {
        Some(BubbleInput::NewLine)
    } else if key is Backspace || key is Delete {
        Some(BubbleInput::Backspace)
    } else if is_ignored_key_spec(key) {
        None
    } else {
        match utf8 {
            None => None,
            Some(s) => if s.len() == 0 {
                None
            } else {
                let c = s[0];
                if is_control_char(c) && c != ' ' && c != '\t' {
                    None
                } else if c == '\t' {
                    Some(BubbleInput::Char(' '))
                } else {
                    Some(BubbleInput::Char(c))
                }
            },
        }
    }
}

/// Decide the bubble input for a key from the text the keymap produced for
/// it (`utf8` is what the keymap state yielded, `None` when it yielded no
/// printable text).
pub fn key_to_char(key: Key, utf8: Option<&str>) -> (r: Option<BubbleInput>)
    ensures
        r == key_to_char_spec(
            key,
            match utf8 {
                Some(s) => Some(s@),
                None => None,
            },
        ),
{
    match key {
        Key::Enter | Key::KpEnter => {
            return Some(BubbleInput::NewLine);
        },
        Key::Backspace | Key::Delete => {
            return Some(BubbleInput::Backspace);
        },
        _ => {},
    }
    if is_ignored_key(key) {
        return None;
    }
    match utf8 {
        None => None,
        Some(s) => {
            if s.is_empty() {
                return None;
            }
            let c = s.get_char(0);
            let u = c as u32;
            if (u < 0x20 || (0x7f <= u && u <= 0x9f)) && c != ' ' && c != '\t' {
                return None;
            }
            if c == '\t' {
                return Some(BubbleInput::Char(' '));
            }
            Some(BubbleInput::Char(c))
        },
    }
}

/// One tracked key with its press depth.
#[derive(Debug, Clone, Copy, PartialEq, Eq, Structural)]
pub struct KeyEntry {
    pub key: Key,
    pub depth: u32,
}

/// No key owns two entries.
pub open spec fn distinct_entry_keys(s: Seq<KeyEntry>) -> bool {
    forall|i: int, j: int| 0 <= i < j < s.len() ==> s[i].key != s[j].key
}

/// The press depth recorded for `k`, zero when untracked.
pub open spec fn depth_in(s: Seq<KeyEntry>, k: Key) -> u32
    decreases s.len(),
{
    if s.len() == 0 {
        0
    } else if s.last().key == k {
        s.last().depth
    } else {
        depth_in(s.drop_last(), k)
    }
}

/// `s` with every entry for `k` removed, order kept.
pub open spec fn without_entry(s: Seq<KeyEntry>, k: Key) -> Seq<KeyEntry>
    decreases s.len(),
{
    if s.len() == 0 {
        s
    } else {
        let r = without_entry(s.drop_last(), k);
        if s.last().key == k {
            r
        } else {
            r.push(s.last())
        }
    }
}

proof fn lemma_without_entry(s: Seq<KeyEntry>, k: Key)
    ensures
        distinct_entry_keys(s) ==> distinct_entry_keys(without_entry(s, k)),
        forall|x: Key| #[trigger] depth_in(without_entry(s, k), x) == if x == k {
            0u32
        } else {
            depth_in(s, x)
        },
        !(exists|i: int| 0 <= i < without_entry(s, k).len() && without_entry(s, k)[i].key == k),
    decreases s.len(),
{
    if s.len() > 0 {
        let t = s.drop_last();
        lemma_without_entry(t, k);
        let r = without_entry(t, k);
        if s.last().key == k {
            assert(without_entry(s, k) == r);
        } else {
            assert(without_entry(s, k) == r.push(s.last()));
            assert forall|x: Key| #[trigger] depth_in(r.push(s.last()), x) == if x == k {
                0u32
            } else {
                depth_in(s, x)
            } by {
                assert(r.push(s.last()).drop_last() =~= r);
                assert(depth_in(r.push(s.last()), x) == if s.last().key == x {
                    s.last().depth
                } else {
                    depth_in(r, x)
                });
                assert(depth_in(s, x) == if s.last().key == x {
                    s.last().depth
                } else {
                    depth_in(t, x)
                });
            }
            assert forall|i: int|
                0 <= i < r.push(s.last()).len() implies r.push(s.last())[i].key != k by {
                if i < r.len() {
                    assert(!(r[i].key == k));
                }
            }
            if distinct_entry_keys(s) {
                assert(distinct_entry_keys(t));
                assert forall|i: int, j: int|
                    0 <= i < j < r.push(s.last()).len() implies r.push(s.last())[i].key != r.push(
                    s.last(),
                )[j].key by {
                    if j < r.len() {
                        assert(r[i].key != r[j].key);
                    } else {
                        assert(r.push(s.last())[j] == s.last());
                        lemma_without_entry_sub(t, k, i);
                    }
                }
            }
        }
    }
}

/// Every entry of the filtered list comes from the unfiltered list, with the
/// relative order of distinct keys preserved by construction.
proof fn lemma_without_entry_sub(s: Seq<KeyEntry>, k: Key, i: int)
    requires
        0 <= i < without_entry(s, k).len(),
        distinct_entry_keys(s),
    ensures
        s.contains(without_entry(s, k)[i]),
    decreases s.len(),
{
    if s.len() > 0 {
        let t = s.drop_last();
        let r = without_entry(t, k);
        assert(distinct_entry_keys(t));
        if s.last().key == k {
            lemma_without_entry_sub(t, k, i);
            let j = choose|j: int| 0 <= j < t.len() && t[j] == without_entry(s, k)[i];
            assert(s[j] == without_entry(s, k)[i]);
        } else {
            if i < r.len() {
                lemma_without_entry_sub(t, k, i);
                let j = choose|j: int| 0 <= j < t.len() && t[j] == without_entry(s, k)[i];
                assert(s[j] == without_entry(s, k)[i]);
            } else {
                assert(without_entry(s, k)[i] == s.last());
                assert(s[s.len() - 1] == s.last());
            }
        }
    }
}

/// The per-key press-depth tracker: it guards against dropping a key's
/// keymap state early when overlapping press events for the same key arrive
/// from several sources.
#[derive(Debug, Clone)]
pub struct KeyPressTracker {
    entries: Vec<KeyEntry>,
}

impl KeyPressTracker {
    /// The tracked entries.
    pub closed spec fn entries_seq(&self) -> Seq<KeyEntry> {
        self.entries@
    }

    /// The recorded press depth of `k`.
    pub open spec fn depth_spec(&self, k: Key) -> u32 {
        depth_in(self.entries_seq(), k)
    }

    /// Each key has at most one entry.
    pub closed spec fn wf(&self) -> bool {
        distinct_entry_keys(self.entries@)
    }

    /// An empty tracker.
    pub fn new() -> (r: Self)
        ensures
            r.wf(),
            forall|x: Key| r.depth_spec(x) == 0u32,
    {
        let r = KeyPressTracker { entries: Vec::new() };
        proof {
            assert(r.entries@ =~= Seq::<KeyEntry>::empty());
        }
        r
    }

    /// The recorded press depth of `k`.
    pub fn depth(&self, k: Key) -> (r: u32)
        requires
            self.wf(),
        ensures
            r == self.depth_spec(k),
    {
        let n = self.entries.len();
        let ghost s = self.entries@;
        let mut i: usize = 0;
        while i < n
            invariant
                i <= n,
                n == s.len(),
                s == self.entries@,
                distinct_entry_keys(s),
                forall|j: int| 0 <= j < i ==> s[j].key != k,
            decreases n - i,
        {
            if self.entries[i].key == k {
                proof {
                    assert forall|j: int| 0 <= j < s.len() && j != i implies s[j].key != k by {
                        if j < i {
                        } else {
                            assert(s[i as int].key != s[j].key);
                        }
                    }
                    lemma_depth_at(s, k, i as int);
                }
                return self.entries[i].depth;
            }
            i += 1;
        }
        proof {
            lemma_depth_absent(s, k);
        }
        0
    }

    /// Remove the entry for `k`, if any.
    fn drop_entry(&mut self, k: Key)
        requires
            old(self).wf(),
        ensures
            final(self).wf(),
            final(self).entries_seq() == without_entry(old(self).entries_seq(), k),
    {
        let ghost orig = self.entries@;
        let n = self.entries.len();
        let mut kept: Vec<KeyEntry> = Vec::new();
        let mut i: usize = 0;
        proof {
            assert(orig.subrange(0, 0) =~= Seq::<KeyEntry>::empty());
            lemma_without_entry(orig, k);
        }
        while i < n
            invariant
                i <= n,
                n == orig.len(),
                self.entries@ == orig,
                kept@ == without_entry(orig.subrange(0, i as int), k),
            decreases n - i,
        {
            proof {
                assert(orig.subrange(0, i + 1).drop_last() =~= orig.subrange(0, i as int));
                assert(orig.subrange(0, i + 1).last() == orig[i as int]);
            }
            let e = self.entries[i];
            if e.key == k {
            } else {
                kept.push(e);
            }
            i += 1;
        }
        proof {
            assert(orig.subrange(0, n as int) =~= orig);
        }
        self.entries = kept;
    }

    /// Record one more press of `k`; the depth saturates rather than wrap.
    pub fn press(&mut self, k: Key)
        requires
            old(self).wf(),
        ensures
            final(self).wf(),
            final(self).depth_spec(k) == if old(self).depth_spec(k) < u32::MAX {
                (old(self).depth_spec(k) + 1) as u32
            } else {
                u32::MAX
            },
            forall|x: Key| x != k ==> final(self).depth_spec(x) == old(self).depth_spec(x),
    {
        let ghost orig = self.entries@;
        let d = self.depth(k);
        proof {
            lemma_without_entry(orig, k);
        }
        self.drop_entry(k);
        let nd: u32 = if d < u32::MAX {
            d + 1
        } else {
            u32::MAX
        };
        let ghost pre = self.entries@;
        self.entries.push(KeyEntry { key: k, depth: nd });
        proof {
            assert(self.entries@.drop_last() =~= pre);
            assert forall|x: Key| x != k implies depth_in(self.entries@, x) == depth_in(
                orig,
                x,
            ) by {
                assert(depth_in(self.entries@, x) == depth_in(pre, x));
                assert(depth_in(pre, x) == depth_in(orig, x));
            }
            assert forall|i: int, j: int|
                0 <= i < j < self.entries@.len() implies self.entries@[i].key
                != self.entries@[j].key by {
                if j < pre.len() {
                    assert(pre[i].key != pre[j].key);
                } else {
                    assert(self.entries@[j].key == k);
                    assert(self.entries@[i] == pre[i]);
                    assert(pre[i].key != k);
                }
            }
        }
    }

    /// Record one release of `k`. Returns whether the key is now fully
    /// released, so the caller should forward the release to the keymap
    /// state; a key that was never tracked forwards immediately.
    pub fn release(&mut self, k: Key) -> (forward: bool)
        requires
            old(self).wf(),
        ensures
            final(self).wf(),
            final(self).depth_spec(k) == if old(self).depth_spec(k) <= 1 {
                0u32
            } else {
                (old(self).depth_spec(k) - 1) as u32
            },
            forall|x: Key| x != k ==> final(self).depth_spec(x) == old(self).depth_spec(x),
            forward == (old(self).depth_spec(k) <= 1),
    {
        let d = self.depth(k);
        if d == 0 {
            return true;
        }
        proof {
            lemma_without_entry(self.entries@, k);
        }
        self.drop_entry(k);
        if d > 1 {
            let ghost pre = self.entries@;
            self.entries.push(KeyEntry { key: k, depth: d - 1 });
            proof {
                assert(self.entries@.drop_last() =~= pre);
                assert forall|x: Key| x != k implies depth_in(self.entries@, x) == depth_in(
                    old(self).entries_seq(),
                    x,
                ) by {
                    assert(depth_in(self.entries@, x) == depth_in(pre, x));
                    assert(depth_in(pre, x) == depth_in(old(self).entries_seq(), x));
                }
                assert forall|i: int, j: int|
                    0 <= i < j < self.entries@.len() implies self.entries@[i].key
                    != self.entries@[j].key by {
                    if j < pre.len() {
                        assert(pre[i].key != pre[j].key);
                    } else {
                        assert(self.entries@[j].key == k);
                        assert(self.entries@[i] == pre[i]);
                        assert(pre[i].key != k);
                    }
                }
            }
            false
        } else {
            true
        }
    }
}

/// The depth of a key found at a position where no later entry shares its
/// key.
proof fn lemma_depth_at(s: Seq<KeyEntry>, k: Key, i: int)
    requires
        0 <= i < s.len(),
        s[i].key == k,
        forall|j: int| 0 <= j < s.len() && j != i ==> s[j].key != k,
    ensures
        depth_in(s, k) == s[i].depth,
    decreases s.len(),
{
    if i == s.len() - 1 {
    } else {
        assert(s.last().key != k);
        let t = s.drop_last();
        assert(t[i] == s[i]);
        lemma_depth_at(t, k, i);
    }
}

proof fn lemma_depth_absent(s: Seq<KeyEntry>, k: Key)
    requires
        forall|j: int| 0 <= j < s.len() ==> s[j].key != k,
    ensures
        depth_in(s, k) == 0,
    decreases s.len(),
{
    if s.len() > 0 {
        let t = s.drop_last();
        assert(forall|j: int| 0 <= j < t.len() ==> t[j] == s[j] && #[trigger] t[j].key != k);
        lemma_depth_absent(t, k);
    }
}

} // verus!
