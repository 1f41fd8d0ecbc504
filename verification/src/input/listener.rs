//! Listener state: classification of raw device events into key events, the
//! per-device tracked set of held keys, and stuck-key reconciliation against
//! the device's authoritative key state.

use vstd::prelude::*;

use crate::input::keymap::{key_name_spec, Key, KeyDisplay};

verus! {

/// A key event as handed from the capture listeners to the consumer.
#[derive(Debug, Clone)]
pub enum KeyEvent {
    Pressed(KeyDisplay),
    Released(KeyDisplay),
    AllReleased,
}

/// The shape of a key event: what it says, apart from its display text.
#[derive(Debug, Clone, Copy, PartialEq, Eq, Structural)]
pub enum EventShape {
    Press(Key, bool),
    Release(Key),
    AllClear,
}

/// The shape of one event.
pub open spec fn shape_of(ev: KeyEvent) -> EventShape {
    match ev {
        KeyEvent::Pressed(kd) => EventShape::Press(kd.key, kd.is_repeat),
        KeyEvent::Released(kd) => EventShape::Release(kd.key),
        KeyEvent::AllReleased => EventShape::AllClear,
    }
}

/// The shapes of a sequence of events.
pub open spec fn shapes_of(evs: Seq<KeyEvent>) -> Seq<EventShape> {
    evs.map_values(|ev: KeyEvent| shape_of(ev))
}

/// A well-formed event: its display text belongs to its key, and its press
/// flag matches its variant.
pub open spec fn event_wf(ev: KeyEvent) -> bool {
    match ev {
        KeyEvent::Pressed(kd) => kd.pressed && kd.display_name@ == key_name_spec(kd.key),
        KeyEvent::Released(kd) => !kd.pressed && !kd.is_repeat && kd.display_name@ == key_name_spec(
            kd.key,
        ),
        KeyEvent::AllReleased => true,
    }
}

/// Configuration of the capture listener: whether to capture every keyboard
/// or only the first, and which keys to ignore outright.
#[derive(Debug, Clone)]
pub struct ListenerConfig {
    pub all_keyboards: bool,
    pub ignored_keys: Vec<Key>,
}

impl Default for ListenerConfig {
    /// Capture all keyboards and ignore nothing.
    fn default() -> (r: Self)
        ensures
            r.all_keyboards,
            r.ignored_keys@ == Seq::<Key>::empty(),
    {
        let r = ListenerConfig { all_keyboards: true, ignored_keys: Vec::new() };
        proof {
            assert(r.ignored_keys@ =~= Seq::<Key>::empty());
        }
        r
    }
}

/// A raw key event fetched from a device: the key and the kernel event value
/// (zero for release, one for press, two for auto-repeat).
#[derive(Debug, Clone, Copy)]
pub struct RawKeyEvent {
    pub key: Key,
    pub value: i32,
}

/// No key occurs twice.
pub open spec fn distinct_keys(s: Seq<Key>) -> bool {
    forall|i: int, j: int| 0 <= i < j < s.len() ==> s[i] != s[j]
}

/// `s` with `k` appended unless already present.
pub open spec fn insert_key(s: Seq<Key>, k: Key) -> Seq<Key> {
    if s.contains(k) {
        s
    } else {
        s.push(k)
    }
}

/// `s` with every occurrence of `k` removed, order kept.
pub open spec fn without_key(s: Seq<Key>, k: Key) -> Seq<Key>
    decreases s.len(),
{
    if s.len() == 0 {
        s
    } else {
        let r = without_key(s.drop_last(), k);
        if s.last() == k {
            r
        } else {
            r.push(s.last())
        }
    }
}

/// Removal keeps distinctness and removes exactly `k`.
pub proof fn lemma_without_key(s: Seq<Key>, k: Key)
    ensures
        distinct_keys(s) ==> distinct_keys(without_key(s, k)),
        forall|x: Key| #[trigger] without_key(s, k).contains(x) == (s.contains(x) && x != k),
    decreases s.len(),
{
    if s.len() > 0 {
        let t = s.drop_last();
        lemma_without_key(t, k);
        let r = without_key(t, k);
        assert forall|x: Key| #[trigger] without_key(s, k).contains(x) == (s.contains(x) && x
            != k) by {
            assert(r.contains(x) == (t.contains(x) && x != k));
            if t.contains(x) {
                let i = choose|i: int| 0 <= i < t.len() && t[i] == x;
                assert(s[i] == x);
            }
            if x == s.last() {
                assert(s[s.len() - 1] == x);
            }
            if s.contains(x) {
                let i = choose|i: int| 0 <= i < s.len() && s[i] == x;
                if i < s.len() - 1 {
                    assert(t[i] == x);
                }
            }
            if s.last() == k {
                assert(without_key(s, k) == r);
            } else {
                assert(without_key(s, k) == r.push(s.last()));
                if r.contains(x) {
                    let i = choose|i: int| 0 <= i < r.len() && r[i] == x;
                    assert(r.push(s.last())[i] == x);
                }
                if x == s.last() {
                    assert(r.push(s.last())[r.len() as int] == x);
                }
                if r.push(s.last()).contains(x) {
                    let i = choose|i: int| 0 <= i < r.len() + 1 && r.push(s.last())[i] == x;
                    if i < r.len() {
                        assert(r[i] == x);
                    }
                }
            }
        }
        if distinct_keys(s) && s.last() != k {
            assert(distinct_keys(t));
            assert(!t.contains(s.last())) by {
                if t.contains(s.last()) {
                    let i = choose|i: int| 0 <= i < t.len() && t[i] == s.last();
                    assert(s[i] == s[s.len() - 1]);
                }
            }
            assert(!r.contains(s.last()));
            assert(without_key(s, k) == r.push(s.last()));
            assert forall|i: int, j: int|
                0 <= i < j < r.push(s.last()).len() implies r.push(s.last())[i] != r.push(
                s.last(),
            )[j] by {
                if j < r.len() {
                    assert(r[i] != r[j]);
                } else {
                    assert(r.push(s.last())[j] == s.last());
                    assert(r.push(s.last())[i] == r[i]);
                    if r[i] == s.last() {
                        assert(r.contains(s.last()));
                    }
                }
            }
        }
    }
}

/// Insertion keeps distinctness and adds exactly `k`.
pub proof fn lemma_insert_key(s: Seq<Key>, k: Key)
    ensures
        distinct_keys(s) ==> distinct_keys(insert_key(s, k)),
        forall|x: Key| insert_key(s, k).contains(x) == (s.contains(x) || x == k),
{
    if !s.contains(k) {
        assert forall|x: Key| s.push(k).contains(x) == (s.contains(x) || x == k) by {
            if s.contains(x) {
                let i = choose|i: int| 0 <= i < s.len() && s[i] == x;
                assert(s.push(k)[i] == x);
            }
            if x == k {
                assert(s.push(k)[s.len() as int] == x);
            }
            if s.push(k).contains(x) {
                let i = choose|i: int| 0 <= i < s.len() + 1 && s.push(k)[i] == x;
                if i < s.len() {
                    assert(s[i] == x);
                }
            }
        }
        if distinct_keys(s) {
            assert forall|i: int, j: int|
                0 <= i < j < s.push(k).len() implies s.push(k)[i] != s.push(k)[j] by {
                if j < s.len() {
                    assert(s[i] != s[j]);
                } else {
                    assert(s.push(k)[j] == k);
                    assert(s.push(k)[i] == s[i]);
                    if s[i] == k {
                        assert(s.contains(k));
                    }
                }
            }
        }
    }
}

/// The set of keys one device worker currently believes held. Its list holds
/// each key at most once.
#[derive(Debug, Clone)]
pub struct PressedKeys {
    keys: Vec<Key>,
}

impl PressedKeys {
    /// The tracked keys, in insertion order.
    pub closed spec fn keys_seq(&self) -> Seq<Key> {
        self.keys@
    }

    /// The list holds no key twice.
    pub closed spec fn wf(&self) -> bool {
        distinct_keys(self.keys@)
    }

    /// An empty tracked set.
    pub fn new() -> (r: Self)
        ensures
            r.wf(),
            r.keys_seq() == Seq::<Key>::empty(),
    {
        let r = PressedKeys { keys: Vec::new() };
        proof {
            assert(r.keys_seq() =~= Seq::<Key>::empty());
        }
        r
    }

    /// Whether `k` is currently believed held.
    pub fn contains(&self, k: Key) -> (r: bool)
        ensures
            r == self.keys_seq().contains(k),
    {
        contains_key(&self.keys, k)
    }

    /// How many keys are believed held.
    pub fn len(&self) -> (r: usize)
        ensures
            r == self.keys_seq().len(),
    {
        self.keys.len()
    }

    /// Track `k` as held.
    pub fn insert(&mut self, k: Key)
        requires
            old(self).wf(),
        ensures
            final(self).wf(),
            final(self).keys_seq() == insert_key(old(self).keys_seq(), k),
    {
        proof {
            lemma_insert_key(self.keys@, k);
        }
        if !contains_key(&self.keys, k) {
            self.keys.push(k);
        }
    }

    /// Stop tracking `k`.
    pub fn remove(&mut self, k: Key)
        requires
            old(self).wf(),
        ensures
            final(self).wf(),
            final(self).keys_seq() == without_key(old(self).keys_seq(), k),
    {
        proof {
            lemma_without_key(self.keys@, k);
        }
        let ghost orig = self.keys@;
        let n = self.keys.len();
        let mut kept: Vec<Key> = Vec::new();
        let mut i: usize = 0;
        proof {
            assert(orig.subrange(0, 0) =~= Seq::<Key>::empty());
        }
        while i < n
            invariant
                i <= n,
                n == orig.len(),
                self.keys@ == orig,
                kept@ == without_key(orig.subrange(0, i as int), k),
            decreases n - i,
        {
            proof {
                assert(orig.subrange(0, i + 1).drop_last() =~= orig.subrange(0, i as int));
                assert(orig.subrange(0, i + 1).last() == orig[i as int]);
            }
            let key = self.keys[i];
            if key == k {
            } else {
                kept.push(key);
            }
            i += 1;
        }
        proof {
            assert(orig.subrange(0, n as int) =~= orig);
        }
        self.keys = kept;
    }
}

/// Whether `v` holds `k`.
fn contains_key(v: &Vec<Key>, k: Key) -> (r: bool)
    ensures
        r == v@.contains(k),
{
    let n = v.len();
    let mut i: usize = 0;
    while i < n
        invariant
            i <= n,
            n == v@.len(),
            forall|j: int| 0 <= j < i ==> v@[j] != k,
        decreases n - i,
    {
        if v[i] == k {
            assert(v@[i as int] == k);
            return true;
        }
        i += 1;
    }
    assert(!v@.contains(k));
    false
}

/// The shapes a batch of raw events emits: ignored keys are dropped, value
/// one is a press, zero a release, two an auto-repeat press; any other value
/// is dropped.
pub open spec fn emitted_shapes(evs: Seq<RawKeyEvent>, ignored: Seq<Key>) -> Seq<EventShape>
    decreases evs.len(),
{
    if evs.len() == 0 {
        Seq::empty()
    } else {
        let rest = emitted_shapes(evs.drop_last(), ignored);
        let e = evs.last();
        if ignored.contains(e.key) {
            rest
        } else if e.value == 1 {
            rest.push(EventShape::Press(e.key, false))
        } else if e.value == 0 {
            rest.push(EventShape::Release(e.key))
        } else if e.value == 2 {
            rest.push(EventShape::Press(e.key, true))
        } else {
            rest
        }
    }
}

/// The tracked set after a batch: presses insert, releases remove, repeats
/// and ignored or unclassified events leave it alone.
pub open spec fn tracked_after(s: Seq<Key>, evs: Seq<RawKeyEvent>, ignored: Seq<Key>) -> Seq<Key>
    decreases evs.len(),
{
    if evs.len() == 0 {
        s
    } else {
        let prev = tracked_after(s, evs.drop_last(), ignored);
        let e = evs.last();
        if ignored.contains(e.key) {
            prev
        } else if e.value == 1 {
            insert_key(prev, e.key)
        } else if e.value == 0 {
            without_key(prev, e.key)
        } else {
            prev
        }
    }
}

/// Whether any event of the batch touches a non-ignored key.
pub open spec fn any_key(evs: Seq<RawKeyEvent>, ignored: Seq<Key>) -> bool
    decreases evs.len(),
{
    if evs.len() == 0 {
        false
    } else {
        any_key(evs.drop_last(), ignored) || !ignored.contains(evs.last().key)
    }
}

/// Classify one batch of raw device events against the tracked set: ignored
/// keys are skipped; value one presses the key and tracks it, zero releases
/// and untracks it, two is an auto-repeat press that leaves tracking alone.
/// Returns the events to hand on and whether any non-ignored key was seen.
pub fn process_raw_events(
    pressed: &mut PressedKeys,
    ignored: &Vec<Key>,
    events: &Vec<RawKeyEvent>,
) -> (r: (Vec<KeyEvent>, bool))
    requires
        old(pressed).wf(),
    ensures
        final(pressed).wf(),
        final(pressed).keys_seq() == tracked_after(old(pressed).keys_seq(), events@, ignored@),
        shapes_of(r.0@) == emitted_shapes(events@, ignored@),
        forall|i: int| 0 <= i < r.0@.len() ==> event_wf(#[trigger] r.0@[i]),
        r.1 == any_key(events@, ignored@),
{
    let ghost s0 = pressed.keys_seq();
    let n = events.len();
    let mut out: Vec<KeyEvent> = Vec::new();
    let mut activity = false;
    let mut i: usize = 0;
    proof {
        assert(events@.subrange(0, 0) =~= Seq::<RawKeyEvent>::empty());
        assert(shapes_of(out@) =~= emitted_shapes(events@.subrange(0, 0), ignored@));
    }
    while i < n
        invariant
            i <= n,
            n == events@.len(),
            pressed.wf(),
            pressed.keys_seq() == tracked_after(s0, events@.subrange(0, i as int), ignored@),
            shapes_of(out@) == emitted_shapes(events@.subrange(0, i as int), ignored@),
            forall|j: int| 0 <= j < out@.len() ==> event_wf(#[trigger] out@[j]),
            activity == any_key(events@.subrange(0, i as int), ignored@),
        decreases n - i,
    {
        proof {
            assert(events@.subrange(0, i + 1).drop_last() =~= events@.subrange(0, i as int));
            assert(events@.subrange(0, i + 1).last() == events@[i as int]);
        }
        let e = events[i];
        let ghost g_out = out@;
        if !contains_key(ignored, e.key) {
            activity = true;
            if e.value == 1 {
                pressed.insert(e.key);
                out.push(KeyEvent::Pressed(KeyDisplay::new(e.key, true)));
            } else if e.value == 0 {
                pressed.remove(e.key);
                out.push(KeyEvent::Released(KeyDisplay::new(e.key, false)));
            } else if e.value == 2 {
                out.push(KeyEvent::Pressed(KeyDisplay::new_repeat(e.key)));
            }
        }
        proof {
            if out@.len() > g_out.len() {
                assert(shapes_of(out@) =~= shapes_of(g_out).push(shape_of(out@.last())));
            } else {
                assert(shapes_of(out@) =~= shapes_of(g_out));
            }
        }
        i += 1;
    }
    proof {
        assert(events@.subrange(0, n as int) =~= events@);
    }
    (out, activity)
}

/// The tracked keys the device still reports, in order.
pub open spec fn retained_keys(s: Seq<Key>, actual: Seq<Key>) -> Seq<Key>
    decreases s.len(),
{
    if s.len() == 0 {
        s
    } else {
        let r = retained_keys(s.drop_last(), actual);
        if actual.contains(s.last()) {
            r.push(s.last())
        } else {
            r
        }
    }
}

/// One release shape for each tracked key the device no longer reports.
pub open spec fn released_shapes(s: Seq<Key>, actual: Seq<Key>) -> Seq<EventShape>
    decreases s.len(),
{
    if s.len() == 0 {
        Seq::empty()
    } else {
        let r = released_shapes(s.drop_last(), actual);
        if actual.contains(s.last()) {
            r
        } else {
            r.push(EventShape::Release(s.last()))
        }
    }
}

impl PressedKeys {
    /// Stuck-key reconciliation: every tracked key the device no longer
    /// reports is dropped from the tracked set, and one synthesized release
    /// event is returned for it; keys the device still reports stay tracked.
    pub fn reconcile(&mut self, actual: &Vec<Key>) -> (evs: Vec<KeyEvent>)
        requires
            old(self).wf(),
        ensures
            final(self).wf(),
            final(self).keys_seq() == retained_keys(old(self).keys_seq(), actual@),
            shapes_of(evs@) == released_shapes(old(self).keys_seq(), actual@),
            forall|i: int| 0 <= i < evs@.len() ==> event_wf(#[trigger] evs@[i]),
    {
        let ghost orig = self.keys@;
        let n = self.keys.len();
        let mut kept: Vec<Key> = Vec::new();
        let mut evs: Vec<KeyEvent> = Vec::new();
        let mut i: usize = 0;
        proof {
            assert(orig.subrange(0, 0) =~= Seq::<Key>::empty());
            assert(kept@ =~= retained_keys(orig.subrange(0, 0), actual@));
            assert(shapes_of(evs@) =~= released_shapes(orig.subrange(0, 0), actual@));
        }
        while i < n
            invariant
                i <= n,
                n == orig.len(),
                self.keys@ == orig,
                kept@ == retained_keys(orig.subrange(0, i as int), actual@),
                shapes_of(evs@) == released_shapes(orig.subrange(0, i as int), actual@),
                forall|j: int| 0 <= j < evs@.len() ==> event_wf(#[trigger] evs@[j]),
            decreases n - i,
        {
            proof {
                assert(orig.subrange(0, i + 1).drop_last() =~= orig.subrange(0, i as int));
                assert(orig.subrange(0, i + 1).last() == orig[i as int]);
            }
            let key = self.keys[i];
            let ghost g_evs = evs@;
            if contains_key(actual, key) {
                kept.push(key);
            } else {
                evs.push(KeyEvent::Released(KeyDisplay::new(key, false)));
                proof {
                    assert(shapes_of(evs@) =~= shapes_of(g_evs).push(shape_of(evs@.last())));
                }
            }
            i += 1;
        }
        proof {
            assert(orig.subrange(0, n as int) =~= orig);
            lemma_retained_distinct(orig, actual@);
        }
        self.keys = kept;
        evs
    }
}

/// Reconciliation keeps the tracked list duplicate-free.
proof fn lemma_retained_distinct(s: Seq<Key>, actual: Seq<Key>)
    ensures
        distinct_keys(s) ==> distinct_keys(retained_keys(s, actual)),
        forall|x: Key| #[trigger] retained_keys(s, actual).contains(x) == (s.contains(x)
            && actual.contains(x)),
    decreases s.len(),
{
    if s.len() > 0 {
        let t = s.drop_last();
        lemma_retained_distinct(t, actual);
        let r = retained_keys(t, actual);
        assert forall|x: Key| #[trigger] retained_keys(s, actual).contains(x) == (s.contains(x)
            && actual.contains(x)) by {
            assert(r.contains(x) == (t.contains(x) && actual.contains(x)));
            if t.contains(x) {
                let i = choose|i: int| 0 <= i < t.len() && t[i] == x;
                assert(s[i] == x);
            }
            if x == s.last() {
                assert(s[s.len() - 1] == x);
            }
            if s.contains(x) {
                let i = choose|i: int| 0 <= i < s.len() && s[i] == x;
                if i < s.len() - 1 {
                    assert(t[i] == x);
                }
            }
            if actual.contains(s.last()) {
                assert(retained_keys(s, actual) == r.push(s.last()));
                if r.contains(x) {
                    let i = choose|i: int| 0 <= i < r.len() && r[i] == x;
                    assert(r.push(s.last())[i] == x);
                }
                if x == s.last() {
                    assert(r.push(s.last())[r.len() as int] == x);
                }
                if r.push(s.last()).contains(x) {
                    let i = choose|i: int| 0 <= i < r.len() + 1 && r.push(s.last())[i] == x;
                    if i < r.len() {
                        assert(r[i] == x);
                    }
                }
            } else {
                assert(retained_keys(s, actual) == r);
            }
        }
        if distinct_keys(s) && actual.contains(s.last()) {
            assert(distinct_keys(t));
            assert(!t.contains(s.last())) by {
                if t.contains(s.last()) {
                    let i = choose|i: int| 0 <= i < t.len() && t[i] == s.last();
                    assert(s[i] == s[s.len() - 1]);
                }
            }
            assert(!r.contains(s.last()));
            assert(retained_keys(s, actual) == r.push(s.last()));
            assert forall|i: int, j: int|
                0 <= i < j < r.push(s.last()).len() implies r.push(s.last())[i] != r.push(
                s.last(),
            )[j] by {
                if j < r.len() {
                    assert(r[i] != r[j]);
                } else {
                    assert(r.push(s.last())[j] == s.last());
                    assert(r.push(s.last())[i] == r[i]);
                    if r[i] == s.last() {
                        assert(r.contains(s.last()));
                    }
                }
            }
        }
    }
}

/// How many release shapes for `k` a shape sequence holds.
pub open spec fn release_count(shapes: Seq<EventShape>, k: Key) -> int
    decreases shapes.len(),
{
    if shapes.len() == 0 {
        0
    } else {
        release_count(shapes.drop_last(), k) + if shapes.last() == EventShape::Release(k) {
            1int
        } else {
            0int
        }
    }
}

proof fn lemma_release_count_absent(s: Seq<Key>, actual: Seq<Key>, k: Key)
    requires
        !s.contains(k),
    ensures
        release_count(released_shapes(s, actual), k) == 0,
    decreases s.len(),
{
    if s.len() > 0 {
        let t = s.drop_last();
        assert(!t.contains(k)) by {
            if t.contains(k) {
                let i = choose|i: int| 0 <= i < t.len() && t[i] == k;
                assert(s[i] == k);
            }
        }
        lemma_release_count_absent(t, actual, k);
        assert(s.last() != k) by {
            if s.last() == k {
                assert(s[s.len() - 1] == k);
            }
        }
        if !actual.contains(s.last()) {
            let r = released_shapes(t, actual);
            assert(r.push(EventShape::Release(s.last())).drop_last() =~= r);
        }
    }
}

/// Stuck-key detection: when the tracked set holds `k` without duplicates
/// and the device's authoritative state no longer reports `k`, reconciling
/// synthesizes exactly one release of `k` and drops `k` from the tracked
/// set.
pub proof fn lemma_stuck_key_reconciliation(s: Seq<Key>, actual: Seq<Key>, k: Key)
    requires
        distinct_keys(s),
        s.contains(k),
        !actual.contains(k),
    ensures
        !retained_keys(s, actual).contains(k),
        release_count(released_shapes(s, actual), k) == 1,
    decreases s.len(),
{
    lemma_retained_distinct(s, actual);
    let t = s.drop_last();
    assert(distinct_keys(t));
    if s.last() == k {
        assert(!t.contains(k)) by {
            if t.contains(k) {
                let i = choose|i: int| 0 <= i < t.len() && t[i] == k;
                assert(s[i] == s[s.len() - 1]);
            }
        }
        lemma_release_count_absent(t, actual, k);
        let r = released_shapes(t, actual);
        assert(r.push(EventShape::Release(k)).drop_last() =~= r);
        assert(r.push(EventShape::Release(k)).last() == EventShape::Release(k));
    } else {
        assert(t.contains(k)) by {
            let i = choose|i: int| 0 <= i < s.len() && s[i] == k;
            assert(i < s.len() - 1);
            assert(t[i] == k);
        }
        lemma_stuck_key_reconciliation(t, actual, k);
        let r = released_shapes(t, actual);
        if !actual.contains(s.last()) {
            assert(r.push(EventShape::Release(s.last())).drop_last() =~= r);
            assert(EventShape::Release(s.last()) != EventShape::Release(k));
        }
    }
}

} // verus!
