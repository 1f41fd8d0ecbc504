//! Sway IPC: binary framing in the i3 style. Every message is a 14-byte
//! header — six magic bytes, a little-endian payload length and a
//! little-endian message type — followed by that many payload bytes. The
//! inputs response is JSON scanned for an `"xkb_layout_names"` array, an
//! `"xkb_active_layout_index"` number and an `"xkb_active_layout_name"`
//! string.

use vstd::prelude::*;

use crate::compositor::{contains_sub, dedup_first, push_if_new, KeyboardLayouts};
use crate::text::{
    chars_to_string, extract_number_field, find_char, find_sub, first_char_from, first_match_from,
    lemma_first_char_some, lemma_first_match_some, number_field_spec, str_to_chars, sub_chars,
};

verus! {

/// The six magic bytes every frame starts with: the ASCII text `i3-ipc`.
pub open spec fn magic_bytes() -> Seq<u8> {
    seq![0x69u8, 0x33u8, 0x2du8, 0x69u8, 0x70u8, 0x63u8]
}

/// A 32-bit value as four little-endian bytes.
pub open spec fn le_bytes32(x: u32) -> Seq<u8> {
    seq![
        (x & 0xff) as u8,
        ((x >> 8) & 0xff) as u8,
        ((x >> 16) & 0xff) as u8,
        ((x >> 24) & 0xff) as u8,
    ]
}

/// The value of four little-endian bytes.
pub open spec fn le_val32(b: Seq<u8>) -> int
    recommends
        b.len() == 4,
{
    b[0] + b[1] * 0x100 + b[2] * 0x10000 + b[3] * 0x1000000
}

/// What a well-formed 14-byte header decodes to: the payload length and the
/// message type, or nothing when the length or the magic is wrong.
pub open spec fn header_spec(h: Seq<u8>) -> Option<(u32, u32)> {
    if h.len() == 14 && h.subrange(0, 6) == magic_bytes() {
        Some((le_val32(h.subrange(6, 10)) as u32, le_val32(h.subrange(10, 14)) as u32))
    } else {
        None
    }
}

proof fn lemma_le_bytes32_val(x: u32)
    ensures
        le_val32(le_bytes32(x)) == x,
{
    assert((x & 0xff) < 0x100) by (bit_vector);
    assert(((x >> 8) & 0xff) < 0x100) by (bit_vector);
    assert(((x >> 16) & 0xff) < 0x100) by (bit_vector);
    assert(((x >> 24) & 0xff) < 0x100) by (bit_vector);
    assert((x & 0xff) as u64 + (((x >> 8) & 0xff) as u64) * 0x100 + (((x >> 16) & 0xff) as u64)
        * 0x10000 + (((x >> 24) & 0xff) as u64) * 0x1000000 == x as u64) by (bit_vector);
}

/// Append the four little-endian bytes of `x`.
fn push_le32(v: &mut Vec<u8>, x: u32)
    ensures
        final(v)@ == old(v)@ + le_bytes32(x),
{
    assert((x & 0xff) < 0x100) by (bit_vector);
    assert(((x >> 8) & 0xff) < 0x100) by (bit_vector);
    assert(((x >> 16) & 0xff) < 0x100) by (bit_vector);
    assert(((x >> 24) & 0xff) < 0x100) by (bit_vector);
    v.push((x & 0xff) as u8);
    v.push(((x >> 8) & 0xff) as u8);
    v.push(((x >> 16) & 0xff) as u8);
    v.push(((x >> 24) & 0xff) as u8);
    assert(v@ =~= old(v)@ + le_bytes32(x));
}

/// A Sway IPC endpoint.
#[derive(Debug, Clone)]
pub struct SwayClient {
    pub socket_path: String,
}

/// The quoted strings of `s` from position `i` on, with no escape handling:
/// `in_str` says whether a quoted string is open, `cur` holds its characters,
/// and `acc` the non-empty strings completed so far.
pub open spec fn quoted_strings(
    s: Seq<char>,
    i: int,
    in_str: bool,
    cur: Seq<char>,
    acc: Seq<Seq<char>>,
) -> Seq<Seq<char>>
    decreases s.len() - i,
{
    if i < 0 || i >= s.len() {
        acc
    } else {
        let ch = s[i];
        if ch == '"' && !in_str {
            quoted_strings(s, i + 1, true, Seq::empty(), acc)
        } else if ch == '"' && in_str {
            quoted_strings(
                s,
                i + 1,
                false,
                cur,
                if cur.len() > 0 {
                    acc.push(cur)
                } else {
                    acc
                },
            )
        } else if in_str {
            quoted_strings(s, i + 1, in_str, cur.push(ch), acc)
        } else {
            quoted_strings(s, i + 1, in_str, cur, acc)
        }
    }
}

/// Collect the quoted strings of `content`, without escape handling.
fn collect_quoted(content: &Vec<char>) -> (names: Vec<String>)
    ensures
        names.deep_view() == quoted_strings(
            content@,
            0,
            false,
            Seq::<char>::empty(),
            Seq::<Seq<char>>::empty(),
        ),
{
    let n = content.len();
    let mut names: Vec<String> = Vec::new();
    let mut cur: Vec<char> = Vec::new();
    let mut in_str = false;
    let mut i: usize = 0;
    proof {
        assert(names.deep_view() =~= Seq::<Seq<char>>::empty());
        assert(cur@ =~= Seq::<char>::empty());
    }
    while i < n
        invariant
            i <= n,
            n == content@.len(),
            quoted_strings(content@, 0, false, Seq::<char>::empty(), Seq::<Seq<char>>::empty())
                == quoted_strings(content@, i as int, in_str, cur@, names.deep_view()),
        decreases n - i,
    {
        let ghost g_in = in_str;
        let ghost g_cur = cur@;
        let ghost g_acc = names.deep_view();
        let ch = content[i];
        if ch == '"' && !in_str {
            in_str = true;
            cur = Vec::new();
            proof {
                assert(cur@ =~= Seq::<char>::empty());
            }
        } else if ch == '"' && in_str {
            in_str = false;
            if cur.len() > 0 {
                let s = chars_to_string(&cur);
                names.push(s);
                proof {
                    assert(names.deep_view() =~= g_acc.push(g_cur));
                }
            }
        } else if in_str {
            cur.push(ch);
        }
        proof {
            assert(quoted_strings(content@, i as int, g_in, g_cur, g_acc) == quoted_strings(
                content@,
                i + 1,
                in_str,
                cur@,
                names.deep_view(),
            ));
        }
        i += 1;
    }
    names
}

/// The `"xkb_layout_names"` key of an inputs response.
pub open spec fn layout_names_key() -> Seq<char> {
    "\"xkb_layout_names\""@
}

/// The layout-names array of an inputs response: the bracketed range after
/// the first `"xkb_layout_names"` key, scanned for quoted strings; `None`
/// when the key, the brackets or any non-empty name is missing.
pub open spec fn layout_names_spec(j: Seq<char>) -> Option<Seq<Seq<char>>> {
    match first_match_from(j, layout_names_key(), 0) {
        None => None,
        Some(kp) => match first_char_from(j, '[', kp + layout_names_key().len()) {
            None => None,
            Some(bs) => match first_char_from(j, ']', bs + 1) {
                None => None,
                Some(be) => {
                    let names = quoted_strings(
                        j.subrange(bs + 1, be),
                        0,
                        false,
                        Seq::empty(),
                        Seq::empty(),
                    );
                    if names.len() == 0 {
                        None
                    } else {
                        Some(names)
                    }
                },
            },
        },
    }
}

/// The `"xkb_active_layout_name"` string of an inputs response: the first
/// quoted string after the colon that follows the key; `None` when missing
/// or empty.
pub open spec fn active_name_spec(j: Seq<char>) -> Option<Seq<char>> {
    let key = "\"xkb_active_layout_name\""@;
    match first_match_from(j, key, 0) {
        None => None,
        Some(kp) => match first_char_from(j, ':', kp + key.len()) {
            None => None,
            Some(cp) => match first_char_from(j, '"', cp + 1) {
                None => None,
                Some(qs) => match first_char_from(j, '"', qs + 1) {
                    None => None,
                    Some(qe) => {
                        let v = j.subrange(qs + 1, qe);
                        if v.len() == 0 {
                            None
                        } else {
                            Some(v)
                        }
                    },
                },
            },
        },
    }
}

/// The names an inputs response yields: the distinct array entries in order
/// of first appearance, or the single active-layout name when the array is
/// missing, or nothing.
pub open spec fn inputs_names_spec(j: Seq<char>) -> Seq<Seq<char>> {
    match layout_names_spec(j) {
        Some(ns) => dedup_first(ns),
        None => match active_name_spec(j) {
            Some(n) => seq![n],
            None => Seq::empty(),
        },
    }
}

/// The index an inputs response yields, or zero when it has none.
pub open spec fn inputs_idx_spec(j: Seq<char>) -> usize {
    match number_field_spec(j, "\"xkb_active_layout_index\""@) {
        None => 0,
        Some(i) => i,
    }
}

impl SwayClient {
    /// A client over the given socket path; the caller resolves it from the
    /// environment.
    pub fn new(socket_path: String) -> (r: Self)
        ensures
            r.socket_path@ == socket_path@,
    {
        Self { socket_path }
    }

    /// The 14-byte header of a frame: the magic at offset zero, then the
    /// payload length and the message type, each as four little-endian bytes.
    pub fn build_header(payload_len: u32, message_type: u32) -> (h: Vec<u8>)
        ensures
            h@.len() == 14,
            h@.subrange(0, 6) == magic_bytes(),
            h@.subrange(6, 10) == le_bytes32(payload_len),
            h@.subrange(10, 14) == le_bytes32(message_type),
    {
        let mut h: Vec<u8> = Vec::new();
        h.push(0x69);
        h.push(0x33);
        h.push(0x2d);
        h.push(0x69);
        h.push(0x70);
        h.push(0x63);
        push_le32(&mut h, payload_len);
        push_le32(&mut h, message_type);
        proof {
            assert(h@.subrange(0, 6) =~= magic_bytes());
            assert(h@.subrange(6, 10) =~= le_bytes32(payload_len));
            assert(h@.subrange(10, 14) =~= le_bytes32(message_type));
        }
        h
    }

    /// Decode a frame header: the payload length and the message type, or
    /// `None` when the buffer is not 14 bytes or the magic does not match.
    pub fn parse_header(h: &Vec<u8>) -> (r: Option<(u32, u32)>)
        ensures
            r == header_spec(h@),
    {
        if h.len() != 14 {
            return None;
        }
        if h[0] != 0x69 || h[1] != 0x33 || h[2] != 0x2d || h[3] != 0x69 || h[4] != 0x70 || h[5]
            != 0x63 {
            proof {
                if h@.subrange(0, 6) == magic_bytes() {
                    assert(h@.subrange(0, 6)[0] == h@[0]);
                    assert(h@.subrange(0, 6)[1] == h@[1]);
                    assert(h@.subrange(0, 6)[2] == h@[2]);
                    assert(h@.subrange(0, 6)[3] == h@[3]);
                    assert(h@.subrange(0, 6)[4] == h@[4]);
                    assert(h@.subrange(0, 6)[5] == h@[5]);
                }
            }
            return None;
        }
        proof {
            assert(h@.subrange(0, 6) =~= magic_bytes());
        }
        let len: u32 = h[6] as u32 + h[7] as u32 * 0x100 + h[8] as u32 * 0x10000 + h[9] as u32
            * 0x1000000;
        let typ: u32 = h[10] as u32 + h[11] as u32 * 0x100 + h[12] as u32 * 0x10000 + h[13] as u32
            * 0x1000000;
        proof {
            assert(le_val32(h@.subrange(6, 10)) == len) by {
                assert(h@.subrange(6, 10)[0] == h@[6]);
                assert(h@.subrange(6, 10)[1] == h@[7]);
                assert(h@.subrange(6, 10)[2] == h@[8]);
                assert(h@.subrange(6, 10)[3] == h@[9]);
            }
            assert(le_val32(h@.subrange(10, 14)) == typ) by {
                assert(h@.subrange(10, 14)[0] == h@[10]);
                assert(h@.subrange(10, 14)[1] == h@[11]);
                assert(h@.subrange(10, 14)[2] == h@[12]);
                assert(h@.subrange(10, 14)[3] == h@[13]);
            }
        }
        Some((len, typ))
    }

    /// The layout names of the `"xkb_layout_names"` array, in response order;
    /// `None` when none are present.
    pub fn extract_layout_names_array(&self, json: &str) -> (r: Option<Vec<String>>)
        ensures
            r matches Some(v) ==> layout_names_spec(json@) == Some(v.deep_view()),
            r is None ==> layout_names_spec(json@) is None,
    {
        let j = str_to_chars(json);
        let key = str_to_chars("\"xkb_layout_names\"");
        let kp = match find_sub(&j, &key, 0) {
            None => {
                return None;
            },
            Some(k) => k,
        };
        proof {
            lemma_first_match_some(j@, key@, 0, kp as int);
        }
        let bs = match find_char(&j, '[', kp + key.len()) {
            None => {
                return None;
            },
            Some(b) => b,
        };
        proof {
            lemma_first_char_some(j@, '[', kp + key@.len(), bs as int);
        }
        let be = match find_char(&j, ']', bs + 1) {
            None => {
                return None;
            },
            Some(b) => b,
        };
        proof {
            lemma_first_char_some(j@, ']', bs + 1, be as int);
        }
        let content = sub_chars(&j, bs + 1, be);
        let names = collect_quoted(&content);
        if names.len() == 0 {
            None
        } else {
            Some(names)
        }
    }

    /// The `"xkb_active_layout_index"` numeric field, if present and in range.
    pub fn extract_active_layout_index(&self, json: &str) -> (r: Option<usize>)
        ensures
            r == number_field_spec(json@, "\"xkb_active_layout_index\""@),
    {
        let j = str_to_chars(json);
        let key = str_to_chars("\"xkb_active_layout_index\"");
        extract_number_field(&j, &key)
    }

    /// The `"xkb_active_layout_name"` string field, if present and non-empty.
    pub fn extract_active_layout_name(&self, json: &str) -> (r: Option<String>)
        ensures
            r matches Some(s) ==> active_name_spec(json@) == Some(s@),
            r is None ==> active_name_spec(json@) is None,
    {
        let j = str_to_chars(json);
        let key = str_to_chars("\"xkb_active_layout_name\"");
        let kp = match find_sub(&j, &key, 0) {
            None => {
                return None;
            },
            Some(k) => k,
        };
        proof {
            lemma_first_match_some(j@, key@, 0, kp as int);
        }
        let cp = match find_char(&j, ':', kp + key.len()) {
            None => {
                return None;
            },
            Some(c) => c,
        };
        proof {
            lemma_first_char_some(j@, ':', kp + key@.len(), cp as int);
        }
        let qs = match find_char(&j, '"', cp + 1) {
            None => {
                return None;
            },
            Some(q) => q,
        };
        proof {
            lemma_first_char_some(j@, '"', cp + 1, qs as int);
        }
        let qe = match find_char(&j, '"', qs + 1) {
            None => {
                return None;
            },
            Some(q) => q,
        };
        proof {
            lemma_first_char_some(j@, '"', qs + 1, qe as int);
        }
        let name = sub_chars(&j, qs + 1, qe);
        if name.len() == 0 {
            None
        } else {
            Some(chars_to_string(&name))
        }
    }

    /// A layouts snapshot from an inputs response: the distinct array names
    /// in first-seen order, the active index, and — when the array is missing
    /// — the single active-layout name as a fallback.
    pub fn parse_inputs_response(&self, json: &str) -> (r: KeyboardLayouts)
        ensures
            r.names_view() == inputs_names_spec(json@),
            r.current_idx == inputs_idx_spec(json@),
    {
        let mut r = KeyboardLayouts::new();
        let arr = self.extract_layout_names_array(json);
        let had_array = arr.is_some();
        if let Some(names) = arr {
            let ghost ns = names.deep_view();
            let m = names.len();
            let mut i: usize = 0;
            proof {
                assert(ns.subrange(0, 0) =~= Seq::<Seq<char>>::empty());
            }
            while i < m
                invariant
                    i <= m,
                    m == names@.len(),
                    ns == names.deep_view(),
                    r.names.deep_view() == dedup_first(ns.subrange(0, i as int)),
                    r.current_idx == 0,
                decreases m - i,
            {
                let name = str_to_chars(names[i].as_str());
                proof {
                    assert(name@ == ns[i as int]);
                    crate::compositor::lemma_dedup_first_membership(
                        ns.subrange(0, i as int),
                        name@,
                    );
                    assert(ns.subrange(0, i + 1).drop_last() =~= ns.subrange(0, i as int));
                    assert(ns.subrange(0, i + 1).last() == name@);
                }
                push_if_new(&mut r.names, &name);
                i += 1;
            }
            proof {
                assert(ns.subrange(0, m as int) =~= ns);
            }
        }
        if let Some(idx) = self.extract_active_layout_index(json) {
            r.current_idx = idx;
        }
        proof {
            match layout_names_spec(json@) {
                Some(ns2) => crate::compositor::lemma_dedup_first_len(ns2),
                None => {},
            }
        }
        if r.names.len() == 0 {
            if let Some(name) = self.extract_active_layout_name(json) {
                r.names.push(name);
            }
        }
        proof {
            assert(r.names_view() =~= inputs_names_spec(json@));
        }
        r
    }

    /// Whether an event payload concerns the keyboard layout and calls for a
    /// fresh layouts query.
    pub fn is_layout_update_payload(json: &str) -> (r: bool)
        ensures
            r == (contains_sub(json@, "\"xkb_layout\""@) || contains_sub(json@, "\"xkb_keymap\""@)),
    {
        let j = str_to_chars(json);
        let a = str_to_chars("\"xkb_layout\"");
        let b = str_to_chars("\"xkb_keymap\"");
        find_sub(&j, &a, 0).is_some() || find_sub(&j, &b, 0).is_some()
    }
}

/// Encoding a header and decoding it again yields the pair that was encoded,
/// and the magic always sits at offset zero of the encoding.
pub proof fn lemma_header_round_trip(payload_len: u32, message_type: u32, h: Seq<u8>)
    requires
        h.len() == 14,
        h.subrange(0, 6) == magic_bytes(),
        h.subrange(6, 10) == le_bytes32(payload_len),
        h.subrange(10, 14) == le_bytes32(message_type),
    ensures
        header_spec(h) == Some((payload_len, message_type)),
{
    lemma_le_bytes32_val(payload_len);
    lemma_le_bytes32_val(message_type);
}

} // verus!
