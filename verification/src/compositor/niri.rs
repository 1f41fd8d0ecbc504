//! Niri IPC: line-delimited JSON. A request is one JSON string literal plus a
//! newline; the response is one JSON line. Layout names sit in a `"names"`
//! array whose quoted strings honour backslash escapes; the active index is a
//! `"current_idx"` numeric field.

use vstd::prelude::*;

use crate::compositor::{contains_sub, KeyboardLayouts, LayoutEvent};
use crate::text::{
    chars_to_string, extract_number_field, find_char, find_sub, first_char_from, first_match_from,
    lemma_first_char_some, lemma_first_match_some, number_field_spec, str_to_chars, sub_chars,
};

verus! {

/// A Niri IPC endpoint.
#[derive(Debug, Clone)]
pub struct NiriClient {
    pub socket_path: String,
}

/// The quoted strings of `s` from position `i` on, honouring backslash
/// escapes: `in_str` says whether a quoted string is open, `esc` whether the
/// previous character was an unconsumed backslash, `cur` the characters read
/// of the open string, and `acc` the non-empty strings completed so far. An
/// unterminated string at the end of input is discarded.
pub open spec fn quoted_strings_esc(
    s: Seq<char>,
    i: int,
    in_str: bool,
    esc: bool,
    cur: Seq<char>,
    acc: Seq<Seq<char>>,
) -> Seq<Seq<char>>
    decreases s.len() - i,
{
    if i < 0 || i >= s.len() {
        acc
    } else {
        let ch = s[i];
        if esc {
            quoted_strings_esc(s, i + 1, in_str, false, cur.push(ch), acc)
        } else if ch == '\\' && in_str {
            quoted_strings_esc(s, i + 1, in_str, true, cur, acc)
        } else if ch == '"' && !in_str {
            quoted_strings_esc(s, i + 1, true, false, Seq::empty(), acc)
        } else if ch == '"' && in_str {
            quoted_strings_esc(
                s,
                i + 1,
                false,
                false,
                cur,
                if cur.len() > 0 {
                    acc.push(cur)
                } else {
                    acc
                },
            )
        } else if in_str {
            quoted_strings_esc(s, i + 1, in_str, false, cur.push(ch), acc)
        } else {
            quoted_strings_esc(s, i + 1, in_str, false, cur, acc)
        }
    }
}

/// Collect the quoted strings of `content`, with escape handling.
fn collect_quoted_esc(content: &Vec<char>) -> (names: Vec<String>)
    ensures
        names.deep_view() == quoted_strings_esc(
            content@,
            0,
            false,
            false,
            Seq::<char>::empty(),
            Seq::<Seq<char>>::empty(),
        ),
{
    let n = content.len();
    let mut names: Vec<String> = Vec::new();
    let mut cur: Vec<char> = Vec::new();
    let mut in_str = false;
    let mut esc = false;
    let mut i: usize = 0;
    proof {
        assert(names.deep_view() =~= Seq::<Seq<char>>::empty());
        assert(cur@ =~= Seq::<char>::empty());
    }
    while i < n
        invariant
            i <= n,
            n == content@.len(),
            quoted_strings_esc(
                content@,
                0,
                false,
                false,
                Seq::<char>::empty(),
                Seq::<Seq<char>>::empty(),
            ) == quoted_strings_esc(content@, i as int, in_str, esc, cur@, names.deep_view()),
        decreases n - i,
    {
        let ghost g_in = in_str;
        let ghost g_esc = esc;
        let ghost g_cur = cur@;
        let ghost g_acc = names.deep_view();
        let ch = content[i];
        if esc {
            cur.push(ch);
            esc = false;
        } else if ch == '\\' && in_str {
            esc = true;
        } else if ch == '"' && !in_str {
            in_str = true;
            cur = Vec::new();
            proof {
                assert(cur@ =~= Seq::<char>::empty());
            }
        } else if ch == '"' && in_str {
            in_str = false;
            if cur.len() > 0 {
                let s = chars_to_string(&cur);
                names.push(s);
                proof {
                    assert(names.deep_view() =~= g_acc.push(g_cur));
                }
            }
        } else if in_str {
            cur.push(ch);
        }
        proof {
            assert(quoted_strings_esc(content@, i as int, g_in, g_esc, g_cur, g_acc)
                == quoted_strings_esc(content@, i + 1, in_str, esc, cur@, names.deep_view()));
        }
        i += 1;
    }
    names
}

/// The `"names"` key of a layouts response.
pub open spec fn names_key() -> Seq<char> {
    "\"names\""@
}

/// The names array of a response: the bracketed range after the first
/// `"names"` key, scanned for quoted strings; `None` when the key, the
/// brackets or any non-empty name is missing.
pub open spec fn names_array_spec(j: Seq<char>, key: Seq<char>) -> Option<Seq<Seq<char>>> {
    match first_match_from(j, key, 0) {
        None => None,
        Some(kp) => match first_char_from(j, '[', kp + key.len()) {
            None => None,
            Some(bs) => match first_char_from(j, ']', bs + 1) {
                None => None,
                Some(be) => {
                    let names = quoted_strings_esc(
                        j.subrange(bs + 1, be),
                        0,
                        false,
                        false,
                        Seq::empty(),
                        Seq::empty(),
                    );
                    if names.len() == 0 {
                        None
                    } else {
                        Some(names)
                    }
                },
            },
        },
    }
}

/// The names a layouts response carries, or an empty list when it has none.
pub open spec fn layouts_names_spec(j: Seq<char>) -> Seq<Seq<char>> {
    match names_array_spec(j, names_key()) {
        None => Seq::empty(),
        Some(ns) => ns,
    }
}

/// The current index a layouts response carries, or zero when it has none.
pub open spec fn layouts_idx_spec(j: Seq<char>) -> usize {
    match number_field_spec(j, "\"current_idx\""@) {
        None => 0,
        Some(i) => i,
    }
}

impl NiriClient {
    /// A client over the given socket path; the caller resolves it from the
    /// environment.
    pub fn new(socket_path: String) -> (r: Self)
        ensures
            r.socket_path@ == socket_path@,
    {
        Self { socket_path }
    }

    /// The layout names of the `"names"` array, in response order, with
    /// escape-aware quoted-string scanning; `None` when none are present.
    pub fn extract_names_array(&self, json: &str) -> (r: Option<Vec<String>>)
        ensures
            r matches Some(v) ==> names_array_spec(json@, names_key()) == Some(v.deep_view()),
            r is None ==> names_array_spec(json@, names_key()) is None,
    {
        let j = str_to_chars(json);
        let key = str_to_chars("\"names\"");
        let kp = match find_sub(&j, &key, 0) {
            None => {
                return None;
            },
            Some(k) => k,
        };
        proof {
            lemma_first_match_some(j@, key@, 0, kp as int);
        }
        let bs = match find_char(&j, '[', kp + key.len()) {
            None => {
                return None;
            },
            Some(b) => b,
        };
        proof {
            lemma_first_char_some(j@, '[', kp + key@.len(), bs as int);
        }
        let be = match find_char(&j, ']', bs + 1) {
            None => {
                return None;
            },
            Some(b) => b,
        };
        proof {
            lemma_first_char_some(j@, ']', bs + 1, be as int);
        }
        let content = sub_chars(&j, bs + 1, be);
        let names = collect_quoted_esc(&content);
        if names.len() == 0 {
            None
        } else {
            Some(names)
        }
    }

    /// The `"current_idx"` numeric field, if present and in range.
    pub fn extract_current_idx(&self, json: &str) -> (r: Option<usize>)
        ensures
            r == number_field_spec(json@, "\"current_idx\""@),
    {
        let j = str_to_chars(json);
        let key = str_to_chars("\"current_idx\"");
        extract_number_field(&j, &key)
    }

    /// A layouts snapshot from a response line: the names array if present,
    /// the current index if present, and the defaults otherwise.
    pub fn parse_layouts_response(&self, json: &str) -> (r: KeyboardLayouts)
        ensures
            r.names_view() == layouts_names_spec(json@),
            r.current_idx == layouts_idx_spec(json@),
    {
        let mut r = KeyboardLayouts::new();
        if let Some(names) = self.extract_names_array(json) {
            r.names = names;
        }
        if let Some(idx) = self.extract_current_idx(json) {
            r.current_idx = idx;
        }
        r
    }

    /// The `"idx"` numeric field of a layout-switch event.
    pub fn extract_event_layout_index(&self, json: &str) -> (r: Option<usize>)
        ensures
            r == number_field_spec(json@, "\"idx\""@),
    {
        let j = str_to_chars(json);
        let key = str_to_chars("\"idx\"");
        extract_number_field(&j, &key)
    }

    /// A layout event parsed from one event line. A switch event carries only
    /// the new index (the name is left empty for the cache to resolve); a
    /// layouts-changed event carries the full snapshot, and is dropped when it
    /// has no names.
    pub fn parse_event(&self, line: &str) -> (r: Option<LayoutEvent>)
        ensures
            contains_sub(line@, "\"KeyboardLayoutSwitched\""@) && number_field_spec(
                line@,
                "\"idx\""@,
            ) is Some ==> (r matches Some(ev) && ev matches LayoutEvent::LayoutSwitched {
                name,
                index,
            } && name@ == Seq::<char>::empty() && Some(index) == number_field_spec(
                line@,
                "\"idx\""@,
            )),
            (!(contains_sub(line@, "\"KeyboardLayoutSwitched\""@) && number_field_spec(
                line@,
                "\"idx\""@,
            ) is Some)) && contains_sub(line@, "\"KeyboardLayoutsChanged\""@) && layouts_names_spec(
                line@,
            ).len() > 0 ==> (r matches Some(ev) && ev matches LayoutEvent::LayoutsChanged { layouts }
                && layouts.names_view() == layouts_names_spec(line@) && layouts.current_idx
                == layouts_idx_spec(line@)),
            (!(contains_sub(line@, "\"KeyboardLayoutSwitched\""@) && number_field_spec(
                line@,
                "\"idx\""@,
            ) is Some)) && !(contains_sub(line@, "\"KeyboardLayoutsChanged\""@)
                && layouts_names_spec(line@).len() > 0) ==> r is None,
    {
        let l = str_to_chars(line);
        let switched = str_to_chars("\"KeyboardLayoutSwitched\"");
        if find_sub(&l, &switched, 0).is_some() {
            if let Some(idx) = self.extract_event_layout_index(line) {
                return Some(LayoutEvent::LayoutSwitched { name: String::new(), index: idx });
            }
        }
        let changed = str_to_chars("\"KeyboardLayoutsChanged\"");
        if find_sub(&l, &changed, 0).is_some() {
            let layouts = self.parse_layouts_response(line);
            if layouts.names.len() > 0 {
                return Some(LayoutEvent::LayoutsChanged { layouts });
            }
        }
        None
    }

    /// The event-stream subscription is acknowledged: the first response line
    /// carries an `"Ok"` or `"Handled"` marker.
    pub fn is_subscribe_ack(ack: &str) -> (r: bool)
        ensures
            r == (contains_sub(ack@, "\"Ok\""@) || contains_sub(ack@, "\"Handled\""@)),
    {
        let a = str_to_chars(ack);
        let ok = str_to_chars("\"Ok\"");
        let handled = str_to_chars("\"Handled\"");
        find_sub(&a, &ok, 0).is_some() || find_sub(&a, &handled, 0).is_some()
    }
}

} // verus!
