//! Hyprland IPC: a newline-oriented request socket and an event socket whose
//! lines read `name>>payload`. Layout names are scanned out of the devices
//! response by locating each `"active_keymap"` key and taking the first
//! quoted string after its colon.

use vstd::prelude::*;

use crate::compositor::{dedup_first, push_if_new, KeyboardLayouts};
use crate::text::{
    chars_eq_str, find_char, find_sub, first_char_from, first_match_from, lemma_first_char_some,
    lemma_first_match_some, split_at_first, str_to_chars, sub_chars,
};
use vstd::string::StrSliceExecFns;

verus! {

/// A Hyprland instance's two IPC endpoints. The request socket answers
/// commands; the event socket emits `name>>payload` lines.
#[derive(Debug, Clone)]
pub struct HyprlandClient {
    pub socket_path: String,
    pub event_socket_path: String,
}

/// The key whose value in the devices response is a keyboard's active layout.
pub open spec fn keymap_key() -> Seq<char> {
    "\"active_keymap\""@
}

/// Every active-keymap value in `j` from `from` on, in order of appearance:
/// after each occurrence of the key, the value is the first quoted string
/// following the next colon. Empty values are dropped, and an occurrence
/// missing its colon or quotes is skipped by resuming one character later.
pub open spec fn keymap_values(j: Seq<char>, from: int) -> Seq<Seq<char>>
    decreases j.len() + 1 - from,
    via keymap_values_dec
{
    if from < 0 {
        Seq::empty()
    } else {
        match first_match_from(j, keymap_key(), from) {
            None => Seq::empty(),
            Some(kp) => match first_char_from(j, ':', kp) {
                None => keymap_values(j, kp + 1),
                Some(cp) => match first_char_from(j, '"', cp + 1) {
                    None => keymap_values(j, kp + 1),
                    Some(qs) => match first_char_from(j, '"', qs + 1) {
                        None => keymap_values(j, kp + 1),
                        Some(qe) => {
                            let v = j.subrange(qs + 1, qe);
                            if v.len() > 0 {
                                seq![v] + keymap_values(j, qe + 1)
                            } else {
                                keymap_values(j, qe + 1)
                            }
                        },
                    },
                },
            },
        }
    }
}

#[via_fn]
proof fn keymap_values_dec(j: Seq<char>, from: int) {
    if from >= 0 {
        match first_match_from(j, keymap_key(), from) {
            None => {},
            Some(kp) => {
                lemma_first_match_some(j, keymap_key(), from, kp);
                match first_char_from(j, ':', kp) {
                    None => {},
                    Some(cp) => {
                        lemma_first_char_some(j, ':', kp, cp);
                        match first_char_from(j, '"', cp + 1) {
                            None => {},
                            Some(qs) => {
                                lemma_first_char_some(j, '"', cp + 1, qs);
                                match first_char_from(j, '"', qs + 1) {
                                    None => {},
                                    Some(qe) => {
                                        lemma_first_char_some(j, '"', qs + 1, qe);
                                    },
                                }
                            },
                        }
                    },
                }
            },
        }
    }
}

impl HyprlandClient {
    /// A client over the given socket paths; the caller resolves them from
    /// the instance's runtime directory.
    pub fn new(socket_path: String, event_socket_path: String) -> (r: Self)
        ensures
            r.socket_path@ == socket_path@,
            r.event_socket_path@ == event_socket_path@,
    {
        Self { socket_path, event_socket_path }
    }

    /// The distinct active-keymap names of the devices response, in order of
    /// first appearance; the current index is left at zero.
    pub fn parse_devices_response(&self, json: &str) -> (r: KeyboardLayouts)
        ensures
            r.names_view() == dedup_first(keymap_values(json@, 0)),
            r.current_idx == 0,
    {
        proof {
            reveal_strlit("\"active_keymap\"");
        }
        let j = str_to_chars(json);
        let key = str_to_chars("\"active_keymap\"");
        let n = j.len();
        let mut names: Vec<String> = Vec::new();
        let mut search: usize = 0;
        let ghost mut raw: Seq<Seq<char>> = Seq::empty();
        proof {
            assert(keymap_values(j@, 0) =~= raw + keymap_values(j@, 0));
            assert(names.deep_view() =~= dedup_first(raw));
        }
        loop
            invariant
                j@ == json@,
                key@ == keymap_key(),
                keymap_key().len() >= 1,
                n == j@.len(),
                search <= n,
                keymap_values(j@, 0) == raw + keymap_values(j@, search as int),
                names.deep_view() == dedup_first(raw),
            ensures
                names.deep_view() == dedup_first(keymap_values(j@, 0)),
            decreases n - search,
        {
            match find_sub(&j, &key, search) {
                None => {
                    proof {
                        assert(keymap_values(j@, search as int) =~= Seq::<Seq<char>>::empty());
                        assert(raw + keymap_values(j@, search as int) =~= raw);
                    }
                    break ;
                },
                Some(kp) => {
                    proof {
                        lemma_first_match_some(j@, key@, search as int, kp as int);
                    }
                    let next = match find_char(&j, ':', kp) {
                        None => {
                            proof {
                                assert(keymap_values(j@, search as int) == keymap_values(
                                    j@,
                                    kp + 1,
                                ));
                            }
                            kp + 1
                        },
                        Some(cp) => {
                            proof {
                                lemma_first_char_some(j@, ':', kp as int, cp as int);
                            }
                            match find_char(&j, '"', cp + 1) {
                                None => {
                                    proof {
                                        assert(keymap_values(j@, search as int) == keymap_values(
                                            j@,
                                            kp + 1,
                                        ));
                                    }
                                    kp + 1
                                },
                                Some(qs) => {
                                    proof {
                                        lemma_first_char_some(j@, '"', cp + 1, qs as int);
                                    }
                                    match find_char(&j, '"', qs + 1) {
                                        None => {
                                            proof {
                                                assert(keymap_values(j@, search as int)
                                                    == keymap_values(j@, kp + 1));
                                            }
                                            kp + 1
                                        },
                                        Some(qe) => {
                                            proof {
                                                lemma_first_char_some(j@, '"', qs + 1, qe as int);
                                            }
                                            let value = sub_chars(&j, qs + 1, qe);
                                            if value.len() > 0 {
                                                proof {
                                                    assert(keymap_values(j@, search as int) == seq![
                                                        value@,
                                                    ] + keymap_values(j@, qe + 1));
                                                    crate::compositor::lemma_dedup_first_membership(
                                                        raw,
                                                        value@,
                                                    );
                                                }
                                                push_if_new(&mut names, &value);
                                                proof {
                                                    let r2 = raw.push(value@);
                                                    assert(r2.drop_last() =~= raw);
                                                    assert(names.deep_view() == dedup_first(r2));
                                                    assert(raw + (seq![value@] + keymap_values(
                                                        j@,
                                                        qe + 1,
                                                    )) =~= r2 + keymap_values(j@, qe + 1));
                                                    raw = r2;
                                                }
                                            } else {
                                                proof {
                                                    assert(keymap_values(j@, search as int)
                                                        == keymap_values(j@, qe + 1));
                                                }
                                            }
                                            qe + 1
                                        },
                                    }
                                },
                            }
                        },
                    };
                    search = next;
                },
            }
        }
        let r = KeyboardLayouts { names, current_idx: 0 };
        r
    }

    /// Split an event line at the first `>>` into event name and payload.
    pub fn parse_event(line: &str) -> (r: Option<(&str, &str)>)
        ensures
            r matches Some(p) ==> split_at_first(line@, ">>"@) == Some((p.0@, p.1@)),
            r is None ==> split_at_first(line@, ">>"@) is None,
    {
        proof {
            reveal_strlit(">>");
        }
        let l = str_to_chars(line);
        let sep = str_to_chars(">>");
        match find_sub(&l, &sep, 0) {
            None => None,
            Some(i) => {
                proof {
                    lemma_first_match_some(l@, sep@, 0, i as int);
                }
                let n = line.unicode_len();
                Some((line.substring_char(0, i), line.substring_char(i + 2, n)))
            },
        }
    }

    /// Whether an event name announces an active-layout change.
    pub fn is_layout_event(event_name: &str) -> (r: bool)
        ensures
            r == (event_name@ == "activelayout"@),
    {
        let v = str_to_chars(event_name);
        chars_eq_str(&v, "activelayout")
    }

    /// Split an active-layout payload at the first comma into keyboard name
    /// and layout name.
    pub fn parse_layout_event(data: &str) -> (r: Option<(&str, &str)>)
        ensures
            r matches Some(p) ==> split_at_first(data@, ","@) == Some((p.0@, p.1@)),
            r is None ==> split_at_first(data@, ","@) is None,
    {
        proof {
            reveal_strlit(",");
            assert(","@ =~= seq![',']);
        }
        let d = str_to_chars(data);
        match find_char(&d, ',', 0) {
            None => {
                proof {
                    lemma_first_char_none_match(data@, ',');
                }
                None
            },
            Some(i) => {
                proof {
                    lemma_first_char_some(d@, ',', 0, i as int);
                    lemma_first_char_is_match(data@, ',', 0, i as int);
                }
                let n = data.unicode_len();
                Some((data.substring_char(0, i), data.substring_char(i + 1, n)))
            },
        }
    }
}

/// A single-character pattern matches exactly where the character occurs.
proof fn lemma_first_char_is_match(h: Seq<char>, c: char, from: int, i: int)
    requires
        first_char_from(h, c, from) == Some(i),
    ensures
        first_match_from(h, seq![c], from) == Some(i),
    decreases h.len() - from,
{
    if from < 0 || from >= h.len() {
    } else {
        assert(from + 1 <= h.len());
        assert(h.subrange(from, from + 1) =~= seq![h[from]]);
        if h[from] == c {
            assert(h.subrange(from, from + 1) =~= seq![c]);
        } else {
            assert(h.subrange(from, from + 1) != seq![c]) by {
                assert(h.subrange(from, from + 1)[0] == h[from]);
                assert(seq![c][0] == c);
                if h.subrange(from, from + 1) == seq![c] {
                    assert(h[from] == c);
                }
            }
            lemma_first_char_is_match(h, c, from + 1, i);
        }
    }
}

/// A single-character pattern finds nothing where the character is absent.
proof fn lemma_first_char_none_match(h: Seq<char>, c: char)
    ensures
        first_char_from(h, c, 0) is None ==> first_match_from(h, seq![c], 0) is None,
{
    lemma_first_char_none_match_from(h, c, 0);
}

proof fn lemma_first_char_none_match_from(h: Seq<char>, c: char, from: int)
    ensures
        first_char_from(h, c, from) is None ==> first_match_from(h, seq![c], from) is None,
    decreases h.len() + 1 - from,
{
    if from < 0 {
        if first_char_from(h, c, from) is None {
            assert(first_match_from(h, seq![c], from) is None);
        }
    } else if from >= h.len() {
    } else {
        if h[from] != c {
            lemma_first_char_none_match_from(h, c, from + 1);
            assert(h.subrange(from, from + 1) =~= seq![h[from]]);
            assert(h.subrange(from, from + 1) != seq![c]) by {
                if h.subrange(from, from + 1) == seq![c] {
                    assert(h.subrange(from, from + 1)[0] == seq![c][0]);
                }
            }
        }
    }
}

} // verus!
