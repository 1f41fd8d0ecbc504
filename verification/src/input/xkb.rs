//! Keymap-layout resolution: a human-readable layout name (for example
//! `"Spanish (Latin American)"`) resolves to an identifier and variant pair
//! for keymap compilation, by exact table lookup, then case-insensitive
//! lookup, then a parenthetical-prefix heuristic over common language bases,
//! then pass-through of short lower-case codes, falling back to `"us"`.

use vstd::prelude::*;

use crate::text::{
    chars_eq_str, chars_ieq_str, chars_to_string, find_char, first_char_from, is_ascii_lower_char,
    lower_chars, str_to_chars, sub_chars, to_lower_chars, trim_chars, trim_spec,
};

verus! {

/// Exact lookup in the layout-name table.
pub open spec fn exact_lookup_spec(n: Seq<char>) -> Option<(Seq<char>, Seq<char>)> {
    if n == "Spanish (Latin American)"@ {
        Some(("latam"@, ""@))
    } else if n == "Spanish"@ {
        Some(("es"@, ""@))
    } else if n == "Spanish (Spain)"@ {
        Some(("es"@, ""@))
    } else if n == "Spanish (Dvorak)"@ {
        Some(("es"@, "dvorak"@))
    } else if n == "Spanish (Catalan)"@ {
        Some(("es"@, "cat"@))
    } else if n == "Spanish (Mexico)"@ {
        Some(("latam"@, ""@))
    } else if n == "Spanish (Argentina)"@ {
        Some(("latam"@, ""@))
    } else if n == "English (US)"@ {
        Some(("us"@, ""@))
    } else if n == "English"@ {
        Some(("us"@, ""@))
    } else if n == "US"@ {
        Some(("us"@, ""@))
    } else if n == "English (UK)"@ {
        Some(("gb"@, ""@))
    } else if n == "English (British)"@ {
        Some(("gb"@, ""@))
    } else if n == "British"@ {
        Some(("gb"@, ""@))
    } else if n == "English (Dvorak)"@ {
        Some(("us"@, "dvorak"@))
    } else if n == "English (Colemak)"@ {
        Some(("us"@, "colemak"@))
    } else if n == "English (intl)"@ {
        Some(("us"@, "intl"@))
    } else if n == "English (US, intl.)"@ {
        Some(("us"@, "intl"@))
    } else if n == "English (US, international)"@ {
        Some(("us"@, "intl"@))
    } else if n == "English (US, alt. intl.)"@ {
        Some(("us"@, "alt-intl"@))
    } else if n == "English (Macintosh)"@ {
        Some(("us"@, "mac"@))
    } else if n == "German"@ {
        Some(("de"@, ""@))
    } else if n == "German (Switzerland)"@ {
        Some(("ch"@, "de"@))
    } else if n == "German (Austria)"@ {
        Some(("at"@, ""@))
    } else if n == "German (Dvorak)"@ {
        Some(("de"@, "dvorak"@))
    } else if n == "German (Neo)"@ {
        Some(("de"@, "neo"@))
    } else if n == "French"@ {
        Some(("fr"@, ""@))
    } else if n == "French (Canada)"@ {
        Some(("ca"@, "fr"@))
    } else if n == "French (Belgium)"@ {
        Some(("be"@, ""@))
    } else if n == "French (Switzerland)"@ {
        Some(("ch"@, "fr"@))
    } else if n == "French (AZERTY)"@ {
        Some(("fr"@, ""@))
    } else if n == "French (Dvorak)"@ {
        Some(("fr"@, "dvorak"@))
    } else if n == "French (BEPO)"@ {
        Some(("fr"@, "bepo"@))
    } else if n == "Portuguese"@ {
        Some(("pt"@, ""@))
    } else if n == "Portuguese (Brazil)"@ {
        Some(("br"@, ""@))
    } else if n == "Portuguese (Portugal)"@ {
        Some(("pt"@, ""@))
    } else if n == "Brazilian"@ {
        Some(("br"@, ""@))
    } else if n == "Italian"@ {
        Some(("it"@, ""@))
    } else if n == "Italian (Macintosh)"@ {
        Some(("it"@, "mac"@))
    } else if n == "Swedish"@ {
        Some(("se"@, ""@))
    } else if n == "Norwegian"@ {
        Some(("no"@, ""@))
    } else if n == "Danish"@ {
        Some(("dk"@, ""@))
    } else if n == "Finnish"@ {
        Some(("fi"@, ""@))
    } else if n == "Icelandic"@ {
        Some(("is"@, ""@))
    } else if n == "Polish"@ {
        Some(("pl"@, ""@))
    } else if n == "Czech"@ {
        Some(("cz"@, ""@))
    } else if n == "Slovak"@ {
        Some(("sk"@, ""@))
    } else if n == "Hungarian"@ {
        Some(("hu"@, ""@))
    } else if n == "Romanian"@ {
        Some(("ro"@, ""@))
    } else if n == "Croatian"@ {
        Some(("hr"@, ""@))
    } else if n == "Serbian"@ {
        Some(("rs"@, ""@))
    } else if n == "Serbian (Latin)"@ {
        Some(("rs"@, "latin"@))
    } else if n == "Slovenian"@ {
        Some(("si"@, ""@))
    } else if n == "Bulgarian"@ {
        Some(("bg"@, ""@))
    } else if n == "Bulgarian (phonetic)"@ {
        Some(("bg"@, "phonetic"@))
    } else if n == "Russian"@ {
        Some(("ru"@, ""@))
    } else if n == "Russian (phonetic)"@ {
        Some(("ru"@, "phonetic"@))
    } else if n == "Ukrainian"@ {
        Some(("ua"@, ""@))
    } else if n == "Belarusian"@ {
        Some(("by"@, ""@))
    } else if n == "Greek"@ {
        Some(("gr"@, ""@))
    } else if n == "Turkish"@ {
        Some(("tr"@, ""@))
    } else if n == "Turkish (F)"@ {
        Some(("tr"@, "f"@))
    } else if n == "Arabic"@ {
        Some(("ara"@, ""@))
    } else if n == "Hebrew"@ {
        Some(("il"@, ""@))
    } else if n == "Japanese"@ {
        Some(("jp"@, ""@))
    } else if n == "Japanese (Kana)"@ {
        Some(("jp"@, "kana"@))
    } else if n == "Korean"@ {
        Some(("kr"@, ""@))
    } else if n == "Chinese"@ {
        Some(("cn"@, ""@))
    } else if n == "Thai"@ {
        Some(("th"@, ""@))
    } else if n == "Vietnamese"@ {
        Some(("vn"@, ""@))
    } else if n == "Hindi"@ {
        Some(("in"@, ""@))
    } else if n == "Indian"@ {
        Some(("in"@, ""@))
    } else if n == "Dutch"@ {
        Some(("nl"@, ""@))
    } else if n == "Dutch (Belgium)"@ {
        Some(("be"@, ""@))
    } else if n == "Esperanto"@ {
        Some(("epo"@, ""@))
    } else if n == "Irish"@ {
        Some(("ie"@, ""@))
    } else if n == "Estonian"@ {
        Some(("ee"@, ""@))
    } else if n == "Latvian"@ {
        Some(("lv"@, ""@))
    } else if n == "Lithuanian"@ {
        Some(("lt"@, ""@))
    } else {
        None
    }
}

/// Case-insensitive lookup in the layout-name table (ASCII folding).
pub open spec fn ci_lookup_spec(n: Seq<char>) -> Option<(Seq<char>, Seq<char>)> {
    if lower_chars(n) == lower_chars("Spanish (Latin American)"@) {
        Some(("latam"@, ""@))
    } else if lower_chars(n) == lower_chars("Spanish"@) {
        Some(("es"@, ""@))
    } else if lower_chars(n) == lower_chars("Spanish (Spain)"@) {
        Some(("es"@, ""@))
    } else if lower_chars(n) == lower_chars("Spanish (Dvorak)"@) {
        Some(("es"@, "dvorak"@))
    } else if lower_chars(n) == lower_chars("Spanish (Catalan)"@) {
        Some(("es"@, "cat"@))
    } else if lower_chars(n) == lower_chars("Spanish (Mexico)"@) {
        Some(("latam"@, ""@))
    } else if lower_chars(n) == lower_chars("Spanish (Argentina)"@) {
        Some(("latam"@, ""@))
    } else if lower_chars(n) == lower_chars("English (US)"@) {
        Some(("us"@, ""@))
    } else if lower_chars(n) == lower_chars("English"@) {
        Some(("us"@, ""@))
    } else if lower_chars(n) == lower_chars("US"@) {
        Some(("us"@, ""@))
    } else if lower_chars(n) == lower_chars("English (UK)"@) {
        Some(("gb"@, ""@))
    } else if lower_chars(n) == lower_chars("English (British)"@) {
        Some(("gb"@, ""@))
    } else if lower_chars(n) == lower_chars("British"@) {
        Some(("gb"@, ""@))
    } else if lower_chars(n) == lower_chars("English (Dvorak)"@) {
        Some(("us"@, "dvorak"@))
    } else if lower_chars(n) == lower_chars("English (Colemak)"@) {
        Some(("us"@, "colemak"@))
    } else if lower_chars(n) == lower_chars("English (intl)"@) {
        Some(("us"@, "intl"@))
    } else if lower_chars(n) == lower_chars("English (US, intl.)"@) {
        Some(("us"@, "intl"@))
    } else if lower_chars(n) == lower_chars("English (US, international)"@) {
        Some(("us"@, "intl"@))
    } else if lower_chars(n) == lower_chars("English (US, alt. intl.)"@) {
        Some(("us"@, "alt-intl"@))
    } else if lower_chars(n) == lower_chars("English (Macintosh)"@) {
        Some(("us"@, "mac"@))
    } else if lower_chars(n) == lower_chars("German"@) {
        Some(("de"@, ""@))
    } else if lower_chars(n) == lower_chars("German (Switzerland)"@) {
        Some(("ch"@, "de"@))
    } else if lower_chars(n) == lower_chars("German (Austria)"@) {
        Some(("at"@, ""@))
    } else if lower_chars(n) == lower_chars("German (Dvorak)"@) {
        Some(("de"@, "dvorak"@))
    } else if lower_chars(n) == lower_chars("German (Neo)"@) {
        Some(("de"@, "neo"@))
    } else if lower_chars(n) == lower_chars("French"@) {
        Some(("fr"@, ""@))
    } else if lower_chars(n) == lower_chars("French (Canada)"@) {
        Some(("ca"@, "fr"@))
    } else if lower_chars(n) == lower_chars("French (Belgium)"@) {
        Some(("be"@, ""@))
    } else if lower_chars(n) == lower_chars("French (Switzerland)"@) {
        Some(("ch"@, "fr"@))
    } else if lower_chars(n) == lower_chars("French (AZERTY)"@) {
        Some(("fr"@, ""@))
    } else if lower_chars(n) == lower_chars("French (Dvorak)"@) {
        Some(("fr"@, "dvorak"@))
    } else if lower_chars(n) == lower_chars("French (BEPO)"@) {
        Some(("fr"@, "bepo"@))
    } else if lower_chars(n) == lower_chars("Portuguese"@) {
        Some(("pt"@, ""@))
    } else if lower_chars(n) == lower_chars("Portuguese (Brazil)"@) {
        Some(("br"@, ""@))
    } else if lower_chars(n) == lower_chars("Portuguese (Portugal)"@) {
        Some(("pt"@, ""@))
    } else if lower_chars(n) == lower_chars("Brazilian"@) {
        Some(("br"@, ""@))
    } else if lower_chars(n) == lower_chars("Italian"@) {
        Some(("it"@, ""@))
    } else if lower_chars(n) == lower_chars("Italian (Macintosh)"@) {
        Some(("it"@, "mac"@))
    } else if lower_chars(n) == lower_chars("Swedish"@) {
        Some(("se"@, ""@))
    } else if lower_chars(n) == lower_chars("Norwegian"@) {
        Some(("no"@, ""@))
    } else if lower_chars(n) == lower_chars("Danish"@) {
        Some(("dk"@, ""@))
    } else if lower_chars(n) == lower_chars("Finnish"@) {
        Some(("fi"@, ""@))
    } else if lower_chars(n) == lower_chars("Icelandic"@) {
        Some(("is"@, ""@))
    } else if lower_chars(n) == lower_chars("Polish"@) {
        Some(("pl"@, ""@))
    } else if lower_chars(n) == lower_chars("Czech"@) {
        Some(("cz"@, ""@))
    } else if lower_chars(n) == lower_chars("Slovak"@) {
        Some(("sk"@, ""@))
    } else if lower_chars(n) == lower_chars("Hungarian"@) {
        Some(("hu"@, ""@))
    } else if lower_chars(n) == lower_chars("Romanian"@) {
        Some(("ro"@, ""@))
    } else if lower_chars(n) == lower_chars("Croatian"@) {
        Some(("hr"@, ""@))
    } else if lower_chars(n) == lower_chars("Serbian"@) {
        Some(("rs"@, ""@))
    } else if lower_chars(n) == lower_chars("Serbian (Latin)"@) {
        Some(("rs"@, "latin"@))
    } else if lower_chars(n) == lower_chars("Slovenian"@) {
        Some(("si"@, ""@))
    } else if lower_chars(n) == lower_chars("Bulgarian"@) {
        Some(("bg"@, ""@))
    } else if lower_chars(n) == lower_chars("Bulgarian (phonetic)"@) {
        Some(("bg"@, "phonetic"@))
    } else if lower_chars(n) == lower_chars("Russian"@) {
        Some(("ru"@, ""@))
    } else if lower_chars(n) == lower_chars("Russian (phonetic)"@) {
        Some(("ru"@, "phonetic"@))
    } else if lower_chars(n) == lower_chars("Ukrainian"@) {
        Some(("ua"@, ""@))
    } else if lower_chars(n) == lower_chars("Belarusian"@) {
        Some(("by"@, ""@))
    } else if lower_chars(n) == lower_chars("Greek"@) {
        Some(("gr"@, ""@))
    } else if lower_chars(n) == lower_chars("Turkish"@) {
        Some(("tr"@, ""@))
    } else if lower_chars(n) == lower_chars("Turkish (F)"@) {
        Some(("tr"@, "f"@))
    } else if lower_chars(n) == lower_chars("Arabic"@) {
        Some(("ara"@, ""@))
    } else if lower_chars(n) == lower_chars("Hebrew"@) {
        Some(("il"@, ""@))
    } else if lower_chars(n) == lower_chars("Japanese"@) {
        Some(("jp"@, ""@))
    } else if lower_chars(n) == lower_chars("Japanese (Kana)"@) {
        Some(("jp"@, "kana"@))
    } else if lower_chars(n) == lower_chars("Korean"@) {
        Some(("kr"@, ""@))
    } else if lower_chars(n) == lower_chars("Chinese"@) {
        Some(("cn"@, ""@))
    } else if lower_chars(n) == lower_chars("Thai"@) {
        Some(("th"@, ""@))
    } else if lower_chars(n) == lower_chars("Vietnamese"@) {
        Some(("vn"@, ""@))
    } else if lower_chars(n) == lower_chars("Hindi"@) {
        Some(("in"@, ""@))
    } else if lower_chars(n) == lower_chars("Indian"@) {
        Some(("in"@, ""@))
    } else if lower_chars(n) == lower_chars("Dutch"@) {
        Some(("nl"@, ""@))
    } else if lower_chars(n) == lower_chars("Dutch (Belgium)"@) {
        Some(("be"@, ""@))
    } else if lower_chars(n) == lower_chars("Esperanto"@) {
        Some(("epo"@, ""@))
    } else if lower_chars(n) == lower_chars("Irish"@) {
        Some(("ie"@, ""@))
    } else if lower_chars(n) == lower_chars("Estonian"@) {
        Some(("ee"@, ""@))
    } else if lower_chars(n) == lower_chars("Latvian"@) {
        Some(("lv"@, ""@))
    } else if lower_chars(n) == lower_chars("Lithuanian"@) {
        Some(("lt"@, ""@))
    } else {
        None
    }
}

/// The identifier for a common language base taken from before a
/// parenthesis, already lower-cased and trimmed.
pub open spec fn base_lookup_spec(b: Seq<char>) -> Option<Seq<char>> {
    if b == "spanish"@ {
        Some("es"@)
    } else if b == "english"@ {
        Some("us"@)
    } else if b == "german"@ {
        Some("de"@)
    } else if b == "french"@ {
        Some("fr"@)
    } else if b == "portuguese"@ {
        Some("pt"@)
    } else if b == "italian"@ {
        Some("it"@)
    } else if b == "russian"@ {
        Some("ru"@)
    } else if b == "polish"@ {
        Some("pl"@)
    } else if b == "dutch"@ {
        Some("nl"@)
    } else if b == "swedish"@ {
        Some("se"@)
    } else if b == "norwegian"@ {
        Some("no"@)
    } else if b == "danish"@ {
        Some("dk"@)
    } else if b == "finnish"@ {
        Some("fi"@)
    } else if b == "japanese"@ {
        Some("jp"@)
    } else if b == "korean"@ {
        Some("kr"@)
    } else if b == "chinese"@ {
        Some("cn"@)
    } else {
        None
    }
}

/// What a layout name resolves to: the exact table entry, else the
/// case-insensitive entry, else the common-base heuristic on the text before
/// the first parenthesis, else a short all-lower-case name taken as the
/// identifier itself, else the `"us"` fallback.
pub open spec fn resolve_layout_spec(n: Seq<char>) -> (Seq<char>, Seq<char>) {
    match exact_lookup_spec(n) {
        Some(p) => p,
        None => match ci_lookup_spec(n) {
            Some(p) => p,
            None => {
                let base_hit = match crate::text::first_char_from(n, '(', 0) {
                    Some(pp) => base_lookup_spec(lower_chars(trim_spec(n.subrange(0, pp)))),
                    None => None,
                };
                match base_hit {
                    Some(b) => (b, ""@),
                    None => {
                        let t = trim_spec(n);
                        if t.len() <= 5 && (forall|i: int|
                            0 <= i < t.len() ==> is_ascii_lower_char(#[trigger] t[i])) {
                            (t, ""@)
                        } else {
                            ("us"@, ""@)
                        }
                    },
                }
            },
        },
    }
}

/// All characters are ASCII lower-case letters.
fn all_ascii_lower(v: &Vec<char>) -> (r: bool)
    ensures
        r == (forall|i: int| 0 <= i < v@.len() ==> is_ascii_lower_char(#[trigger] v@[i])),
{
    let n = v.len();
    let mut i: usize = 0;
    while i < n
        invariant
            i <= n,
            n == v@.len(),
            forall|k: int| 0 <= k < i ==> is_ascii_lower_char(#[trigger] v@[k]),
        decreases n - i,
    {
        if !crate::text::ascii_lower_char(v[i]) {
            return false;
        }
        i += 1;
    }
    true
}

/// Resolve a layout display name to an (identifier, variant) pair.
pub fn parse_layout_name(name: &str) -> (r: (String, String))
    ensures
        (r.0@, r.1@) == resolve_layout_spec(name@),
{
    let nc = str_to_chars(name);
    if chars_eq_str(&nc, "Spanish (Latin American)") {
        return ("latam".to_owned(), "".to_owned());
    }
    if chars_eq_str(&nc, "Spanish") {
        return ("es".to_owned(), "".to_owned());
    }
    if chars_eq_str(&nc, "Spanish (Spain)") {
        return ("es".to_owned(), "".to_owned());
    }
    if chars_eq_str(&nc, "Spanish (Dvorak)") {
        return ("es".to_owned(), "dvorak".to_owned());
    }
    if chars_eq_str(&nc, "Spanish (Catalan)") {
        return ("es".to_owned(), "cat".to_owned());
    }
    if chars_eq_str(&nc, "Spanish (Mexico)") {
        return ("latam".to_owned(), "".to_owned());
    }
    if chars_eq_str(&nc, "Spanish (Argentina)") {
        return ("latam".to_owned(), "".to_owned());
    }
    if chars_eq_str(&nc, "English (US)") {
        return ("us".to_owned(), "".to_owned());
    }
    if chars_eq_str(&nc, "English") {
        return ("us".to_owned(), "".to_owned());
    }
    if chars_eq_str(&nc, "US") {
        return ("us".to_owned(), "".to_owned());
    }
    if chars_eq_str(&nc, "English (UK)") {
        return ("gb".to_owned(), "".to_owned());
    }
    if chars_eq_str(&nc, "English (British)") {
        return ("gb".to_owned(), "".to_owned());
    }
    if chars_eq_str(&nc, "British") {
        return ("gb".to_owned(), "".to_owned());
    }
    if chars_eq_str(&nc, "English (Dvorak)") {
        return ("us".to_owned(), "dvorak".to_owned());
    }
    if chars_eq_str(&nc, "English (Colemak)") {
        return ("us".to_owned(), "colemak".to_owned());
    }
    if chars_eq_str(&nc, "English (intl)") {
        return ("us".to_owned(), "intl".to_owned());
    }
    if chars_eq_str(&nc, "English (US, intl.)") {
        return ("us".to_owned(), "intl".to_owned());
    }
    if chars_eq_str(&nc, "English (US, international)") {
        return ("us".to_owned(), "intl".to_owned());
    }
    if chars_eq_str(&nc, "English (US, alt. intl.)") {
        return ("us".to_owned(), "alt-intl".to_owned());
    }
    if chars_eq_str(&nc, "English (Macintosh)") {
        return ("us".to_owned(), "mac".to_owned());
    }
    if chars_eq_str(&nc, "German") {
        return ("de".to_owned(), "".to_owned());
    }
    if chars_eq_str(&nc, "German (Switzerland)") {
        return ("ch".to_owned(), "de".to_owned());
    }
    if chars_eq_str(&nc, "German (Austria)") {
        return ("at".to_owned(), "".to_owned());
    }
    if chars_eq_str(&nc, "German (Dvorak)") {
        return ("de".to_owned(), "dvorak".to_owned());
    }
    if chars_eq_str(&nc, "German (Neo)") {
        return ("de".to_owned(), "neo".to_owned());
    }
    if chars_eq_str(&nc, "French") {
        return ("fr".to_owned(), "".to_owned());
    }
    if chars_eq_str(&nc, "French (Canada)") {
        return ("ca".to_owned(), "fr".to_owned());
    }
    if chars_eq_str(&nc, "French (Belgium)") {
        return ("be".to_owned(), "".to_owned());
    }
    if chars_eq_str(&nc, "French (Switzerland)") {
        return ("ch".to_owned(), "fr".to_owned());
    }
    if chars_eq_str(&nc, "French (AZERTY)") {
        return ("fr".to_owned(), "".to_owned());
    }
    if chars_eq_str(&nc, "French (Dvorak)") {
        return ("fr".to_owned(), "dvorak".to_owned());
    }
    if chars_eq_str(&nc, "French (BEPO)") {
        return ("fr".to_owned(), "bepo".to_owned());
    }
    if chars_eq_str(&nc, "Portuguese") {
        return ("pt".to_owned(), "".to_owned());
    }
    if chars_eq_str(&nc, "Portuguese (Brazil)") {
        return ("br".to_owned(), "".to_owned());
    }
    if chars_eq_str(&nc, "Portuguese (Portugal)") {
        return ("pt".to_owned(), "".to_owned());
    }
    if chars_eq_str(&nc, "Brazilian") {
        return ("br".to_owned(), "".to_owned());
    }
    if chars_eq_str(&nc, "Italian") {
        return ("it".to_owned(), "".to_owned());
    }
    if chars_eq_str(&nc, "Italian (Macintosh)") {
        return ("it".to_owned(), "mac".to_owned());
    }
    if chars_eq_str(&nc, "Swedish") {
        return ("se".to_owned(), "".to_owned());
    }
    if chars_eq_str(&nc, "Norwegian") {
        return ("no".to_owned(), "".to_owned());
    }
    if chars_eq_str(&nc, "Danish") {
        return ("dk".to_owned(), "".to_owned());
    }
    if chars_eq_str(&nc, "Finnish") {
        return ("fi".to_owned(), "".to_owned());
    }
    if chars_eq_str(&nc, "Icelandic") {
        return ("is".to_owned(), "".to_owned());
    }
    if chars_eq_str(&nc, "Polish") {
        return ("pl".to_owned(), "".to_owned());
    }
    if chars_eq_str(&nc, "Czech") {
        return ("cz".to_owned(), "".to_owned());
    }
    if chars_eq_str(&nc, "Slovak") {
        return ("sk".to_owned(), "".to_owned());
    }
    if chars_eq_str(&nc, "Hungarian") {
        return ("hu".to_owned(), "".to_owned());
    }
    if chars_eq_str(&nc, "Romanian") {
        return ("ro".to_owned(), "".to_owned());
    }
    if chars_eq_str(&nc, "Croatian") {
        return ("hr".to_owned(), "".to_owned());
    }
    if chars_eq_str(&nc, "Serbian") {
        return ("rs".to_owned(), "".to_owned());
    }
    if chars_eq_str(&nc, "Serbian (Latin)") {
        return ("rs".to_owned(), "latin".to_owned());
    }
    if chars_eq_str(&nc, "Slovenian") {
        return ("si".to_owned(), "".to_owned());
    }
    if chars_eq_str(&nc, "Bulgarian") {
        return ("bg".to_owned(), "".to_owned());
    }
    if chars_eq_str(&nc, "Bulgarian (phonetic)") {
        return ("bg".to_owned(), "phonetic".to_owned());
    }
    if chars_eq_str(&nc, "Russian") {
        return ("ru".to_owned(), "".to_owned());
    }
    if chars_eq_str(&nc, "Russian (phonetic)") {
        return ("ru".to_owned(), "phonetic".to_owned());
    }
    if chars_eq_str(&nc, "Ukrainian") {
        return ("ua".to_owned(), "".to_owned());
    }
    if chars_eq_str(&nc, "Belarusian") {
        return ("by".to_owned(), "".to_owned());
    }
    if chars_eq_str(&nc, "Greek") {
        return ("gr".to_owned(), "".to_owned());
    }
    if chars_eq_str(&nc, "Turkish") {
        return ("tr".to_owned(), "".to_owned());
    }
    if chars_eq_str(&nc, "Turkish (F)") {
        return ("tr".to_owned(), "f".to_owned());
    }
    if chars_eq_str(&nc, "Arabic") {
        return ("ara".to_owned(), "".to_owned());
    }
    if chars_eq_str(&nc, "Hebrew") {
        return ("il".to_owned(), "".to_owned());
    }
    if chars_eq_str(&nc, "Japanese") {
        return ("jp".to_owned(), "".to_owned());
    }
    if chars_eq_str(&nc, "Japanese (Kana)") {
        return ("jp".to_owned(), "kana".to_owned());
    }
    if chars_eq_str(&nc, "Korean") {
        return ("kr".to_owned(), "".to_owned());
    }
    if chars_eq_str(&nc, "Chinese") {
        return ("cn".to_owned(), "".to_owned());
    }
    if chars_eq_str(&nc, "Thai") {
        return ("th".to_owned(), "".to_owned());
    }
    if chars_eq_str(&nc, "Vietnamese") {
        return ("vn".to_owned(), "".to_owned());
    }
    if chars_eq_str(&nc, "Hindi") {
        return ("in".to_owned(), "".to_owned());
    }
    if chars_eq_str(&nc, "Indian") {
        return ("in".to_owned(), "".to_owned());
    }
    if chars_eq_str(&nc, "Dutch") {
        return ("nl".to_owned(), "".to_owned());
    }
    if chars_eq_str(&nc, "Dutch (Belgium)") {
        return ("be".to_owned(), "".to_owned());
    }
    if chars_eq_str(&nc, "Esperanto") {
        return ("epo".to_owned(), "".to_owned());
    }
    if chars_eq_str(&nc, "Irish") {
        return ("ie".to_owned(), "".to_owned());
    }
    if chars_eq_str(&nc, "Estonian") {
        return ("ee".to_owned(), "".to_owned());
    }
    if chars_eq_str(&nc, "Latvian") {
        return ("lv".to_owned(), "".to_owned());
    }
    if chars_eq_str(&nc, "Lithuanian") {
        return ("lt".to_owned(), "".to_owned());
    }
    if chars_ieq_str(&nc, "Spanish (Latin American)") {
        return ("latam".to_owned(), "".to_owned());
    }
    if chars_ieq_str(&nc, "Spanish") {
        return ("es".to_owned(), "".to_owned());
    }
    if chars_ieq_str(&nc, "Spanish (Spain)") {
        return ("es".to_owned(), "".to_owned());
    }
    if chars_ieq_str(&nc, "Spanish (Dvorak)") {
        return ("es".to_owned(), "dvorak".to_owned());
    }
    if chars_ieq_str(&nc, "Spanish (Catalan)") {
        return ("es".to_owned(), "cat".to_owned());
    }
    if chars_ieq_str(&nc, "Spanish (Mexico)") {
        return ("latam".to_owned(), "".to_owned());
    }
    if chars_ieq_str(&nc, "Spanish (Argentina)") {
        return ("latam".to_owned(), "".to_owned());
    }
    if chars_ieq_str(&nc, "English (US)") {
        return ("us".to_owned(), "".to_owned());
    }
    if chars_ieq_str(&nc, "English") {
        return ("us".to_owned(), "".to_owned());
    }
    if chars_ieq_str(&nc, "US") {
        return ("us".to_owned(), "".to_owned());
    }
    if chars_ieq_str(&nc, "English (UK)") {
        return ("gb".to_owned(), "".to_owned());
    }
    if chars_ieq_str(&nc, "English (British)") {
        return ("gb".to_owned(), "".to_owned());
    }
    if chars_ieq_str(&nc, "British") {
        return ("gb".to_owned(), "".to_owned());
    }
    if chars_ieq_str(&nc, "English (Dvorak)") {
        return ("us".to_owned(), "dvorak".to_owned());
    }
    if chars_ieq_str(&nc, "English (Colemak)") {
        return ("us".to_owned(), "colemak".to_owned());
    }
    if chars_ieq_str(&nc, "English (intl)") {
        return ("us".to_owned(), "intl".to_owned());
    }
    if chars_ieq_str(&nc, "English (US, intl.)") {
        return ("us".to_owned(), "intl".to_owned());
    }
    if chars_ieq_str(&nc, "English (US, international)") {
        return ("us".to_owned(), "intl".to_owned());
    }
    if chars_ieq_str(&nc, "English (US, alt. intl.)") {
        return ("us".to_owned(), "alt-intl".to_owned());
    }
    if chars_ieq_str(&nc, "English (Macintosh)") {
        return ("us".to_owned(), "mac".to_owned());
    }
    if chars_ieq_str(&nc, "German") {
        return ("de".to_owned(), "".to_owned());
    }
    if chars_ieq_str(&nc, "German (Switzerland)") {
        return ("ch".to_owned(), "de".to_owned());
    }
    if chars_ieq_str(&nc, "German (Austria)") {
        return ("at".to_owned(), "".to_owned());
    }
    if chars_ieq_str(&nc, "German (Dvorak)") {
        return ("de".to_owned(), "dvorak".to_owned());
    }
    if chars_ieq_str(&nc, "German (Neo)") {
        return ("de".to_owned(), "neo".to_owned());
    }
    if chars_ieq_str(&nc, "French") {
        return ("fr".to_owned(), "".to_owned());
    }
    if chars_ieq_str(&nc, "French (Canada)") {
        return ("ca".to_owned(), "fr".to_owned());
    }
    if chars_ieq_str(&nc, "French (Belgium)") {
        return ("be".to_owned(), "".to_owned());
    }
    if chars_ieq_str(&nc, "French (Switzerland)") {
        return ("ch".to_owned(), "fr".to_owned());
    }
    if chars_ieq_str(&nc, "French (AZERTY)") {
        return ("fr".to_owned(), "".to_owned());
    }
    if chars_ieq_str(&nc, "French (Dvorak)") {
        return ("fr".to_owned(), "dvorak".to_owned());
    }
    if chars_ieq_str(&nc, "French (BEPO)") {
        return ("fr".to_owned(), "bepo".to_owned());
    }
    if chars_ieq_str(&nc, "Portuguese") {
        return ("pt".to_owned(), "".to_owned());
    }
    if chars_ieq_str(&nc, "Portuguese (Brazil)") {
        return ("br".to_owned(), "".to_owned());
    }
    if chars_ieq_str(&nc, "Portuguese (Portugal)") {
        return ("pt".to_owned(), "".to_owned());
    }
    if chars_ieq_str(&nc, "Brazilian") {
        return ("br".to_owned(), "".to_owned());
    }
    if chars_ieq_str(&nc, "Italian") {
        return ("it".to_owned(), "".to_owned());
    }
    if chars_ieq_str(&nc, "Italian (Macintosh)") {
        return ("it".to_owned(), "mac".to_owned());
    }
    if chars_ieq_str(&nc, "Swedish") {
        return ("se".to_owned(), "".to_owned());
    }
    if chars_ieq_str(&nc, "Norwegian") {
        return ("no".to_owned(), "".to_owned());
    }
    if chars_ieq_str(&nc, "Danish") {
        return ("dk".to_owned(), "".to_owned());
    }
    if chars_ieq_str(&nc, "Finnish") {
        return ("fi".to_owned(), "".to_owned());
    }
    if chars_ieq_str(&nc, "Icelandic") {
        return ("is".to_owned(), "".to_owned());
    }
    if chars_ieq_str(&nc, "Polish") {
        return ("pl".to_owned(), "".to_owned());
    }
    if chars_ieq_str(&nc, "Czech") {
        return ("cz".to_owned(), "".to_owned());
    }
    if chars_ieq_str(&nc, "Slovak") {
        return ("sk".to_owned(), "".to_owned());
    }
    if chars_ieq_str(&nc, "Hungarian") {
        return ("hu".to_owned(), "".to_owned());
    }
    if chars_ieq_str(&nc, "Romanian") {
        return ("ro".to_owned(), "".to_owned());
    }
    if chars_ieq_str(&nc, "Croatian") {
        return ("hr".to_owned(), "".to_owned());
    }
    if chars_ieq_str(&nc, "Serbian") {
        return ("rs".to_owned(), "".to_owned());
    }
    if chars_ieq_str(&nc, "Serbian (Latin)") {
        return ("rs".to_owned(), "latin".to_owned());
    }
    if chars_ieq_str(&nc, "Slovenian") {
        return ("si".to_owned(), "".to_owned());
    }
    if chars_ieq_str(&nc, "Bulgarian") {
        return ("bg".to_owned(), "".to_owned());
    }
    if chars_ieq_str(&nc, "Bulgarian (phonetic)") {
        return ("bg".to_owned(), "phonetic".to_owned());
    }
    if chars_ieq_str(&nc, "Russian") {
        return ("ru".to_owned(), "".to_owned());
    }
    if chars_ieq_str(&nc, "Russian (phonetic)") {
        return ("ru".to_owned(), "phonetic".to_owned());
    }
    if chars_ieq_str(&nc, "Ukrainian") {
        return ("ua".to_owned(), "".to_owned());
    }
    if chars_ieq_str(&nc, "Belarusian") {
        return ("by".to_owned(), "".to_owned());
    }
    if chars_ieq_str(&nc, "Greek") {
        return ("gr".to_owned(), "".to_owned());
    }
    if chars_ieq_str(&nc, "Turkish") {
        return ("tr".to_owned(), "".to_owned());
    }
    if chars_ieq_str(&nc, "Turkish (F)") {
        return ("tr".to_owned(), "f".to_owned());
    }
    if chars_ieq_str(&nc, "Arabic") {
        return ("ara".to_owned(), "".to_owned());
    }
    if chars_ieq_str(&nc, "Hebrew") {
        return ("il".to_owned(), "".to_owned());
    }
    if chars_ieq_str(&nc, "Japanese") {
        return ("jp".to_owned(), "".to_owned());
    }
    if chars_ieq_str(&nc, "Japanese (Kana)") {
        return ("jp".to_owned(), "kana".to_owned());
    }
    if chars_ieq_str(&nc, "Korean") {
        return ("kr".to_owned(), "".to_owned());
    }
    if chars_ieq_str(&nc, "Chinese") {
        return ("cn".to_owned(), "".to_owned());
    }
    if chars_ieq_str(&nc, "Thai") {
        return ("th".to_owned(), "".to_owned());
    }
    if chars_ieq_str(&nc, "Vietnamese") {
        return ("vn".to_owned(), "".to_owned());
    }
    if chars_ieq_str(&nc, "Hindi") {
        return ("in".to_owned(), "".to_owned());
    }
    if chars_ieq_str(&nc, "Indian") {
        return ("in".to_owned(), "".to_owned());
    }
    if chars_ieq_str(&nc, "Dutch") {
        return ("nl".to_owned(), "".to_owned());
    }
    if chars_ieq_str(&nc, "Dutch (Belgium)") {
        return ("be".to_owned(), "".to_owned());
    }
    if chars_ieq_str(&nc, "Esperanto") {
        return ("epo".to_owned(), "".to_owned());
    }
    if chars_ieq_str(&nc, "Irish") {
        return ("ie".to_owned(), "".to_owned());
    }
    if chars_ieq_str(&nc, "Estonian") {
        return ("ee".to_owned(), "".to_owned());
    }
    if chars_ieq_str(&nc, "Latvian") {
        return ("lv".to_owned(), "".to_owned());
    }
    if chars_ieq_str(&nc, "Lithuanian") {
        return ("lt".to_owned(), "".to_owned());
    }
    if let Some(pp) = find_char(&nc, '(', 0) {
        proof {
            crate::text::lemma_first_char_some(nc@, '(', 0, pp as int);
        }
        let prefix = sub_chars(&nc, 0, pp);
        let trimmed = trim_chars(&prefix);
        let base = to_lower_chars(&trimmed);
        if chars_eq_str(&base, "spanish") {
            return ("es".to_owned(), "".to_owned());
        }
        if chars_eq_str(&base, "english") {
            return ("us".to_owned(), "".to_owned());
        }
        if chars_eq_str(&base, "german") {
            return ("de".to_owned(), "".to_owned());
        }
        if chars_eq_str(&base, "french") {
            return ("fr".to_owned(), "".to_owned());
        }
        if chars_eq_str(&base, "portuguese") {
            return ("pt".to_owned(), "".to_owned());
        }
        if chars_eq_str(&base, "italian") {
            return ("it".to_owned(), "".to_owned());
        }
        if chars_eq_str(&base, "russian") {
            return ("ru".to_owned(), "".to_owned());
        }
        if chars_eq_str(&base, "polish") {
            return ("pl".to_owned(), "".to_owned());
        }
        if chars_eq_str(&base, "dutch") {
            return ("nl".to_owned(), "".to_owned());
        }
        if chars_eq_str(&base, "swedish") {
            return ("se".to_owned(), "".to_owned());
        }
        if chars_eq_str(&base, "norwegian") {
            return ("no".to_owned(), "".to_owned());
        }
        if chars_eq_str(&base, "danish") {
            return ("dk".to_owned(), "".to_owned());
        }
        if chars_eq_str(&base, "finnish") {
            return ("fi".to_owned(), "".to_owned());
        }
        if chars_eq_str(&base, "japanese") {
            return ("jp".to_owned(), "".to_owned());
        }
        if chars_eq_str(&base, "korean") {
            return ("kr".to_owned(), "".to_owned());
        }
        if chars_eq_str(&base, "chinese") {
            return ("cn".to_owned(), "".to_owned());
        }
    }
    let t = trim_chars(&nc);
    if t.len() <= 5 && all_ascii_lower(&t) {
        let id = chars_to_string(&t);
        return (id, "".to_owned());
    }
    ("us".to_owned(), "".to_owned())
}

} // verus!
