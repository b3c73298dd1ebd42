use vstd::prelude::*;
use crate::article::Artikel;
use crate::article::ArtikelListe;
use crate::article::ArtikelView;
use crate::article::Merkmal;
use crate::article::MerkmalView;
use crate::text::push_char;
use crate::text::to_chars;

verus! {

// ---------------------------------------------------------------------------
// The catalog document grammar, as a mathematical function of the text.
//
// The document is a JSON object whose `artikel_liste` member is an array of
// record objects; every known record member is a string, `merkmale` is an
// array of attribute objects, unknown members are skipped, a repeated member
// overwrites the earlier one, and missing members keep their default (empty)
// value. Two deliberate restrictions against full JSON: `\u` escapes must
// denote a scalar value on their own (surrogate pairs are rejected), and the
// digit string of a skipped number is scanned leniently (any run of digit,
// sign, dot and exponent characters after a leading digit or minus).
//
// Each spec function takes the text and a position and gives the parsed
// value with the position behind it, or `None` when the text is malformed.
// The `if q < p` style tests on positions handed back by other parse
// functions keep every recursion visibly well founded; the parse functions
// never move backwards, so those arms give no `None` a caller could see.
// ---------------------------------------------------------------------------
/// The character a `\uXXXX` escape with the given code denotes; named after
/// std's char::from_u32.
pub uninterp spec fn char_of(code: u32) -> char;

/// Relies on char::from_u32: `Some` exactly for the codes that are Unicode
/// scalar values.
#[verifier::external_body]
fn char_from_code(code: u32) -> (r: Option<char>)
    ensures
        r == (if code < 0xD800 || (0xE000 <= code && code <= 0x10FFFF) {
            Some(char_of(code))
        } else {
            None::<char>
        }),
{
    char::from_u32(code)
}

pub open spec fn sp_is_ws(c: char) -> bool {
    c == ' ' || c == '\t' || c == '\n' || c == '\r'
}

/// The first position at or behind `p` that holds no white space.
pub open spec fn sp_ws(s: Seq<char>, p: int) -> int
    decreases s.len() - p,
{
    if 0 <= p < s.len() && sp_is_ws(s[p]) {
        sp_ws(s, p + 1)
    } else {
        p
    }
}

pub open spec fn sp_is_digit(c: char) -> bool {
    48 <= c as u32 && c as u32 <= 57
}

/// The value of one hex digit.
pub open spec fn sp_hex_val(c: char) -> Option<u32> {
    let d = c as u32;
    if 48 <= d && d <= 57 {
        Some((d - 48) as u32)
    } else if 97 <= d && d <= 102 {
        Some((d - 87) as u32)
    } else if 65 <= d && d <= 70 {
        Some((d - 55) as u32)
    } else {
        None
    }
}

/// The code a `\uXXXX` escape spells, if all four are hex digits.
pub open spec fn sp_hex4(s: Seq<char>, p: int) -> Option<u32> {
    if sp_hex_val(s[p]) is Some && sp_hex_val(s[p + 1]) is Some && sp_hex_val(s[p + 2]) is Some
        && sp_hex_val(s[p + 3]) is Some {
        Some(
            (sp_hex_val(s[p]).unwrap() * 4096 + sp_hex_val(s[p + 1]).unwrap() * 256 + sp_hex_val(
                s[p + 2],
            ).unwrap() * 16 + sp_hex_val(s[p + 3]).unwrap()) as u32,
        )
    } else {
        None
    }
}

/// The body of a string literal, from behind the opening quote: the decoded
/// characters and the position behind the closing quote.
pub open spec fn sp_string_body(s: Seq<char>, p: int, acc: Seq<char>) -> Option<(Seq<char>, int)>
    decreases s.len() - p,
{
    if !(0 <= p < s.len()) {
        None
    } else {
        let c = s[p];
        if c == '"' {
            Some((acc, p + 1))
        } else if c == '\\' {
            if p + 2 <= s.len() {
                let e = s[p + 1];
                if e == '"' {
                    sp_string_body(s, p + 2, acc.push('"'))
                } else if e == '\\' {
                    sp_string_body(s, p + 2, acc.push('\\'))
                } else if e == '/' {
                    sp_string_body(s, p + 2, acc.push('/'))
                } else if e == 'b' {
                    sp_string_body(s, p + 2, acc.push('\u{8}'))
                } else if e == 'f' {
                    sp_string_body(s, p + 2, acc.push('\u{c}'))
                } else if e == 'n' {
                    sp_string_body(s, p + 2, acc.push('\n'))
                } else if e == 'r' {
                    sp_string_body(s, p + 2, acc.push('\r'))
                } else if e == 't' {
                    sp_string_body(s, p + 2, acc.push('\t'))
                } else if e == 'u' {
                    if p + 6 <= s.len() && sp_hex4(s, p + 2) is Some {
                        let code = sp_hex4(s, p + 2).unwrap();
                        if code < 0xD800 {
                            sp_string_body(s, p + 6, acc.push(char_of(code)))
                        } else if code >= 0xE000 {
                            sp_string_body(s, p + 6, acc.push(char_of(code)))
                        } else {
                            None
                        }
                    } else {
                        None
                    }
                } else {
                    None
                }
            } else {
                None
            }
        } else {
            sp_string_body(s, p + 1, acc.push(c))
        }
    }
}

/// A string literal at `p`: its decoded characters and the position behind
/// the closing quote.
pub open spec fn sp_string(s: Seq<char>, p: int) -> Option<(Seq<char>, int)> {
    if 0 <= p < s.len() && s[p] == '"' {
        sp_string_body(s, p + 1, Seq::empty())
    } else {
        None
    }
}

pub open spec fn sp_is_num_char(c: char) -> bool {
    sp_is_digit(c) || c == '.' || c == 'e' || c == 'E' || c == '+' || c == '-'
}

/// The first position behind a run of number characters.
pub open spec fn sp_num_tail(s: Seq<char>, p: int) -> int
    decreases s.len() - p,
{
    if 0 <= p < s.len() && sp_is_num_char(s[p]) {
        sp_num_tail(s, p + 1)
    } else {
        p
    }
}

/// A number token at `p`: the position behind it.
pub open spec fn sp_number(s: Seq<char>, p: int) -> Option<int> {
    if 0 <= p < s.len() && (s[p] == '-' || sp_is_digit(s[p])) {
        Some(sp_num_tail(s, p + 1))
    } else {
        None
    }
}

/// Skip one JSON value of any shape: the position behind it.
pub open spec fn sp_skip_value(s: Seq<char>, p: int) -> Option<int>
    decreases s.len() - p, 0int,
{
    if !(0 <= p < s.len()) {
        None
    } else {
        let c = s[p];
        if c == '"' {
            match sp_string(s, p) {
                Some((t, q)) => Some(q),
                None => None,
            }
        } else if c == 't' {
            if p + 4 <= s.len() && s[p + 1] == 'r' && s[p + 2] == 'u' && s[p + 3] == 'e' {
                Some(p + 4)
            } else {
                None
            }
        } else if c == 'f' {
            if p + 5 <= s.len() && s[p + 1] == 'a' && s[p + 2] == 'l' && s[p + 3] == 's' && s[p
                + 4] == 'e' {
                Some(p + 5)
            } else {
                None
            }
        } else if c == 'n' {
            if p + 4 <= s.len() && s[p + 1] == 'u' && s[p + 2] == 'l' && s[p + 3] == 'l' {
                Some(p + 4)
            } else {
                None
            }
        } else if c == '-' || sp_is_digit(c) {
            sp_number(s, p)
        } else if c == '[' {
            sp_skip_items(s, p + 1, true)
        } else if c == '{' {
            sp_skip_members(s, p + 1, true)
        } else {
            None
        }
    }
}

/// Skip the items of an array, from behind the `[` or behind a comma.
pub open spec fn sp_skip_items(s: Seq<char>, p: int, first: bool) -> Option<int>
    decreases s.len() - p, 1int,
{
    let q = sp_ws(s, p);
    if !(p <= q && q < s.len()) {
        None
    } else if s[q] == ']' {
        if first {
            Some(q + 1)
        } else {
            None
        }
    } else {
        match sp_skip_value(s, q) {
            Some(r) => {
                if !(q < r && r <= s.len()) {
                    None
                } else {
                    let w = sp_ws(s, r);
                    if !(r <= w && w < s.len()) {
                        None
                    } else if s[w] == ',' {
                        sp_skip_items(s, w + 1, false)
                    } else if s[w] == ']' {
                        Some(w + 1)
                    } else {
                        None
                    }
                }
            },
            None => None,
        }
    }
}

/// Skip the members of an object, from behind the `{` or behind a comma.
pub open spec fn sp_skip_members(s: Seq<char>, p: int, first: bool) -> Option<int>
    decreases s.len() - p, 1int,
{
    let q = sp_ws(s, p);
    if !(p <= q && q < s.len()) {
        None
    } else if s[q] == '}' {
        if first {
            Some(q + 1)
        } else {
            None
        }
    } else if s[q] == '"' {
        match sp_string(s, q) {
            Some((k, r)) => {
                if !(q < r && r <= s.len()) {
                    None
                } else {
                    let w = sp_ws(s, r);
                    if !(r <= w && w < s.len()) {
                        None
                    } else if s[w] != ':' {
                        None
                    } else {
                        let u = sp_ws(s, w + 1);
                        if !(w + 1 <= u && u <= s.len()) {
                            None
                        } else {
                            match sp_skip_value(s, u) {
                                Some(t) => {
                                    if !(u < t && t <= s.len()) {
                                        None
                                    } else {
                                        let z = sp_ws(s, t);
                                        if !(t <= z && z < s.len()) {
                                            None
                                        } else if s[z] == ',' {
                                            sp_skip_members(s, z + 1, false)
                                        } else if s[z] == '}' {
                                            Some(z + 1)
                                        } else {
                                            None
                                        }
                                    }
                                },
                                None => None,
                            }
                        }
                    }
                }
            },
            None => None,
        }
    } else {
        None
    }
}

pub open spec fn sp_empty_merkmal() -> MerkmalView {
    MerkmalView { merkmal: Seq::empty(), wert: Seq::empty(), einheit: Seq::empty() }
}

pub open spec fn sp_is_merkmal_key(k: Seq<char>) -> bool {
    k == "merkmal"@ || k == "wert"@ || k == "einheit"@
}

/// The attribute with one member set; an unknown member changes nothing.
pub open spec fn sp_set_merkmal_field(m: MerkmalView, k: Seq<char>, val: Seq<char>) -> MerkmalView {
    if k == "merkmal"@ {
        MerkmalView { merkmal: val, ..m }
    } else if k == "wert"@ {
        MerkmalView { wert: val, ..m }
    } else if k == "einheit"@ {
        MerkmalView { einheit: val, ..m }
    } else {
        m
    }
}

/// The members of one attribute object, from behind the `{` or a comma:
/// known members are strings, unknown members are skipped.
pub open spec fn sp_merkmal_members(s: Seq<char>, p: int, m: MerkmalView, first: bool) -> Option<
    (MerkmalView, int),
>
    decreases s.len() - p,
{
    let q = sp_ws(s, p);
    if !(p <= q && q < s.len()) {
        None
    } else if s[q] == '}' {
        if first {
            Some((m, q + 1))
        } else {
            None
        }
    } else if s[q] == '"' {
        match sp_string(s, q) {
            Some((k, r)) => {
                if !(q < r && r <= s.len()) {
                    None
                } else {
                    let w = sp_ws(s, r);
                    if !(r <= w && w < s.len()) {
                        None
                    } else if s[w] != ':' {
                        None
                    } else {
                        let u = sp_ws(s, w + 1);
                        if !(w + 1 <= u && u <= s.len()) {
                            None
                        } else if sp_is_merkmal_key(k) {
                            match sp_string(s, u) {
                                Some((val, t)) => {
                                    if !(u < t && t <= s.len()) {
                                        None
                                    } else {
                                        let m2 = sp_set_merkmal_field(m, k, val);
                                        let z = sp_ws(s, t);
                                        if !(t <= z && z < s.len()) {
                                            None
                                        } else if s[z] == ',' {
                                            sp_merkmal_members(s, z + 1, m2, false)
                                        } else if s[z] == '}' {
                                            Some((m2, z + 1))
                                        } else {
                                            None
                                        }
                                    }
                                },
                                None => None,
                            }
                        } else {
                            match sp_skip_value(s, u) {
                                Some(t) => {
                                    if !(u < t && t <= s.len()) {
                                        None
                                    } else {
                                        let z = sp_ws(s, t);
                                        if !(t <= z && z < s.len()) {
                                            None
                                        } else if s[z] == ',' {
                                            sp_merkmal_members(s, z + 1, m, false)
                                        } else if s[z] == '}' {
                                            Some((m, z + 1))
                                        } else {
                                            None
                                        }
                                    }
                                },
                                None => None,
                            }
                        }
                    }
                }
            },
            None => None,
        }
    } else {
        None
    }
}

/// The items of the attribute array, from behind the `[` or a comma.
pub open spec fn sp_merkmale_items(
    s: Seq<char>,
    p: int,
    ms: Seq<MerkmalView>,
    first: bool,
) -> Option<(Seq<MerkmalView>, int)>
    decreases s.len() - p,
{
    let q = sp_ws(s, p);
    if !(p <= q && q < s.len()) {
        None
    } else if s[q] == ']' {
        if first {
            Some((ms, q + 1))
        } else {
            None
        }
    } else if s[q] == '{' {
        match sp_merkmal_members(s, q + 1, sp_empty_merkmal(), true) {
            Some((m, t)) => {
                if !(q + 1 <= t && t <= s.len()) {
                    None
                } else {
                    let w = sp_ws(s, t);
                    if !(t <= w && w < s.len()) {
                        None
                    } else if s[w] == ',' {
                        sp_merkmale_items(s, w + 1, ms.push(m), false)
                    } else if s[w] == ']' {
                        Some((ms.push(m), w + 1))
                    } else {
                        None
                    }
                }
            },
            None => None,
        }
    } else {
        None
    }
}

pub open spec fn sp_empty_artikel() -> ArtikelView {
    ArtikelView {
        satz_id: Seq::empty(),
        art_nr01: Seq::empty(),
        art_nr02: Seq::empty(),
        bezeich01: Seq::empty(),
        bezeich02: Seq::empty(),
        bezeich03: Seq::empty(),
        bezeich04: Seq::empty(),
        match01: Seq::empty(),
        match02: Seq::empty(),
        farbcode: Seq::empty(),
        abmessung: Seq::empty(),
        gewicht: Seq::empty(),
        sn: Seq::empty(),
        diniso: Seq::empty(),
        gtyp: Seq::empty(),
        katbest01: Seq::empty(),
        ean_code: Seq::empty(),
        merkmale: Seq::empty(),
    }
}

pub open spec fn sp_is_artikel_str_key(k: Seq<char>) -> bool {
    ||| k == "satz_id"@
    ||| k == "art_nr01"@
    ||| k == "art_nr02"@
    ||| k == "bezeich01"@
    ||| k == "bezeich02"@
    ||| k == "bezeich03"@
    ||| k == "bezeich04"@
    ||| k == "match01"@
    ||| k == "match02"@
    ||| k == "farbcode"@
    ||| k == "abmessung"@
    ||| k == "gewicht"@
    ||| k == "sn"@
    ||| k == "diniso"@
    ||| k == "gtyp"@
    ||| k == "katbest01"@
    ||| k == "ean_code"@
}

/// The record with one scalar member set; an unknown member changes nothing.
pub open spec fn sp_set_artikel_field(a: ArtikelView, k: Seq<char>, val: Seq<char>) -> ArtikelView {
    if k == "satz_id"@ {
        ArtikelView { satz_id: val, ..a }
    } else if k == "art_nr01"@ {
        ArtikelView { art_nr01: val, ..a }
    } else if k == "art_nr02"@ {
        ArtikelView { art_nr02: val, ..a }
    } else if k == "bezeich01"@ {
        ArtikelView { bezeich01: val, ..a }
    } else if k == "bezeich02"@ {
        ArtikelView { bezeich02: val, ..a }
    } else if k == "bezeich03"@ {
        ArtikelView { bezeich03: val, ..a }
    } else if k == "bezeich04"@ {
        ArtikelView { bezeich04: val, ..a }
    } else if k == "match01"@ {
        ArtikelView { match01: val, ..a }
    } else if k == "match02"@ {
        ArtikelView { match02: val, ..a }
    } else if k == "farbcode"@ {
        ArtikelView { farbcode: val, ..a }
    } else if k == "abmessung"@ {
        ArtikelView { abmessung: val, ..a }
    } else if k == "gewicht"@ {
        ArtikelView { gewicht: val, ..a }
    } else if k == "sn"@ {
        ArtikelView { sn: val, ..a }
    } else if k == "diniso"@ {
        ArtikelView { diniso: val, ..a }
    } else if k == "gtyp"@ {
        ArtikelView { gtyp: val, ..a }
    } else if k == "katbest01"@ {
        ArtikelView { katbest01: val, ..a }
    } else if k == "ean_code"@ {
        ArtikelView { ean_code: val, ..a }
    } else {
        a
    }
}

/// The members of one record object: known scalar members are strings,
/// `merkmale` is an array of attribute objects, unknown members are skipped.
pub open spec fn sp_artikel_members(s: Seq<char>, p: int, a: ArtikelView, first: bool) -> Option<
    (ArtikelView, int),
>
    decreases s.len() - p,
{
    let q = sp_ws(s, p);
    if !(p <= q && q < s.len()) {
        None
    } else if s[q] == '}' {
        if first {
            Some((a, q + 1))
        } else {
            None
        }
    } else if s[q] == '"' {
        match sp_string(s, q) {
            Some((k, r)) => {
                if !(q < r && r <= s.len()) {
                    None
                } else {
                    let w = sp_ws(s, r);
                    if !(r <= w && w < s.len()) {
                        None
                    } else if s[w] != ':' {
                        None
                    } else {
                        let u = sp_ws(s, w + 1);
                        if !(w + 1 <= u && u <= s.len()) {
                            None
                        } else if sp_is_artikel_str_key(k) {
                            match sp_string(s, u) {
                                Some((val, t)) => {
                                    if !(u < t && t <= s.len()) {
                                        None
                                    } else {
                                        let a2 = sp_set_artikel_field(a, k, val);
                                        let z = sp_ws(s, t);
                                        if !(t <= z && z < s.len()) {
                                            None
                                        } else if s[z] == ',' {
                                            sp_artikel_members(s, z + 1, a2, false)
                                        } else if s[z] == '}' {
                                            Some((a2, z + 1))
                                        } else {
                                            None
                                        }
                                    }
                                },
                                None => None,
                            }
                        } else if k == "merkmale"@ {
                            if u < s.len() && s[u] == '[' {
                                match sp_merkmale_items(s, u + 1, Seq::empty(), true) {
                                    Some((ms, t)) => {
                                        if !(u + 1 <= t && t <= s.len()) {
                                            None
                                        } else {
                                            let a2 = ArtikelView { merkmale: ms, ..a };
                                            let z = sp_ws(s, t);
                                            if !(t <= z && z < s.len()) {
                                                None
                                            } else if s[z] == ',' {
                                                sp_artikel_members(s, z + 1, a2, false)
                                            } else if s[z] == '}' {
                                                Some((a2, z + 1))
                                            } else {
                                                None
                                            }
                                        }
                                    },
                                    None => None,
                                }
                            } else {
                                None
                            }
                        } else {
                            match sp_skip_value(s, u) {
                                Some(t) => {
                                    if !(u < t && t <= s.len()) {
                                        None
                                    } else {
                                        let z = sp_ws(s, t);
                                        if !(t <= z && z < s.len()) {
                                            None
                                        } else if s[z] == ',' {
                                            sp_artikel_members(s, z + 1, a, false)
                                        } else if s[z] == '}' {
                                            Some((a, z + 1))
                                        } else {
                                            None
                                        }
                                    }
                                },
                                None => None,
                            }
                        }
                    }
                }
            },
            None => None,
        }
    } else {
        None
    }
}

/// The items of the record array, from behind the `[` or a comma.
pub open spec fn sp_artikel_items(
    s: Seq<char>,
    p: int,
    arts: Seq<ArtikelView>,
    first: bool,
) -> Option<(Seq<ArtikelView>, int)>
    decreases s.len() - p,
{
    let q = sp_ws(s, p);
    if !(p <= q && q < s.len()) {
        None
    } else if s[q] == ']' {
        if first {
            Some((arts, q + 1))
        } else {
            None
        }
    } else if s[q] == '{' {
        match sp_artikel_members(s, q + 1, sp_empty_artikel(), true) {
            Some((a, t)) => {
                if !(q + 1 <= t && t <= s.len()) {
                    None
                } else {
                    let w = sp_ws(s, t);
                    if !(t <= w && w < s.len()) {
                        None
                    } else if s[w] == ',' {
                        sp_artikel_items(s, w + 1, arts.push(a), false)
                    } else if s[w] == ']' {
                        Some((arts.push(a), w + 1))
                    } else {
                        None
                    }
                }
            },
            None => None,
        }
    } else {
        None
    }
}

/// The members of the top-level object: `artikel_liste` is the record
/// array, unknown members are skipped, and a later `artikel_liste` member
/// overwrites an earlier one.
pub open spec fn sp_doc_members(
    s: Seq<char>,
    p: int,
    acc: Option<Seq<ArtikelView>>,
    first: bool,
) -> Option<(Option<Seq<ArtikelView>>, int)>
    decreases s.len() - p,
{
    let q = sp_ws(s, p);
    if !(p <= q && q < s.len()) {
        None
    } else if s[q] == '}' {
        if first {
            Some((acc, q + 1))
        } else {
            None
        }
    } else if s[q] == '"' {
        match sp_string(s, q) {
            Some((k, r)) => {
                if !(q < r && r <= s.len()) {
                    None
                } else {
                    let w = sp_ws(s, r);
                    if !(r <= w && w < s.len()) {
                        None
                    } else if s[w] != ':' {
                        None
                    } else {
                        let u = sp_ws(s, w + 1);
                        if !(w + 1 <= u && u <= s.len()) {
                            None
                        } else if k == "artikel_liste"@ {
                            if u < s.len() && s[u] == '[' {
                                match sp_artikel_items(s, u + 1, Seq::empty(), true) {
                                    Some((arts, t)) => {
                                        if !(u + 1 <= t && t <= s.len()) {
                                            None
                                        } else {
                                            let z = sp_ws(s, t);
                                            if !(t <= z && z < s.len()) {
                                                None
                                            } else if s[z] == ',' {
                                                sp_doc_members(s, z + 1, Some(arts), false)
                                            } else if s[z] == '}' {
                                                Some((Some(arts), z + 1))
                                            } else {
                                                None
                                            }
                                        }
                                    },
                                    None => None,
                                }
                            } else {
                                None
                            }
                        } else {
                            match sp_skip_value(s, u) {
                                Some(t) => {
                                    if !(u < t && t <= s.len()) {
                                        None
                                    } else {
                                        let z = sp_ws(s, t);
                                        if !(t <= z && z < s.len()) {
                                            None
                                        } else if s[z] == ',' {
                                            sp_doc_members(s, z + 1, acc, false)
                                        } else if s[z] == '}' {
                                            Some((acc, z + 1))
                                        } else {
                                            None
                                        }
                                    }
                                },
                                None => None,
                            }
                        }
                    }
                }
            },
            None => None,
        }
    } else {
        None
    }
}

/// What a whole catalog document denotes: the record sequence, or `None`
/// when the text is not a well-formed catalog document with an
/// `artikel_liste` member and nothing but white space behind the object.
pub open spec fn sp_parse_document(s: Seq<char>) -> Option<Seq<ArtikelView>> {
    let q = sp_ws(s, 0);
    if !(0 <= q && q < s.len()) {
        None
    } else if s[q] != '{' {
        None
    } else {
        match sp_doc_members(s, q + 1, None, true) {
            Some((acc, t)) => {
                if !(t <= s.len()) {
                    None
                } else if sp_ws(s, t) == s.len() {
                    acc
                } else {
                    None
                }
            },
            None => None,
        }
    }
}

// ---------------------------------------------------------------------------
// The parser: one executable function per grammar function, each returning
// exactly what its grammar function denotes.
// ---------------------------------------------------------------------------
fn e_ws(v: &Vec<char>, p: usize) -> (q: usize)
    ensures
        q as int == sp_ws(v@, p as int),
        p <= q,
        p <= v.len() ==> q <= v.len(),
    decreases v.len() - p,
{
    if p < v.len() {
        let c = v[p];
        if c == ' ' || c == '\t' || c == '\n' || c == '\r' {
            return e_ws(v, p + 1);
        }
    }
    p
}

fn e_hex(c: char) -> (r: Option<u32>)
    ensures
        r == sp_hex_val(c),
        r is Some ==> r.unwrap() <= 15,
{
    let d = c as u32;
    if d >= 48 && d <= 57 {
        Some(d - 48)
    } else if d >= 97 && d <= 102 {
        Some(d - 87)
    } else if d >= 65 && d <= 70 {
        Some(d - 55)
    } else {
        None
    }
}

fn e_string_body(v: &Vec<char>, p: usize, acc: String) -> (r: Option<(String, usize)>)
    ensures
        r is Some ==> sp_string_body(v@, p as int, acc@) == Some(
            (r.unwrap().0@, r.unwrap().1 as int),
        ) && p < r.unwrap().1 && r.unwrap().1 <= v.len(),
        r is None ==> sp_string_body(v@, p as int, acc@) is None,
    decreases v.len() - p,
{
    if p >= v.len() {
        return None;
    }
    let c = v[p];
    if c == '"' {
        Some((acc, p + 1))
    } else if c == '\\' {
        if v.len() - p >= 2 {
            let e = v[p + 1];
            let mut acc = acc;
            if e == '"' {
                push_char(&mut acc, '"');
                e_string_body(v, p + 2, acc)
            } else if e == '\\' {
                push_char(&mut acc, '\\');
                e_string_body(v, p + 2, acc)
            } else if e == '/' {
                push_char(&mut acc, '/');
                e_string_body(v, p + 2, acc)
            } else if e == 'b' {
                push_char(&mut acc, '\u{8}');
                e_string_body(v, p + 2, acc)
            } else if e == 'f' {
                push_char(&mut acc, '\u{c}');
                e_string_body(v, p + 2, acc)
            } else if e == 'n' {
                push_char(&mut acc, '\n');
                e_string_body(v, p + 2, acc)
            } else if e == 'r' {
                push_char(&mut acc, '\r');
                e_string_body(v, p + 2, acc)
            } else if e == 't' {
                push_char(&mut acc, '\t');
                e_string_body(v, p + 2, acc)
            } else if e == 'u' {
                if v.len() - p >= 6 {
                    let h0 = e_hex(v[p + 2]);
                    let h1 = e_hex(v[p + 3]);
                    let h2 = e_hex(v[p + 4]);
                    let h3 = e_hex(v[p + 5]);
                    if h0.is_some() && h1.is_some() && h2.is_some() && h3.is_some() {
                        let code: u32 = h0.unwrap() * 4096 + h1.unwrap() * 256 + h2.unwrap() * 16
                            + h3.unwrap();
                        assert(Some(code) == sp_hex4(v@, p + 2));
                        match char_from_code(code) {
                            Some(ch) => {
                                push_char(&mut acc, ch);
                                e_string_body(v, p + 6, acc)
                            },
                            None => None,
                        }
                    } else {
                        None
                    }
                } else {
                    None
                }
            } else {
                None
            }
        } else {
            None
        }
    } else {
        let mut acc = acc;
        push_char(&mut acc, c);
        e_string_body(v, p + 1, acc)
    }
}

fn e_string(v: &Vec<char>, p: usize) -> (r: Option<(String, usize)>)
    ensures
        r is Some ==> sp_string(v@, p as int) == Some((r.unwrap().0@, r.unwrap().1 as int)) && p
            < r.unwrap().1 && r.unwrap().1 <= v.len(),
        r is None ==> sp_string(v@, p as int) is None,
{
    if p < v.len() && v[p] == '"' {
        e_string_body(v, p + 1, String::new())
    } else {
        None
    }
}

fn e_num_tail(v: &Vec<char>, p: usize) -> (q: usize)
    requires
        p <= v.len(),
    ensures
        q as int == sp_num_tail(v@, p as int),
        p <= q <= v.len(),
    decreases v.len() - p,
{
    if p < v.len() {
        let c = v[p];
        if (c as u32 >= 48 && c as u32 <= 57) || c == '.' || c == 'e' || c == 'E' || c == '+' || c
            == '-' {
            return e_num_tail(v, p + 1);
        }
    }
    p
}

fn e_number(v: &Vec<char>, p: usize) -> (r: Option<usize>)
    ensures
        r is Some ==> sp_number(v@, p as int) == Some(r.unwrap() as int) && p < r.unwrap() &&
            r.unwrap() <= v.len(),
        r is None ==> sp_number(v@, p as int) is None,
{
    if p < v.len() {
        let c = v[p];
        if c == '-' || (c as u32 >= 48 && c as u32 <= 57) {
            return Some(e_num_tail(v, p + 1));
        }
    }
    None
}

fn e_skip_value(v: &Vec<char>, p: usize) -> (r: Option<usize>)
    ensures
        r is Some ==> sp_skip_value(v@, p as int) == Some(r.unwrap() as int) && p < r.unwrap()
            && r.unwrap() <= v.len(),
        r is None ==> sp_skip_value(v@, p as int) is None,
    decreases v.len() - p, 0int,
{
    if p >= v.len() {
        return None;
    }
    let c = v[p];
    if c == '"' {
        match e_string(v, p) {
            Some((_s, q)) => Some(q),
            None => None,
        }
    } else if c == 't' {
        if v.len() - p >= 4 && v[p + 1] == 'r' && v[p + 2] == 'u' && v[p + 3] == 'e' {
            Some(p + 4)
        } else {
            None
        }
    } else if c == 'f' {
        if v.len() - p >= 5 && v[p + 1] == 'a' && v[p + 2] == 'l' && v[p + 3] == 's' && v[p + 4]
            == 'e' {
            Some(p + 5)
        } else {
            None
        }
    } else if c == 'n' {
        if v.len() - p >= 4 && v[p + 1] == 'u' && v[p + 2] == 'l' && v[p + 3] == 'l' {
            Some(p + 4)
        } else {
            None
        }
    } else if c == '-' || (c as u32 >= 48 && c as u32 <= 57) {
        e_number(v, p)
    } else if c == '[' {
        e_skip_items(v, p + 1, true)
    } else if c == '{' {
        e_skip_members(v, p + 1, true)
    } else {
        None
    }
}

fn e_skip_items(v: &Vec<char>, p: usize, first: bool) -> (r: Option<usize>)
    requires
        p <= v.len(),
    ensures
        r is Some ==> sp_skip_items(v@, p as int, first) == Some(r.unwrap() as int) && p
            < r.unwrap() && r.unwrap() <= v.len(),
        r is None ==> sp_skip_items(v@, p as int, first) is None,
    decreases v.len() - p, 1int,
{
    let q = e_ws(v, p);
    if q >= v.len() {
        return None;
    }
    if v[q] == ']' {
        if first {
            Some(q + 1)
        } else {
            None
        }
    } else {
        match e_skip_value(v, q) {
            Some(r2) => {
                let w = e_ws(v, r2);
                if w >= v.len() {
                    return None;
                }
                if v[w] == ',' {
                    e_skip_items(v, w + 1, false)
                } else if v[w] == ']' {
                    Some(w + 1)
                } else {
                    None
                }
            },
            None => None,
        }
    }
}

fn e_skip_members(v: &Vec<char>, p: usize, first: bool) -> (r: Option<usize>)
    requires
        p <= v.len(),
    ensures
        r is Some ==> sp_skip_members(v@, p as int, first) == Some(r.unwrap() as int) && p
            < r.unwrap() && r.unwrap() <= v.len(),
        r is None ==> sp_skip_members(v@, p as int, first) is None,
    decreases v.len() - p, 1int,
{
    let q = e_ws(v, p);
    if q >= v.len() {
        return None;
    }
    if v[q] == '}' {
        if first {
            Some(q + 1)
        } else {
            None
        }
    } else if v[q] == '"' {
        match e_string(v, q) {
            Some((_k, r2)) => {
                let w = e_ws(v, r2);
                if w >= v.len() {
                    return None;
                }
                if v[w] != ':' {
                    return None;
                }
                let u = e_ws(v, w + 1);
                match e_skip_value(v, u) {
                    Some(t) => {
                        let z = e_ws(v, t);
                        if z >= v.len() {
                            return None;
                        }
                        if v[z] == ',' {
                            e_skip_members(v, z + 1, false)
                        } else if v[z] == '}' {
                            Some(z + 1)
                        } else {
                            None
                        }
                    },
                    None => None,
                }
            },
            None => None,
        }
    } else {
        None
    }
}

/// Whether the string holds exactly the given text.
fn str_is(k: &String, lit: &str) -> (b: bool)
    ensures
        b == (k@ == lit@),
{
    *k == lit.to_owned()
}

fn e_empty_merkmal() -> (m: Merkmal)
    ensures
        m@ == sp_empty_merkmal(),
{
    Merkmal { merkmal: String::new(), wert: String::new(), einheit: String::new() }
}

fn e_is_merkmal_key(k: &String) -> (b: bool)
    ensures
        b == sp_is_merkmal_key(k@),
{
    str_is(k, "merkmal") || str_is(k, "wert") || str_is(k, "einheit")
}

fn e_set_merkmal_field(m: &mut Merkmal, k: &String, val: String)
    ensures
        final (m)@ == sp_set_merkmal_field(old(m)@, k@, val@),
{
    if str_is(k, "merkmal") {
        m.merkmal = val;
    } else if str_is(k, "wert") {
        m.wert = val;
    } else if str_is(k, "einheit") {
        m.einheit = val;
    }
}

fn e_merkmal_members(v: &Vec<char>, p: usize, m: Merkmal, first: bool) -> (r: Option<
    (Merkmal, usize),
>)
    requires
        p <= v.len(),
    ensures
        r is Some ==> sp_merkmal_members(v@, p as int, m@, first) == Some(
            (r.unwrap().0@, r.unwrap().1 as int),
        ) && p < r.unwrap().1 && r.unwrap().1 <= v.len(),
        r is None ==> sp_merkmal_members(v@, p as int, m@, first) is None,
    decreases v.len() - p,
{
    let q = e_ws(v, p);
    if q >= v.len() {
        return None;
    }
    if v[q] == '}' {
        if first {
            return Some((m, q + 1));
        } else {
            return None;
        }
    }
    if v[q] != '"' {
        return None;
    }
    match e_string(v, q) {
        Some((k, r2)) => {
            let w = e_ws(v, r2);
            if w >= v.len() {
                return None;
            }
            if v[w] != ':' {
                return None;
            }
            let u = e_ws(v, w + 1);
            if e_is_merkmal_key(&k) {
                match e_string(v, u) {
                    Some((val, t)) => {
                        let mut m = m;
                        e_set_merkmal_field(&mut m, &k, val);
                        let z = e_ws(v, t);
                        if z >= v.len() {
                            return None;
                        }
                        if v[z] == ',' {
                            e_merkmal_members(v, z + 1, m, false)
                        } else if v[z] == '}' {
                            Some((m, z + 1))
                        } else {
                            None
                        }
                    },
                    None => None,
                }
            } else {
                match e_skip_value(v, u) {
                    Some(t) => {
                        let z = e_ws(v, t);
                        if z >= v.len() {
                            return None;
                        }
                        if v[z] == ',' {
                            e_merkmal_members(v, z + 1, m, false)
                        } else if v[z] == '}' {
                            Some((m, z + 1))
                        } else {
                            None
                        }
                    },
                    None => None,
                }
            }
        },
        None => None,
    }
}

/// The views of a vector of attributes.
pub open spec fn sp_merkmale_of(s: Seq<Merkmal>) -> Seq<MerkmalView> {
    s.map_values(|m: Merkmal| m@)
}

fn e_merkmale_items(v: &Vec<char>, p: usize, ms: Vec<Merkmal>, first: bool) -> (r: Option<
    (Vec<Merkmal>, usize),
>)
    requires
        p <= v.len(),
    ensures
        r is Some ==> sp_merkmale_items(v@, p as int, sp_merkmale_of(ms@), first) == Some(
            (sp_merkmale_of(r.unwrap().0@), r.unwrap().1 as int),
        ) && p < r.unwrap().1 && r.unwrap().1 <= v.len(),
        r is None ==> sp_merkmale_items(v@, p as int, sp_merkmale_of(ms@), first) is None,
    decreases v.len() - p,
{
    let q = e_ws(v, p);
    if q >= v.len() {
        return None;
    }
    if v[q] == ']' {
        if first {
            return Some((ms, q + 1));
        } else {
            return None;
        }
    }
    if v[q] != '{' {
        return None;
    }
    match e_merkmal_members(v, q + 1, e_empty_merkmal(), true) {
        Some((m, t)) => {
            let w = e_ws(v, t);
            if w >= v.len() {
                return None;
            }
            let mut ms = ms;
            let ghost ms0 = ms@;
            ms.push(m);
            proof {
                assert(sp_merkmale_of(ms@) =~= sp_merkmale_of(ms0).push(m@));
            }
            if v[w] == ',' {
                e_merkmale_items(v, w + 1, ms, false)
            } else if v[w] == ']' {
                Some((ms, w + 1))
            } else {
                None
            }
        },
        None => None,
    }
}

fn e_empty_artikel() -> (a: Artikel)
    ensures
        a@ == sp_empty_artikel(),
{
    let a = Artikel {
        satz_id: String::new(),
        art_nr01: String::new(),
        art_nr02: String::new(),
        bezeich01: String::new(),
        bezeich02: String::new(),
        bezeich03: String::new(),
        bezeich04: String::new(),
        match01: String::new(),
        match02: String::new(),
        farbcode: String::new(),
        abmessung: String::new(),
        gewicht: String::new(),
        sn: String::new(),
        diniso: String::new(),
        gtyp: String::new(),
        katbest01: String::new(),
        ean_code: String::new(),
        merkmale: Vec::new(),
    };
    proof {
        assert(a@.merkmale =~= Seq::<MerkmalView>::empty());
    }
    a
}

fn e_is_artikel_str_key(k: &String) -> (b: bool)
    ensures
        b == sp_is_artikel_str_key(k@),
{
    str_is(k, "satz_id") || str_is(k, "art_nr01") || str_is(k, "art_nr02") || str_is(
        k,
        "bezeich01",
    ) || str_is(k, "bezeich02") || str_is(k, "bezeich03") || str_is(k, "bezeich04") || str_is(
        k,
        "match01",
    ) || str_is(k, "match02") || str_is(k, "farbcode") || str_is(k, "abmessung") || str_is(
        k,
        "gewicht",
    ) || str_is(k, "sn") || str_is(k, "diniso") || str_is(k, "gtyp") || str_is(k, "katbest01")
        || str_is(k, "ean_code")
}

fn e_set_artikel_field(a: &mut Artikel, k: &String, val: String)
    ensures
        final (a)@ == sp_set_artikel_field(old(a)@, k@, val@),
{
    if str_is(k, "satz_id") {
        a.satz_id = val;
    } else if str_is(k, "art_nr01") {
        a.art_nr01 = val;
    } else if str_is(k, "art_nr02") {
        a.art_nr02 = val;
    } else if str_is(k, "bezeich01") {
        a.bezeich01 = val;
    } else if str_is(k, "bezeich02") {
        a.bezeich02 = val;
    } else if str_is(k, "bezeich03") {
        a.bezeich03 = val;
    } else if str_is(k, "bezeich04") {
        a.bezeich04 = val;
    } else if str_is(k, "match01") {
        a.match01 = val;
    } else if str_is(k, "match02") {
        a.match02 = val;
    } else if str_is(k, "farbcode") {
        a.farbcode = val;
    } else if str_is(k, "abmessung") {
        a.abmessung = val;
    } else if str_is(k, "gewicht") {
        a.gewicht = val;
    } else if str_is(k, "sn") {
        a.sn = val;
    } else if str_is(k, "diniso") {
        a.diniso = val;
    } else if str_is(k, "gtyp") {
        a.gtyp = val;
    } else if str_is(k, "katbest01") {
        a.katbest01 = val;
    } else if str_is(k, "ean_code") {
        a.ean_code = val;
    }
}

fn e_artikel_members(v: &Vec<char>, p: usize, a: Artikel, first: bool) -> (r: Option<
    (Artikel, usize),
>)
    requires
        p <= v.len(),
    ensures
        r is Some ==> sp_artikel_members(v@, p as int, a@, first) == Some(
            (r.unwrap().0@, r.unwrap().1 as int),
        ) && p < r.unwrap().1 && r.unwrap().1 <= v.len(),
        r is None ==> sp_artikel_members(v@, p as int, a@, first) is None,
    decreases v.len() - p,
{
    let q = e_ws(v, p);
    if q >= v.len() {
        return None;
    }
    if v[q] == '}' {
        if first {
            return Some((a, q + 1));
        } else {
            return None;
        }
    }
    if v[q] != '"' {
        return None;
    }
    match e_string(v, q) {
        Some((k, r2)) => {
            let w = e_ws(v, r2);
            if w >= v.len() {
                return None;
            }
            if v[w] != ':' {
                return None;
            }
            let u = e_ws(v, w + 1);
            if e_is_artikel_str_key(&k) {
                match e_string(v, u) {
                    Some((val, t)) => {
                        let mut a = a;
                        e_set_artikel_field(&mut a, &k, val);
                        let z = e_ws(v, t);
                        if z >= v.len() {
                            return None;
                        }
                        if v[z] == ',' {
                            e_artikel_members(v, z + 1, a, false)
                        } else if v[z] == '}' {
                            Some((a, z + 1))
                        } else {
                            None
                        }
                    },
                    None => None,
                }
            } else if str_is(&k, "merkmale") {
                if u < v.len() && v[u] == '[' {
                    proof {
                        assert(sp_merkmale_of(Seq::<Merkmal>::empty())
                            =~= Seq::<MerkmalView>::empty());
                    }
                    match e_merkmale_items(v, u + 1, Vec::new(), true) {
                        Some((ms, t)) => {
                            let mut a = a;
                            a.merkmale = ms;
                            let z = e_ws(v, t);
                            if z >= v.len() {
                                return None;
                            }
                            if v[z] == ',' {
                                e_artikel_members(v, z + 1, a, false)
                            } else if v[z] == '}' {
                                Some((a, z + 1))
                            } else {
                                None
                            }
                        },
                        None => None,
                    }
                } else {
                    None
                }
            } else {
                match e_skip_value(v, u) {
                    Some(t) => {
                        let z = e_ws(v, t);
                        if z >= v.len() {
                            return None;
                        }
                        if v[z] == ',' {
                            e_artikel_members(v, z + 1, a, false)
                        } else if v[z] == '}' {
                            Some((a, z + 1))
                        } else {
                            None
                        }
                    },
                    None => None,
                }
            }
        },
        None => None,
    }
}

/// The views of a vector of records.
pub open spec fn sp_artikels_of(s: Seq<Artikel>) -> Seq<ArtikelView> {
    s.map_values(|a: Artikel| a@)
}

fn e_artikel_items(v: &Vec<char>, p: usize, arts: Vec<Artikel>, first: bool) -> (r: Option<
    (Vec<Artikel>, usize),
>)
    requires
        p <= v.len(),
    ensures
        r is Some ==> sp_artikel_items(v@, p as int, sp_artikels_of(arts@), first) == Some(
            (sp_artikels_of(r.unwrap().0@), r.unwrap().1 as int),
        ) && p < r.unwrap().1 && r.unwrap().1 <= v.len(),
        r is None ==> sp_artikel_items(v@, p as int, sp_artikels_of(arts@), first) is None,
    decreases v.len() - p,
{
    let q = e_ws(v, p);
    if q >= v.len() {
        return None;
    }
    if v[q] == ']' {
        if first {
            return Some((arts, q + 1));
        } else {
            return None;
        }
    }
    if v[q] != '{' {
        return None;
    }
    match e_artikel_members(v, q + 1, e_empty_artikel(), true) {
        Some((a, t)) => {
            let w = e_ws(v, t);
            if w >= v.len() {
                return None;
            }
            let mut arts = arts;
            let ghost arts0 = arts@;
            arts.push(a);
            proof {
                assert(sp_artikels_of(arts@) =~= sp_artikels_of(arts0).push(a@));
            }
            if v[w] == ',' {
                e_artikel_items(v, w + 1, arts, false)
            } else if v[w] == ']' {
                Some((arts, w + 1))
            } else {
                None
            }
        },
        None => None,
    }
}

/// The view of the running document accumulator.
pub open spec fn sp_doc_acc_of(acc: Option<Vec<Artikel>>) -> Option<Seq<ArtikelView>> {
    match acc {
        Some(arts) => Some(sp_artikels_of(arts@)),
        None => None,
    }
}

fn e_doc_members(v: &Vec<char>, p: usize, acc: Option<Vec<Artikel>>, first: bool) -> (r: Option<
    (Option<Vec<Artikel>>, usize),
>)
    requires
        p <= v.len(),
    ensures
        r is Some ==> sp_doc_members(v@, p as int, sp_doc_acc_of(acc), first) == Some(
            (sp_doc_acc_of(r.unwrap().0), r.unwrap().1 as int),
        ) && p < r.unwrap().1 && r.unwrap().1 <= v.len(),
        r is None ==> sp_doc_members(v@, p as int, sp_doc_acc_of(acc), first) is None,
    decreases v.len() - p,
{
    let q = e_ws(v, p);
    if q >= v.len() {
        return None;
    }
    if v[q] == '}' {
        if first {
            return Some((acc, q + 1));
        } else {
            return None;
        }
    }
    if v[q] != '"' {
        return None;
    }
    match e_string(v, q) {
        Some((k, r2)) => {
            let w = e_ws(v, r2);
            if w >= v.len() {
                return None;
            }
            if v[w] != ':' {
                return None;
            }
            let u = e_ws(v, w + 1);
            if str_is(&k, "artikel_liste") {
                if u < v.len() && v[u] == '[' {
                    proof {
                        assert(sp_artikels_of(Seq::<Artikel>::empty())
                            =~= Seq::<ArtikelView>::empty());
                    }
                    match e_artikel_items(v, u + 1, Vec::new(), true) {
                        Some((arts, t)) => {
                            let z = e_ws(v, t);
                            if z >= v.len() {
                                return None;
                            }
                            if v[z] == ',' {
                                e_doc_members(v, z + 1, Some(arts), false)
                            } else if v[z] == '}' {
                                Some((Some(arts), z + 1))
                            } else {
                                None
                            }
                        },
                        None => None,
                    }
                } else {
                    None
                }
            } else {
                match e_skip_value(v, u) {
                    Some(t) => {
                        let z = e_ws(v, t);
                        if z >= v.len() {
                            return None;
                        }
                        if v[z] == ',' {
                            e_doc_members(v, z + 1, acc, false)
                        } else if v[z] == '}' {
                            Some((acc, z + 1))
                        } else {
                            None
                        }
                    },
                    None => None,
                }
            }
        },
        None => None,
    }
}

pub(crate) fn e_parse_document(v: &Vec<char>) -> (r: Option<ArtikelListe>)
    ensures
        r is Some ==> sp_parse_document(v@) == Some(r.unwrap()@),
        r is None ==> sp_parse_document(v@) is None,
{
    let q = e_ws(v, 0);
    if q >= v.len() {
        return None;
    }
    if v[q] != '{' {
        return None;
    }
    match e_doc_members(v, q + 1, None, true) {
        Some((acc, t)) => {
            let z = e_ws(v, t);
            if z == v.len() {
                match acc {
                    Some(arts) => Some(ArtikelListe { artikel_liste: arts }),
                    None => None,
                }
            } else {
                None
            }
        },
        None => None,
    }
}

/// The text is not a well-formed catalog document.
#[derive(Debug)]
pub struct ParseError {}

impl ArtikelListe {
    /// Parse a catalog document. Returns the catalog the text denotes, and
    /// `Err` exactly when the text is not a well-formed catalog document.
    pub fn from_json(json_string: &str) -> (r: Result<ArtikelListe, ParseError>)
        ensures
            r is Ok <==> sp_parse_document(json_string@) is Some,
            r is Ok ==> r.unwrap()@ == sp_parse_document(json_string@).unwrap(),
    {
        let v = to_chars(json_string);
        match e_parse_document(&v) {
            Some(liste) => Ok(liste),
            None => Err(ParseError {}),
        }
    }
}

} // verus!
