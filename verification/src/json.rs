//! The wire protocol delivers JSON text frames. This module parses a frame
//! into a JSON tree. The grammar is given by the specification functions
//! (`sp_json` and its helpers), a recursive-descent parser over bytes; the
//! executable parser is proved to return exactly what they describe.
//!
//! String escapes cover the eight short forms (`\"`, `\\`, `\/`, `\b`,
//! `\f`, `\n`, `\r`, `\t`) and `\uXXXX`, a surrogate pair standing for one
//! code point; the escaped code point is stored as its UTF-8 bytes. A lone
//! surrogate cannot be encoded and makes the frame unparseable. Numbers are
//! checked against the JSON number grammar but not interpreted: a number
//! token is kept as its raw bytes, since no field this collector reads is
//! numeric.

use vstd::prelude::*;

verus! {

broadcast use
    vstd::seq::axiom_seq_index_decreases,
    vstd::seq::axiom_seq_subrange_decreases,
    vstd::std_specs::vec::axiom_vec_decreases_to_view,
;

pub const QUOTE: u8 = 34;
pub const BACKSLASH: u8 = 92;
pub const LBRACE: u8 = 123;
pub const RBRACE: u8 = 125;
pub const LBRACKET: u8 = 91;
pub const RBRACKET: u8 = 93;
pub const COMMA: u8 = 44;
pub const COLON: u8 = 58;
pub const MINUS: u8 = 45;

/// A parsed JSON value. Object members keep their textual order.
#[derive(PartialEq, Eq, Debug)]
pub enum Json {
    Null,
    Bool(bool),
    Num(Vec<u8>),
    Str(Vec<u8>),
    Arr(Vec<Json>),
    Obj(Vec<(Vec<u8>, Json)>),
}

/// Mathematical model of a `Json` value.
pub enum JsonV {
    Null,
    Bool(bool),
    Num(Seq<u8>),
    Str(Seq<u8>),
    Arr(Seq<JsonV>),
    Obj(Seq<(Seq<u8>, JsonV)>),
}

impl View for Json {
    type V = JsonV;

    open spec fn view(&self) -> JsonV
        decreases self,
    {
        match self {
            Json::Null => JsonV::Null,
            Json::Bool(b) => JsonV::Bool(*b),
            Json::Num(n) => JsonV::Num(n@),
            Json::Str(s) => JsonV::Str(s@),
            Json::Arr(a) => JsonV::Arr(views_of(a@)),
            Json::Obj(o) => JsonV::Obj(mviews_of(o@)),
        }
    }
}

/// Views of a sequence of parsed values, elementwise.
pub open spec fn views_of(els: Seq<Json>) -> Seq<JsonV>
    decreases els,
{
    if els.len() == 0 {
        seq![]
    } else {
        views_of(els.drop_last()).push(els.last()@)
    }
}

/// Views of a sequence of parsed object members, elementwise.
pub open spec fn mviews_of(ms: Seq<(Vec<u8>, Json)>) -> Seq<(Seq<u8>, JsonV)>
    decreases ms,
{
    if ms.len() == 0 {
        seq![]
    } else {
        mviews_of(ms.drop_last()).push((ms.last().0@, ms.last().1@))
    }
}

/// `views_of` maps elementwise.
pub proof fn lemma_views_of_index(els: Seq<Json>)
    ensures
        views_of(els).len() == els.len(),
        forall|i: int| 0 <= i < els.len() ==> views_of(els)[i] == #[trigger] els[i]@,
    decreases els.len(),
{
    if els.len() > 0 {
        lemma_views_of_index(els.drop_last());
        let tail = views_of(els.drop_last());
        let x = els.last()@;
        assert(views_of(els) == tail.push(x));
        assert forall|i: int| 0 <= i < els.len() implies views_of(els)[i] == #[trigger] els[i]@ by {
            if i < els.len() - 1 {
                assert(tail.push(x)[i] == tail[i]);
                assert(els.drop_last()[i] == els[i]);
            } else {
                assert(tail.push(x)[i] == x);
            }
        }
    }
}

/// `mviews_of` maps elementwise.
pub proof fn lemma_mviews_of_index(ms: Seq<(Vec<u8>, Json)>)
    ensures
        mviews_of(ms).len() == ms.len(),
        forall|i: int|
            0 <= i < ms.len() ==> mviews_of(ms)[i] == (#[trigger] ms[i].0@, ms[i].1@),
    decreases ms.len(),
{
    if ms.len() > 0 {
        lemma_mviews_of_index(ms.drop_last());
        let tail = mviews_of(ms.drop_last());
        let x = (ms.last().0@, ms.last().1@);
        assert(mviews_of(ms) == tail.push(x));
        assert forall|i: int|
            0 <= i < ms.len() implies mviews_of(ms)[i] == (#[trigger] ms[i].0@, ms[i].1@) by {
            if i < ms.len() - 1 {
                assert(tail.push(x)[i] == tail[i]);
                assert(ms.drop_last()[i] == ms[i]);
            } else {
                assert(tail.push(x)[i] == x);
            }
        }
    }
}

/// Viewing commutes with prepending an element.
pub proof fn lemma_views_of_insert0(s: Seq<Json>, v: Json)
    ensures
        views_of(s.insert(0, v)) =~= seq![v@] + views_of(s),
{
    s.insert_ensures(0, v);
    lemma_views_of_index(s.insert(0, v));
    lemma_views_of_index(s);
    assert forall|q: int|
        0 <= q < views_of(s.insert(0, v)).len() implies views_of(s.insert(0, v))[q] == (seq![v@]
        + views_of(s))[q] by {
        assert(views_of(s.insert(0, v))[q] == s.insert(0, v)[q]@);
        if q > 0 {
            assert(s.insert(0, v)[(q - 1) + 1] == s[q - 1]);
            assert(views_of(s)[q - 1] == s[q - 1]@);
        }
    }
}

/// Viewing commutes with prepending a member.
pub proof fn lemma_mviews_of_insert0(s: Seq<(Vec<u8>, Json)>, kv: (Vec<u8>, Json))
    ensures
        mviews_of(s.insert(0, kv)) =~= seq![(kv.0@, kv.1@)] + mviews_of(s),
{
    s.insert_ensures(0, kv);
    lemma_mviews_of_index(s.insert(0, kv));
    lemma_mviews_of_index(s);
    assert forall|q: int|
        0 <= q < mviews_of(s.insert(0, kv)).len() implies mviews_of(s.insert(0, kv))[q] == (seq![
        (kv.0@, kv.1@),
    ] + mviews_of(s))[q] by {
        assert(mviews_of(s.insert(0, kv))[q] == (s.insert(0, kv)[q].0@, s.insert(0, kv)[q].1@));
        if q > 0 {
            assert(s.insert(0, kv)[(q - 1) + 1] == s[q - 1]);
            assert(mviews_of(s)[q - 1] == (s[q - 1].0@, s[q - 1].1@));
        }
    }
}

pub open spec fn is_ws(b: u8) -> bool {
    b == 32 || b == 9 || b == 10 || b == 13
}

pub open spec fn is_digit(b: u8) -> bool {
    48 <= b && b <= 57
}


/// What a short escape after a backslash stands for; `None` rejects.
pub open spec fn sp_unescape(b: u8) -> Option<u8> {
    if b == QUOTE {
        Some(QUOTE)
    } else if b == BACKSLASH {
        Some(BACKSLASH)
    } else if b == 47 {
        Some(47u8)
    } else if b == 98 {
        Some(8u8)
    } else if b == 102 {
        Some(12u8)
    } else if b == 110 {
        Some(10u8)
    } else if b == 114 {
        Some(13u8)
    } else if b == 116 {
        Some(9u8)
    } else {
        None
    }
}

/// Value of a hexadecimal digit, either case.
pub open spec fn sp_hex_val(b: u8) -> Option<int> {
    if 48 <= b && b <= 57 {
        Some(b - 48)
    } else if 97 <= b && b <= 102 {
        Some(b - 87)
    } else if 65 <= b && b <= 70 {
        Some(b - 55)
    } else {
        None
    }
}

/// Value of the four hexadecimal digits at `i`.
pub open spec fn sp_hex4(s: Seq<u8>, i: int) -> Option<int> {
    if 0 <= i && i + 4 <= s.len() {
        match (sp_hex_val(s[i]), sp_hex_val(s[i + 1]), sp_hex_val(s[i + 2]), sp_hex_val(s[i + 3])) {
            (Some(a), Some(b), Some(c), Some(d)) => Some(a * 4096 + b * 256 + c * 16 + d),
            _ => None,
        }
    } else {
        None
    }
}

/// The UTF-8 bytes of a code point below 0x110000.
pub open spec fn utf8_of(cp: int) -> Seq<u8> {
    if cp < 0x80 {
        seq![cp as u8]
    } else if cp < 0x800 {
        seq![(0xC0 + cp / 0x40) as u8, (0x80 + cp % 0x40) as u8]
    } else if cp < 0x10000 {
        seq![
            (0xE0 + cp / 0x1000) as u8,
            (0x80 + (cp / 0x40) % 0x40) as u8,
            (0x80 + cp % 0x40) as u8,
        ]
    } else {
        seq![
            (0xF0 + cp / 0x40000) as u8,
            (0x80 + (cp / 0x1000) % 0x40) as u8,
            (0x80 + (cp / 0x40) % 0x40) as u8,
            (0x80 + cp % 0x40) as u8,
        ]
    }
}

/// A `\uXXXX` escape starting at `i` (the backslash): the UTF-8 bytes it
/// stands for and the index past it. A high surrogate must be followed by
/// a low one, the pair standing for one supplementary code point; a lone
/// surrogate rejects.
pub open spec fn sp_u_escape(s: Seq<u8>, i: int) -> Option<(Seq<u8>, int)> {
    match sp_hex4(s, i + 2) {
        None => None,
        Some(c1) => if 0xD800 <= c1 < 0xDC00 {
            if i + 12 <= s.len() && s[i + 6] == BACKSLASH && s[i + 7] == 117 {
                match sp_hex4(s, i + 8) {
                    None => None,
                    Some(c2) => if 0xDC00 <= c2 < 0xE000 {
                        Some(
                            (utf8_of(0x10000 + (c1 - 0xD800) * 0x400 + (c2 - 0xDC00)), i + 12),
                        )
                    } else {
                        None
                    },
                }
            } else {
                None
            }
        } else if 0xDC00 <= c1 < 0xE000 {
            None
        } else {
            Some((utf8_of(c1), i + 6))
        },
    }
}

/// First index at or after `i` that does not hold whitespace.
pub open spec fn sp_ws(s: Seq<u8>, i: int) -> int
    decreases s.len() - i,
{
    if 0 <= i < s.len() && is_ws(s[i]) {
        sp_ws(s, i + 1)
    } else {
        i
    }
}

/// String body from `i` (just past the opening quote) to the closing quote:
/// the unescaped content and the index just past the closing quote.
pub open spec fn sp_chars(s: Seq<u8>, i: int) -> Option<(Seq<u8>, int)>
    decreases s.len() - i,
{
    if !(0 <= i < s.len()) {
        None
    } else if s[i] == QUOTE {
        Some((seq![], i + 1))
    } else if s[i] == BACKSLASH {
        if i + 1 < s.len() {
            if s[i + 1] == 117 {
                // \uXXXX
                match sp_u_escape(s, i) {
                    None => None,
                    Some((bs, j)) => match sp_chars(s, j) {
                        None => None,
                        Some((cs, k)) => Some((bs + cs, k)),
                    },
                }
            } else {
                match sp_unescape(s[i + 1]) {
                    None => None,
                    Some(c) => match sp_chars(s, i + 2) {
                        None => None,
                        Some((cs, j)) => Some((seq![c] + cs, j)),
                    },
                }
            }
        } else {
            None
        }
    } else if s[i] < 32 {
        None
    } else {
        match sp_chars(s, i + 1) {
            None => None,
            Some((cs, j)) => Some((seq![s[i]] + cs, j)),
        }
    }
}

/// A quoted string starting at `i`.
pub open spec fn sp_string(s: Seq<u8>, i: int) -> Option<(Seq<u8>, int)> {
    if 0 <= i < s.len() && s[i] == QUOTE {
        sp_chars(s, i + 1)
    } else {
        None
    }
}

/// First index at or after `i` that does not hold a decimal digit.
pub open spec fn sp_digits_end(s: Seq<u8>, i: int) -> int
    decreases s.len() - i,
{
    if 0 <= i < s.len() && is_digit(s[i]) {
        sp_digits_end(s, i + 1)
    } else {
        i
    }
}

/// The integer part of a number at `i`: an optional minus sign, then
/// either a single zero or a nonzero digit followed by more digits.
/// Returns the index past it.
pub open spec fn sp_int_part(s: Seq<u8>, i: int) -> Option<int> {
    let j = if 0 <= i < s.len() && s[i] == MINUS {
        i + 1
    } else {
        i
    };
    if 0 <= j < s.len() && s[j] == 48 {
        Some(j + 1)
    } else if 0 <= j < s.len() && is_digit(s[j]) {
        Some(sp_digits_end(s, j))
    } else {
        None
    }
}

/// The optional fraction at `j`: a point followed by at least one digit.
pub open spec fn sp_frac_part(s: Seq<u8>, j: int) -> int {
    if 0 <= j && j + 1 < s.len() && s[j] == 46 && is_digit(s[j + 1]) {
        sp_digits_end(s, j + 1)
    } else {
        j
    }
}

/// The optional exponent at `j`: `e` or `E`, an optional sign, and at
/// least one digit.
pub open spec fn sp_exp_part(s: Seq<u8>, j: int) -> int {
    if 0 <= j < s.len() && (s[j] == 101 || s[j] == 69) {
        let k = if j + 1 < s.len() && (s[j + 1] == 43 || s[j + 1] == MINUS) {
            j + 2
        } else {
            j + 1
        };
        if k < s.len() && is_digit(s[k]) {
            sp_digits_end(s, k)
        } else {
            j
        }
    } else {
        j
    }
}

/// A number token at `i`, following the JSON number grammar: its raw
/// bytes and the index past it.
pub open spec fn sp_number(s: Seq<u8>, i: int) -> Option<(Seq<u8>, int)> {
    match sp_int_part(s, i) {
        None => None,
        Some(j1) => Some((s.subrange(i, sp_exp_part(s, sp_frac_part(s, j1))), sp_exp_part(s, sp_frac_part(s, j1)))),
    }
}

/// A JSON value starting at `i`. The fuel `d` bounds how many nesting or
/// separator steps the parse may take; `sp_json` supplies one unit per
/// input byte, which covers every frame, since each unit spent stands for
/// at least one byte consumed.
pub open spec fn sp_value(s: Seq<u8>, i: int, d: nat) -> Option<(JsonV, int)>
    decreases d, 0int,
{
    if d == 0 {
        None
    } else if !(0 <= i < s.len()) {
        None
    } else {
        let c = s[i];
        if c == QUOTE {
            match sp_string(s, i) {
                None => None,
                Some((cs, j)) => Some((JsonV::Str(cs), j)),
            }
        } else if c == LBRACE {
            let j = sp_ws(s, i + 1);
            if 0 <= j < s.len() && s[j] == RBRACE {
                Some((JsonV::Obj(seq![]), j + 1))
            } else {
                match sp_members(s, j, (d - 1) as nat) {
                    None => None,
                    Some((ms, k)) => Some((JsonV::Obj(ms), k)),
                }
            }
        } else if c == LBRACKET {
            let j = sp_ws(s, i + 1);
            if 0 <= j < s.len() && s[j] == RBRACKET {
                Some((JsonV::Arr(seq![]), j + 1))
            } else {
                match sp_elems(s, j, (d - 1) as nat) {
                    None => None,
                    Some((vs, k)) => Some((JsonV::Arr(vs), k)),
                }
            }
        } else if c == 116 {
            // true
            if i + 4 <= s.len() && s[i + 1] == 114 && s[i + 2] == 117 && s[i + 3] == 101 {
                Some((JsonV::Bool(true), i + 4))
            } else {
                None
            }
        } else if c == 102 {
            // false
            if i + 5 <= s.len() && s[i + 1] == 97 && s[i + 2] == 108 && s[i + 3] == 115 && s[i + 4]
                == 101 {
                Some((JsonV::Bool(false), i + 5))
            } else {
                None
            }
        } else if c == 110 {
            // null
            if i + 4 <= s.len() && s[i + 1] == 117 && s[i + 2] == 108 && s[i + 3] == 108 {
                Some((JsonV::Null, i + 4))
            } else {
                None
            }
        } else if c == MINUS || is_digit(c) {
            match sp_number(s, i) {
                None => None,
                Some((n, j)) => Some((JsonV::Num(n), j)),
            }
        } else {
            None
        }
    }
}

/// One or more array elements starting at `i`, up to and past the closing
/// bracket.
pub open spec fn sp_elems(s: Seq<u8>, i: int, d: nat) -> Option<(Seq<JsonV>, int)>
    decreases d, 1int,
{
    if d == 0 {
        None
    } else {
        match sp_value(s, i, d) {
            None => None,
            Some((v, j)) => {
                let k = sp_ws(s, j);
                if !(0 <= k < s.len()) {
                    None
                } else if s[k] == COMMA {
                    match sp_elems(s, sp_ws(s, k + 1), (d - 1) as nat) {
                        None => None,
                        Some((vs, m)) => Some((seq![v] + vs, m)),
                    }
                } else if s[k] == RBRACKET {
                    Some((seq![v], k + 1))
                } else {
                    None
                }
            },
        }
    }
}

/// One or more object members starting at `i`, up to and past the closing
/// brace.
pub open spec fn sp_members(s: Seq<u8>, i: int, d: nat) -> Option<(Seq<(Seq<u8>, JsonV)>, int)>
    decreases d, 1int,
{
    if d == 0 {
        None
    } else {
        match sp_string(s, i) {
            None => None,
            Some((key, j)) => {
                let k = sp_ws(s, j);
                if !(0 <= k < s.len() && s[k] == COLON) {
                    None
                } else {
                    match sp_value(s, sp_ws(s, k + 1), d) {
                        None => None,
                        Some((v, m)) => {
                            let n = sp_ws(s, m);
                            if !(0 <= n < s.len()) {
                                None
                            } else if s[n] == COMMA {
                                match sp_members(s, sp_ws(s, n + 1), (d - 1) as nat) {
                                    None => None,
                                    Some((ms, p)) => Some((seq![(key, v)] + ms, p)),
                                }
                            } else if s[n] == RBRACE {
                                Some((seq![(key, v)], n + 1))
                            } else {
                                None
                            }
                        },
                    }
                }
            },
        }
    }
}

/// A whole frame: one value, with whitespace allowed around it and nothing
/// else before the end of the input.
pub open spec fn sp_json(s: Seq<u8>) -> Option<JsonV> {
    match sp_value(s, sp_ws(s, 0), s.len()) {
        None => None,
        Some((v, j)) => if sp_ws(s, j) == s.len() {
            Some(v)
        } else {
            None
        },
    }
}

fn is_ws_byte(b: u8) -> (r: bool)
    ensures
        r == is_ws(b),
{
    b == 32 || b == 9 || b == 10 || b == 13
}

fn is_digit_byte(b: u8) -> (r: bool)
    ensures
        r == is_digit(b),
{
    48 <= b && b <= 57
}

fn hex_val(b: u8) -> (r: Option<u32>)
    ensures
        match r {
            None => sp_hex_val(b) is None,
            Some(v) => sp_hex_val(b) == Some(v as int) && v <= 15,
        },
{
    if 48 <= b && b <= 57 {
        Some((b - 48) as u32)
    } else if 97 <= b && b <= 102 {
        Some((b - 87) as u32)
    } else if 65 <= b && b <= 70 {
        Some((b - 55) as u32)
    } else {
        None
    }
}

fn hex4(s: &Vec<u8>, i: usize) -> (r: Option<u32>)
    ensures
        match r {
            None => sp_hex4(s@, i as int) is None,
            Some(v) => sp_hex4(s@, i as int) == Some(v as int) && v <= 0xFFFF && i + 4
                <= s@.len(),
        },
{
    if s.len() < 4 || i > s.len() - 4 {
        return None;
    }
    match (hex_val(s[i]), hex_val(s[i + 1]), hex_val(s[i + 2]), hex_val(s[i + 3])) {
        (Some(a), Some(b), Some(c), Some(d)) => Some(a * 4096 + b * 256 + c * 16 + d),
        _ => None,
    }
}

fn utf8_encode(cp: u32) -> (r: Vec<u8>)
    requires
        cp < 0x110000,
    ensures
        r@ == utf8_of(cp as int),
{
    let mut v: Vec<u8> = Vec::new();
    if cp < 0x80 {
        v.push(cp as u8);
    } else if cp < 0x800 {
        v.push((0xC0 + cp / 0x40) as u8);
        v.push((0x80 + cp % 0x40) as u8);
    } else if cp < 0x10000 {
        v.push((0xE0 + cp / 0x1000) as u8);
        v.push((0x80 + (cp / 0x40) % 0x40) as u8);
        v.push((0x80 + cp % 0x40) as u8);
    } else {
        v.push((0xF0 + cp / 0x40000) as u8);
        v.push((0x80 + (cp / 0x1000) % 0x40) as u8);
        v.push((0x80 + (cp / 0x40) % 0x40) as u8);
        v.push((0x80 + cp % 0x40) as u8);
    }
    proof {
        assert(v@ =~= utf8_of(cp as int));
    }
    v
}

fn e_u_escape(s: &Vec<u8>, i: usize) -> (r: Option<(Vec<u8>, usize)>)
    requires
        i < s@.len(),
    ensures
        match r {
            None => sp_u_escape(s@, i as int) is None,
            Some((bs, j)) => sp_u_escape(s@, i as int) == Some((bs@, j as int)) && i < j
                <= s@.len(),
        },
{
    if s.len() - i < 6 {
        proof {
            assert(sp_hex4(s@, i + 2) is None);
        }
        return None;
    }
    let c1 = match hex4(s, i + 2) {
        None => {
            return None;
        },
        Some(c) => c,
    };
    if 0xD800 <= c1 && c1 < 0xDC00 {
        if s.len() - i < 12 || s[i + 6] != BACKSLASH || s[i + 7] != 117 {
            return None;
        }
        let c2 = match hex4(s, i + 8) {
            None => {
                return None;
            },
            Some(c) => c,
        };
        if 0xDC00 <= c2 && c2 < 0xE000 {
            let cp = 0x10000 + (c1 - 0xD800) * 0x400 + (c2 - 0xDC00);
            Some((utf8_encode(cp), i + 12))
        } else {
            None
        }
    } else if 0xDC00 <= c1 && c1 < 0xE000 {
        None
    } else {
        Some((utf8_encode(c1), i + 6))
    }
}

fn unescape(b: u8) -> (r: Option<u8>)
    ensures
        r == sp_unescape(b),
{
    if b == QUOTE {
        Some(QUOTE)
    } else if b == BACKSLASH {
        Some(BACKSLASH)
    } else if b == 47 {
        Some(47u8)
    } else if b == 98 {
        Some(8u8)
    } else if b == 102 {
        Some(12u8)
    } else if b == 110 {
        Some(10u8)
    } else if b == 114 {
        Some(13u8)
    } else if b == 116 {
        Some(9u8)
    } else {
        None
    }
}

fn e_ws(s: &Vec<u8>, i: usize) -> (r: usize)
    requires
        i <= s@.len(),
    ensures
        r == sp_ws(s@, i as int),
        i <= r <= s@.len(),
{
    let mut j: usize = i;
    while j < s.len() && is_ws_byte(s[j])
        invariant
            i <= j <= s@.len(),
            sp_ws(s@, i as int) == sp_ws(s@, j as int),
        decreases s@.len() - j,
    {
        proof {
            assert(sp_ws(s@, j as int) == sp_ws(s@, j + 1));
        }
        j = j + 1;
    }
    j
}

fn e_digits_end(s: &Vec<u8>, i: usize) -> (r: usize)
    requires
        i <= s@.len(),
    ensures
        r == sp_digits_end(s@, i as int),
        i <= r <= s@.len(),
{
    let mut j: usize = i;
    while j < s.len() && is_digit_byte(s[j])
        invariant
            i <= j <= s@.len(),
            sp_digits_end(s@, i as int) == sp_digits_end(s@, j as int),
        decreases s@.len() - j,
    {
        proof {
            assert(sp_digits_end(s@, j as int) == sp_digits_end(s@, j + 1));
        }
        j = j + 1;
    }
    j
}

fn e_int_part(s: &Vec<u8>, i: usize) -> (r: Option<usize>)
    requires
        i <= s@.len(),
    ensures
        match r {
            None => sp_int_part(s@, i as int) is None,
            Some(j) => sp_int_part(s@, i as int) == Some(j as int) && i < j <= s@.len(),
        },
{
    let j = if i < s.len() && s[i] == MINUS {
        i + 1
    } else {
        i
    };
    if j < s.len() && s[j] == 48 {
        Some(j + 1)
    } else if j < s.len() && is_digit_byte(s[j]) {
        let r = e_digits_end(s, j + 1);
        proof {
            assert(sp_digits_end(s@, j as int) == sp_digits_end(s@, j + 1));
        }
        Some(r)
    } else {
        None
    }
}

fn e_frac_part(s: &Vec<u8>, j: usize) -> (r: usize)
    requires
        j <= s@.len(),
    ensures
        r == sp_frac_part(s@, j as int),
        j <= r <= s@.len(),
{
    if s.len() - j >= 2 && s[j] == 46 && is_digit_byte(s[j + 1]) {
        e_digits_end(s, j + 1)
    } else {
        j
    }
}

fn e_exp_part(s: &Vec<u8>, j: usize) -> (r: usize)
    requires
        j <= s@.len(),
    ensures
        r == sp_exp_part(s@, j as int),
        j <= r <= s@.len(),
{
    if j < s.len() && (s[j] == 101 || s[j] == 69) {
        let k = if s.len() - j >= 2 && (s[j + 1] == 43 || s[j + 1] == MINUS) {
            j + 2
        } else {
            j + 1
        };
        if k < s.len() && is_digit_byte(s[k]) {
            e_digits_end(s, k)
        } else {
            j
        }
    } else {
        j
    }
}

fn e_chars(s: &Vec<u8>, i: usize) -> (r: Option<(Vec<u8>, usize)>)
    requires
        i <= s@.len(),
    ensures
        match r {
            None => sp_chars(s@, i as int) is None,
            Some((cs, j)) => sp_chars(s@, i as int) == Some((cs@, j as int)) && i < j
                <= s@.len(),
        },
    decreases s@.len() - i,
{
    if i >= s.len() {
        return None;
    }
    let b = s[i];
    if b == QUOTE {
        let cs: Vec<u8> = Vec::new();
        proof {
            assert(cs@ =~= Seq::<u8>::empty());
        }
        return Some((cs, i + 1));
    }
    if b == BACKSLASH {
        if s.len() - i < 2 {
            return None;
        }
        if s[i + 1] == 117 {
            match e_u_escape(s, i) {
                None => None,
                Some((bs, j)) => {
                    match e_chars(s, j) {
                        None => None,
                        Some((cs0, k)) => {
                            let ghost bsv = bs@;
                            let ghost csv = cs0@;
                            let mut out = bs;
                            let mut cs = cs0;
                            out.append(&mut cs);
                            proof {
                                assert(out@ == bsv + csv);
                            }
                            Some((out, k))
                        },
                    }
                },
            }
        } else {
            match unescape(s[i + 1]) {
                None => None,
                Some(c) => {
                    match e_chars(s, i + 2) {
                        None => None,
                        Some((cs0, j)) => {
                            let ghost old_cs = cs0@;
                            let mut cs = cs0;
                            cs.insert(0, c);
                            proof {
                                assert(cs@ =~= seq![c] + old_cs);
                            }
                            Some((cs, j))
                        },
                    }
                },
            }
        }
    } else if b < 32 {
        None
    } else {
        match e_chars(s, i + 1) {
            None => None,
            Some((cs0, j)) => {
                let ghost old_cs = cs0@;
                let mut cs = cs0;
                cs.insert(0, b);
                proof {
                    assert(cs@ =~= seq![s@[i as int]] + old_cs);
                }
                Some((cs, j))
            },
        }
    }
}

fn e_string(s: &Vec<u8>, i: usize) -> (r: Option<(Vec<u8>, usize)>)
    requires
        i <= s@.len(),
    ensures
        match r {
            None => sp_string(s@, i as int) is None,
            Some((cs, j)) => sp_string(s@, i as int) == Some((cs@, j as int)) && i < j
                <= s@.len(),
        },
{
    if i < s.len() && s[i] == QUOTE {
        e_chars(s, i + 1)
    } else {
        None
    }
}

fn e_number(s: &Vec<u8>, i: usize) -> (r: Option<(Vec<u8>, usize)>)
    requires
        i <= s@.len(),
    ensures
        match r {
            None => sp_number(s@, i as int) is None,
            Some((n, j)) => sp_number(s@, i as int) == Some((n@, j as int)) && i < j <= s@.len(),
        },
{
    let j1 = match e_int_part(s, i) {
        None => {
            return None;
        },
        Some(j) => j,
    };
    let j2 = e_frac_part(s, j1);
    let j3 = e_exp_part(s, j2);
    let mut raw: Vec<u8> = Vec::new();
    let mut k: usize = i;
    while k < j3
        invariant
            i <= k <= j3 <= s@.len(),
            raw@ =~= s@.subrange(i as int, k as int),
        decreases j3 - k,
    {
        raw.push(s[k]);
        proof {
            assert(raw@ =~= s@.subrange(i as int, k + 1));
        }
        k = k + 1;
    }
    proof {
        assert(raw@ =~= s@.subrange(
            i as int,
            sp_exp_part(s@, sp_frac_part(s@, sp_int_part(s@, i as int)->0)),
        ));
    }
    Some((raw, j3))
}

fn e_value(s: &Vec<u8>, i: usize, d: usize) -> (r: Option<(Json, usize)>)
    requires
        i <= s@.len(),
    ensures
        match r {
            None => sp_value(s@, i as int, d as nat) is None,
            Some((v, j)) => sp_value(s@, i as int, d as nat) == Some((v@, j as int)) && j
                <= s@.len(),
        },
    decreases d, 0int,
{
    if d == 0 {
        return None;
    }
    if i >= s.len() {
        return None;
    }
    let c = s[i];
    if c == QUOTE {
        match e_string(s, i) {
            None => None,
            Some((cs, j)) => Some((Json::Str(cs), j)),
        }
    } else if c == LBRACE {
        let j = e_ws(s, i + 1);
        if j < s.len() && s[j] == RBRACE {
            let ms: Vec<(Vec<u8>, Json)> = Vec::new();
            proof {
                assert(mviews_of(ms@) =~= Seq::<(Seq<u8>, JsonV)>::empty());
            }
            Some((Json::Obj(ms), j + 1))
        } else {
            match e_members(s, j, d - 1) {
                None => None,
                Some((ms, k)) => Some((Json::Obj(ms), k)),
            }
        }
    } else if c == LBRACKET {
        let j = e_ws(s, i + 1);
        if j < s.len() && s[j] == RBRACKET {
            let vs: Vec<Json> = Vec::new();
            proof {
                assert(views_of(vs@) =~= Seq::<JsonV>::empty());
            }
            Some((Json::Arr(vs), j + 1))
        } else {
            match e_elems(s, j, d - 1) {
                None => None,
                Some((vs, k)) => Some((Json::Arr(vs), k)),
            }
        }
    } else if c == 116 {
        if s.len() - i >= 4 && s[i + 1] == 114 && s[i + 2] == 117 && s[i + 3] == 101 {
            Some((Json::Bool(true), i + 4))
        } else {
            None
        }
    } else if c == 102 {
        if s.len() - i >= 5 && s[i + 1] == 97 && s[i + 2] == 108 && s[i + 3] == 115 && s[i + 4]
            == 101 {
            Some((Json::Bool(false), i + 5))
        } else {
            None
        }
    } else if c == 110 {
        if s.len() - i >= 4 && s[i + 1] == 117 && s[i + 2] == 108 && s[i + 3] == 108 {
            Some((Json::Null, i + 4))
        } else {
            None
        }
    } else if c == MINUS || is_digit_byte(c) {
        match e_number(s, i) {
            None => None,
            Some((n, j)) => Some((Json::Num(n), j)),
        }
    } else {
        None
    }
}

fn e_elems(s: &Vec<u8>, i: usize, d: usize) -> (r: Option<(Vec<Json>, usize)>)
    requires
        i <= s@.len(),
    ensures
        match r {
            None => sp_elems(s@, i as int, d as nat) is None,
            Some((els, j)) => sp_elems(s@, i as int, d as nat) == Some(
                (views_of(els@), j as int),
            ) && j <= s@.len(),
        },
    decreases d, 1int,
{
    if d == 0 {
        return None;
    }
    match e_value(s, i, d) {
        None => None,
        Some((v, j)) => {
            let k = e_ws(s, j);
            if k >= s.len() {
                return None;
            }
            let c = s[k];
            if c == COMMA {
                let m0 = e_ws(s, k + 1);
                match e_elems(s, m0, d - 1) {
                    None => None,
                    Some((els0, m)) => {
                        let ghost old_els = els0@;
                        let ghost vg = v;
                        let mut els = els0;
                        els.insert(0, v);
                        proof {
                            lemma_views_of_insert0(old_els, vg);
                            assert(els@ == old_els.insert(0, vg));
                            assert(views_of(els@) =~= seq![vg@] + views_of(old_els));
                        }
                        Some((els, m))
                    },
                }
            } else if c == RBRACKET {
                let ghost vv = v@;
                let mut els: Vec<Json> = Vec::new();
                els.push(v);
                proof {
                    lemma_views_of_index(els@);
                    assert(views_of(els@) =~= seq![vv]);
                }
                Some((els, k + 1))
            } else {
                None
            }
        },
    }
}

fn e_members(s: &Vec<u8>, i: usize, d: usize) -> (r: Option<(Vec<(Vec<u8>, Json)>, usize)>)
    requires
        i <= s@.len(),
    ensures
        match r {
            None => sp_members(s@, i as int, d as nat) is None,
            Some((ms, j)) => sp_members(s@, i as int, d as nat) == Some(
                (mviews_of(ms@), j as int),
            ) && j <= s@.len(),
        },
    decreases d, 1int,
{
    if d == 0 {
        return None;
    }
    match e_string(s, i) {
        None => None,
        Some((key, j)) => {
            let k = e_ws(s, j);
            if !(k < s.len() && s[k] == COLON) {
                return None;
            }
            let v0 = e_ws(s, k + 1);
            match e_value(s, v0, d) {
                None => None,
                Some((v, m)) => {
                    let n = e_ws(s, m);
                    if n >= s.len() {
                        return None;
                    }
                    let c = s[n];
                    if c == COMMA {
                        let p0 = e_ws(s, n + 1);
                        match e_members(s, p0, d - 1) {
                            None => None,
                            Some((ms0, p)) => {
                                let ghost old_ms = ms0@;
                                let ghost kg = key;
                                let ghost vg = v;
                                let mut ms = ms0;
                                ms.insert(0, (key, v));
                                proof {
                                    lemma_mviews_of_insert0(old_ms, (kg, vg));
                                    assert(ms@ == old_ms.insert(0, (kg, vg)));
                                    assert(mviews_of(ms@) =~= seq![(kg@, vg@)] + mviews_of(
                                        old_ms,
                                    ));
                                }
                                Some((ms, p))
                            },
                        }
                    } else if c == RBRACE {
                        let ghost kv = key@;
                        let ghost vv = v@;
                        let mut ms: Vec<(Vec<u8>, Json)> = Vec::new();
                        ms.push((key, v));
                        proof {
                            lemma_mviews_of_index(ms@);
                            assert(mviews_of(ms@) =~= seq![(kv, vv)]);
                        }
                        Some((ms, n + 1))
                    } else {
                        None
                    }
                },
            }
        },
    }
}

/// Parses a whole frame; returns exactly the tree that `sp_json` gives.
pub fn parse_json(s: &Vec<u8>) -> (r: Option<Json>)
    ensures
        match r {
            None => sp_json(s@) is None,
            Some(v) => sp_json(s@) == Some(v@),
        },
{
    let i = e_ws(s, 0);
    match e_value(s, i, s.len()) {
        None => None,
        Some((v, j)) => {
            let k = e_ws(s, j);
            if k == s.len() {
                Some(v)
            } else {
                None
            }
        },
    }
}

/// First member of `o` whose key is `k`, if any.
pub open spec fn sp_obj_get(o: Seq<(Seq<u8>, JsonV)>, k: Seq<u8>) -> Option<JsonV>
    decreases o.len(),
{
    if o.len() == 0 {
        None
    } else if o[0].0 == k {
        Some(o[0].1)
    } else {
        sp_obj_get(o.drop_first(), k)
    }
}

/// Byte-string equality.
pub fn bytes_eq(a: &[u8], b: &[u8]) -> (r: bool)
    ensures
        r == (a@ == b@),
{
    if a.len() != b.len() {
        proof {
            assert(a@ != b@);
        }
        return false;
    }
    let mut i: usize = 0;
    while i < a.len()
        invariant
            0 <= i <= a@.len(),
            a@.len() == b@.len(),
            forall|q: int| 0 <= q < i ==> a@[q] == b@[q],
        decreases a@.len() - i,
    {
        if a[i] != b[i] {
            proof {
                assert(a@[i as int] != b@[i as int]);
            }
            return false;
        }
        i = i + 1;
    }
    proof {
        assert(a@ =~= b@);
    }
    true
}

/// First member of `o` whose key is `k`, if any.
pub fn obj_get<'a>(o: &'a Vec<(Vec<u8>, Json)>, k: &[u8]) -> (r: Option<&'a Json>)
    ensures
        match r {
            None => sp_obj_get(mviews_of(o@), k@) is None,
            Some(v) => sp_obj_get(mviews_of(o@), k@) == Some(v@),
        },
{
    proof {
        lemma_mviews_of_index(o@);
        assert(mviews_of(o@).skip(0) =~= mviews_of(o@));
    }
    let mut i: usize = 0;
    while i < o.len()
        invariant
            0 <= i <= o@.len(),
            sp_obj_get(mviews_of(o@), k@) == sp_obj_get(mviews_of(o@).skip(i as int), k@),
        decreases o@.len() - i,
    {
        if bytes_eq(o[i].0.as_slice(), k) {
            proof {
                lemma_mviews_of_index(o@);
                assert(mviews_of(o@).skip(i as int)[0] == mviews_of(o@)[i as int]);
            }
            return Some(&o[i].1);
        }
        proof {
            lemma_mviews_of_index(o@);
            assert(mviews_of(o@).skip(i as int)[0] == mviews_of(o@)[i as int]);
            assert(mviews_of(o@).skip(i as int).drop_first() =~= mviews_of(o@).skip(i + 1));
        }
        i = i + 1;
    }
    proof {
        lemma_mviews_of_index(o@);
        assert(mviews_of(o@).skip(i as int).len() == 0);
    }
    None
}

} // verus!
