//! The JSON document model and parser used for API response bodies.
//!
//! Responses are parsed into [`Json`] values. Numbers are kept in their
//! decimal text form, so no precision is lost and callers decide how to
//! interpret them. The parser follows the JSON grammar: a document is
//! optional whitespace, one value, optional whitespace, and nothing else.

use vstd::prelude::*;

verus! {

/// A JSON value, as parsed from a response body.
///
/// Object members keep their textual order; a duplicate key is kept as a
/// separate member, and lookups take the first match. Number tokens are kept
/// verbatim.
#[derive(Debug)]
pub enum Json {
    Null,
    Bool(bool),
    /// A number, kept in its original decimal text form.
    Num(String),
    Str(String),
    Arr(Vec<Json>),
    Obj(Vec<(String, Json)>),
}

/// The mathematical model of a JSON value.
pub enum JVal {
    Null,
    Bool(bool),
    Num(Seq<char>),
    Str(Seq<char>),
    Arr(Seq<JVal>),
    Obj(Seq<(Seq<char>, JVal)>),
}

impl Json {
    /// The mathematical model of this value.
    pub open spec fn model(self) -> JVal
        decreases self,
    {
        match self {
            Json::Null => JVal::Null,
            Json::Bool(b) => JVal::Bool(b),
            Json::Num(s) => JVal::Num(s@),
            Json::Str(s) => JVal::Str(s@),
            Json::Arr(items) => JVal::Arr(
                Seq::new(
                    items@.len(),
                    |i: int|
                        if 0 <= i < items@.len() {
                            items@[i].model()
                        } else {
                            JVal::Null
                        },
                ),
            ),
            Json::Obj(members) => JVal::Obj(
                Seq::new(
                    members@.len(),
                    |i: int|
                        if 0 <= i < members@.len() {
                            (members@[i].0@, members@[i].1.model())
                        } else {
                            (Seq::empty(), JVal::Null)
                        },
                ),
            ),
        }
    }
}

/// The models of a vector of JSON values, in order.
pub open spec fn models_of(items: Seq<Json>) -> Seq<JVal> {
    Seq::new(items.len(), |i: int| items[i].model())
}

/// The models of a vector of JSON object members, in order.
pub open spec fn member_models_of(members: Seq<(String, Json)>) -> Seq<(Seq<char>, JVal)> {
    Seq::new(members.len(), |i: int| (members[i].0@, members[i].1.model()))
}

/// The first member of `members` named `key`, if any.
pub open spec fn jobj_get(members: Seq<(Seq<char>, JVal)>, key: Seq<char>) -> Option<JVal>
    decreases members.len(),
{
    if members.len() == 0 {
        None
    } else if members[0].0 == key {
        Some(members[0].1)
    } else {
        jobj_get(members.drop_first(), key)
    }
}

/// `j`, but no less than `lo`.
pub open spec fn at_least(j: int, lo: int) -> int {
    if j < lo {
        lo
    } else {
        j
    }
}

/// JSON insignificant whitespace.
pub open spec fn is_ws(c: char) -> bool {
    c == ' ' || c == '\t' || c == '\n' || c == '\r'
}

/// The position of the first non-whitespace character at or after `i`.
pub open spec fn sp_ws(s: Seq<char>, i: int) -> int
    decreases s.len() - i,
{
    if 0 <= i < s.len() && is_ws(s[i]) {
        sp_ws(s, i + 1)
    } else {
        i
    }
}

/// The end of the run of decimal digits starting at `i`.
pub open spec fn digits_end(s: Seq<char>, i: int) -> int
    decreases s.len() - i,
{
    if 0 <= i < s.len() && crate::text::is_digit(s[i]) {
        digits_end(s, i + 1)
    } else {
        i
    }
}

/// Whether `c` is a hexadecimal digit.
pub open spec fn is_hex(c: char) -> bool {
    crate::text::is_digit(c) || ('a' <= c && c <= 'f') || ('A' <= c && c <= 'F')
}

/// The value of a hexadecimal digit.
pub open spec fn hex_val(c: char) -> nat {
    if crate::text::is_digit(c) {
        ((c as u32) - 48) as nat
    } else if 'a' <= c && c <= 'f' {
        ((c as u32) - 87) as nat
    } else {
        ((c as u32) - 55) as nat
    }
}

/// The value of the four hexadecimal digits at `i`.
pub open spec fn hex4(s: Seq<char>, i: int) -> nat {
    hex_val(s[i]) * 0x1000 + hex_val(s[i + 1]) * 0x100 + hex_val(s[i + 2]) * 0x10 + hex_val(
        s[i + 3],
    )
}

/// The character named by a single-character escape, if it is one.
pub open spec fn esc_char(c: char) -> Option<char> {
    if c == '"' {
        Some('"')
    } else if c == '\\' {
        Some('\\')
    } else if c == '/' {
        Some('/')
    } else if c == 'b' {
        Some('\u{8}')
    } else if c == 'f' {
        Some('\u{c}')
    } else if c == 'n' {
        Some('\n')
    } else if c == 'r' {
        Some('\r')
    } else if c == 't' {
        Some('\t')
    } else {
        None
    }
}

/// Parse the body of a JSON string: `i` points just after the opening quote.
/// On success, yields the decoded characters and the position just after the
/// closing quote.
pub open spec fn sp_string(s: Seq<char>, i: int) -> Option<(Seq<char>, int)>
    decreases s.len() - i,
{
    if !(0 <= i < s.len()) {
        None
    } else {
        let c = s[i];
        if c == '"' {
            Some((Seq::empty(), i + 1))
        } else if c == '\\' {
            if i + 1 < s.len() {
                let e = s[i + 1];
                if e == 'u' {
                    if i + 5 < s.len() && is_hex(s[i + 2]) && is_hex(s[i + 3]) && is_hex(s[i + 4])
                        && is_hex(s[i + 5]) {
                        let v = hex4(s, i + 2);
                        if 0xD800 <= v && v <= 0xDBFF {
                            // A high surrogate must pair with a following low
                            // surrogate escape.
                            if i + 11 < s.len() && s[i + 6] == '\\' && s[i + 7] == 'u' && is_hex(
                                s[i + 8],
                            ) && is_hex(s[i + 9]) && is_hex(s[i + 10]) && is_hex(s[i + 11]) {
                                let w = hex4(s, i + 8);
                                if 0xDC00 <= w && w <= 0xDFFF {
                                    let cp = 0x10000 + (v - 0xD800) * 0x400 + (w - 0xDC00);
                                    match sp_string(s, i + 12) {
                                        Some((cs, j)) => Some((seq![(cp as u32) as char] + cs, j)),
                                        None => None,
                                    }
                                } else {
                                    None
                                }
                            } else {
                                None
                            }
                        } else if 0xDC00 <= v && v <= 0xDFFF {
                            None
                        } else {
                            match sp_string(s, i + 6) {
                                Some((cs, j)) => Some((seq![(v as u32) as char] + cs, j)),
                                None => None,
                            }
                        }
                    } else {
                        None
                    }
                } else {
                    match esc_char(e) {
                        Some(c2) => match sp_string(s, i + 2) {
                            Some((cs, j)) => Some((seq![c2] + cs, j)),
                            None => None,
                        },
                        None => None,
                    }
                }
            } else {
                None
            }
        } else if (c as u32) < 0x20 {
            None
        } else {
            match sp_string(s, i + 1) {
                Some((cs, j)) => Some((seq![c] + cs, j)),
                None => None,
            }
        }
    }
}

/// Parse the fraction part, if one starts at `ie`; yields the position after
/// it, or `None` if a lone `.` has no digits.
pub open spec fn frac_end(s: Seq<char>, ie: int) -> Option<int> {
    if 0 <= ie < s.len() && s[ie] == '.' {
        let de = digits_end(s, ie + 1);
        if de >= ie + 2 {
            Some(de)
        } else {
            None
        }
    } else {
        Some(ie)
    }
}

/// Parse the exponent part, if one starts at `fe`; yields the position after
/// it, or `None` if the exponent has no digits.
pub open spec fn exp_end(s: Seq<char>, fe: int) -> Option<int> {
    if 0 <= fe < s.len() && (s[fe] == 'e' || s[fe] == 'E') {
        let q = if fe + 1 < s.len() && (s[fe + 1] == '+' || s[fe + 1] == '-') {
            fe + 2
        } else {
            fe + 1
        };
        let de = digits_end(s, q);
        if de >= q + 1 {
            Some(de)
        } else {
            None
        }
    } else {
        Some(fe)
    }
}

/// Parse a JSON number starting at `i`; yields its verbatim text and the
/// position after it.
pub open spec fn sp_number(s: Seq<char>, i: int) -> Option<(Seq<char>, int)> {
    let p = if 0 <= i < s.len() && s[i] == '-' {
        i + 1
    } else {
        i
    };
    if 0 <= p < s.len() && crate::text::is_digit(s[p]) {
        let ie = if s[p] == '0' {
            p + 1
        } else {
            digits_end(s, p)
        };
        match frac_end(s, ie) {
            None => None,
            Some(fe) => match exp_end(s, fe) {
                None => None,
                Some(e) => Some((s.subrange(i, e), e)),
            },
        }
    } else {
        None
    }
}

/// Parse a JSON value starting exactly at `i`; yields its model and the
/// position just after it.
pub open spec fn sp_value(s: Seq<char>, i: int) -> Option<(JVal, int)>
    decreases s.len() - i, 2int,
{
    if !(0 <= i < s.len()) {
        None
    } else {
        let c = s[i];
        if c == 'n' {
            if i + 3 < s.len() && s[i + 1] == 'u' && s[i + 2] == 'l' && s[i + 3] == 'l' {
                Some((JVal::Null, i + 4))
            } else {
                None
            }
        } else if c == 't' {
            if i + 3 < s.len() && s[i + 1] == 'r' && s[i + 2] == 'u' && s[i + 3] == 'e' {
                Some((JVal::Bool(true), i + 4))
            } else {
                None
            }
        } else if c == 'f' {
            if i + 4 < s.len() && s[i + 1] == 'a' && s[i + 2] == 'l' && s[i + 3] == 's' && s[i + 4]
                == 'e' {
                Some((JVal::Bool(false), i + 5))
            } else {
                None
            }
        } else if c == '"' {
            match sp_string(s, i + 1) {
                Some((cs, j)) => Some((JVal::Str(cs), j)),
                None => None,
            }
        } else if c == '[' {
            let k = at_least(sp_ws(s, i + 1), i + 1);
            if k < s.len() {
                if s[k] == ']' {
                    Some((JVal::Arr(Seq::empty()), k + 1))
                } else {
                    match sp_items(s, k) {
                        Some((vs, j)) => Some((JVal::Arr(vs), j)),
                        None => None,
                    }
                }
            } else {
                None
            }
        } else if c == '{' {
            let k = at_least(sp_ws(s, i + 1), i + 1);
            if k < s.len() {
                if s[k] == '}' {
                    Some((JVal::Obj(Seq::empty()), k + 1))
                } else {
                    match sp_members(s, k) {
                        Some((ms, j)) => Some((JVal::Obj(ms), j)),
                        None => None,
                    }
                }
            } else {
                None
            }
        } else if c == '-' || crate::text::is_digit(c) {
            match sp_number(s, i) {
                Some((t, j)) => Some((JVal::Num(t), j)),
                None => None,
            }
        } else {
            None
        }
    }
}

/// Parse one or more comma-separated array elements starting at `i` (with
/// whitespace already skipped); yields the elements and the position just
/// after the closing bracket.
pub open spec fn sp_items(s: Seq<char>, i: int) -> Option<(Seq<JVal>, int)>
    decreases s.len() - i, 3int,
{
    if !(0 <= i < s.len()) {
        None
    } else {
        match sp_value(s, i) {
            None => None,
            Some((v, j0)) => {
                let j = at_least(j0, i + 1);
                let k = at_least(sp_ws(s, j), j);
                if k < s.len() && s[k] == ',' {
                    let m = at_least(sp_ws(s, k + 1), k + 1);
                    if m < s.len() {
                        match sp_items(s, m) {
                            None => None,
                            Some((vs, e)) => Some((seq![v] + vs, e)),
                        }
                    } else {
                        None
                    }
                } else if k < s.len() && s[k] == ']' {
                    Some((seq![v], k + 1))
                } else {
                    None
                }
            },
        }
    }
}

/// Parse one or more `"key": value` object members starting at `i` (with
/// whitespace already skipped); yields the members and the position just
/// after the closing brace.
pub open spec fn sp_members(s: Seq<char>, i: int) -> Option<(Seq<(Seq<char>, JVal)>, int)>
    decreases s.len() - i, 3int,
{
    if !(0 <= i < s.len()) {
        None
    } else if s[i] != '"' {
        None
    } else {
        match sp_string(s, i + 1) {
            None => None,
            Some((key, j0)) => {
                let j = at_least(j0, i + 2);
                let k = at_least(sp_ws(s, j), j);
                if k < s.len() && s[k] == ':' {
                    let m = at_least(sp_ws(s, k + 1), k + 1);
                    if m < s.len() {
                        match sp_value(s, m) {
                            None => None,
                            Some((v, j2)) => {
                                let p = at_least(j2, m + 1);
                                let q = at_least(sp_ws(s, p), p);
                                if q < s.len() && s[q] == ',' {
                                    let m2 = at_least(sp_ws(s, q + 1), q + 1);
                                    if m2 < s.len() {
                                        match sp_members(s, m2) {
                                            None => None,
                                            Some((ms, e)) => Some((seq![(key, v)] + ms, e)),
                                        }
                                    } else {
                                        None
                                    }
                                } else if q < s.len() && s[q] == '}' {
                                    Some((seq![(key, v)], q + 1))
                                } else {
                                    None
                                }
                            },
                        }
                    } else {
                        None
                    }
                } else {
                    None
                }
            },
        }
    }
}

/// Whether `c` is JSON insignificant whitespace.
fn is_ws_exec(c: char) -> (r: bool)
    ensures
        r == is_ws(c),
{
    c == ' ' || c == '\t' || c == '\n' || c == '\r'
}

/// Whether `c` is a decimal digit.
fn is_digit_exec(c: char) -> (r: bool)
    ensures
        r == crate::text::is_digit(c),
{
    '0' <= c && c <= '9'
}

/// Whether `c` is a hexadecimal digit.
fn is_hex_exec(c: char) -> (r: bool)
    ensures
        r == is_hex(c),
{
    ('0' <= c && c <= '9') || ('a' <= c && c <= 'f') || ('A' <= c && c <= 'F')
}

/// The position of the first non-whitespace character at or after `i`.
fn ws_end(s: &Vec<char>, i: usize) -> (r: usize)
    requires
        i <= s@.len(),
    ensures
        r as int == sp_ws(s@, i as int),
        i <= r <= s@.len(),
{
    let mut cur = i;
    while cur < s.len() && is_ws_exec(s[cur])
        invariant
            i <= cur <= s@.len(),
            sp_ws(s@, i as int) == sp_ws(s@, cur as int),
        decreases s@.len() - cur,
    {
        cur = cur + 1;
    }
    cur
}

/// The end of the run of decimal digits starting at `i`.
fn scan_digits(s: &Vec<char>, i: usize) -> (r: usize)
    requires
        i <= s@.len(),
    ensures
        r as int == digits_end(s@, i as int),
        i <= r <= s@.len(),
{
    let mut cur = i;
    while cur < s.len() && is_digit_exec(s[cur])
        invariant
            i <= cur <= s@.len(),
            digits_end(s@, i as int) == digits_end(s@, cur as int),
        decreases s@.len() - cur,
    {
        cur = cur + 1;
    }
    cur
}

/// The value of a hexadecimal digit.
fn hex_val_exec(c: char) -> (r: u32)
    requires
        is_hex(c),
    ensures
        r as nat == hex_val(c),
        r < 16,
{
    let u = c as u32;
    if u >= 97 {
        u - 87
    } else if u >= 65 {
        u - 55
    } else {
        u - 48
    }
}

/// The value of the four hexadecimal digits at `i`.
fn hex4_exec(s: &Vec<char>, i: usize) -> (r: u32)
    requires
        i + 3 < s@.len(),
        is_hex(s@[i as int]),
        is_hex(s@[i as int + 1]),
        is_hex(s@[i as int + 2]),
        is_hex(s@[i as int + 3]),
    ensures
        r as nat == hex4(s@, i as int),
        r <= 0xFFFF,
{
    let n = s.len();
    assert(i + 3 < n);
    let d0 = hex_val_exec(s[i]);
    let d1 = hex_val_exec(s[i + 1]);
    let d2 = hex_val_exec(s[i + 2]);
    let d3 = hex_val_exec(s[i + 3]);
    d0 * 0x1000 + d1 * 0x100 + d2 * 0x10 + d3
}

/// The character named by a single-character escape, if it is one.
fn esc_char_exec(c: char) -> (r: Option<char>)
    ensures
        r == esc_char(c),
{
    if c == '"' {
        Some('"')
    } else if c == '\\' {
        Some('\\')
    } else if c == '/' {
        Some('/')
    } else if c == 'b' {
        Some('\u{8}')
    } else if c == 'f' {
        Some('\u{c}')
    } else if c == 'n' {
        Some('\n')
    } else if c == 'r' {
        Some('\r')
    } else if c == 't' {
        Some('\t')
    } else {
        None
    }
}

/// Parse the body of a JSON string: `i` points just after the opening quote.
fn parse_string_body(s: &Vec<char>, i: usize) -> (r: Option<(Vec<char>, usize)>)
    requires
        i <= s@.len(),
    ensures
        match r {
            Some(p) => sp_string(s@, i as int) == Some((p.0@, p.1 as int)) && i < p.1 <= s@.len(),
            None => sp_string(s@, i as int) is None,
        },
    decreases s@.len() - i,
{
    if i >= s.len() {
        return None;
    }
    let c = s[i];
    if c == '"' {
        let empty: Vec<char> = Vec::new();
        assert(empty@ =~= Seq::<char>::empty());
        return Some((empty, i + 1));
    }
    if c == '\\' {
        if s.len() - i <= 1 {
            return None;
        }
        let e = s[i + 1];
        if e == 'u' {
            if s.len() - i <= 5 {
                return None;
            }
            if !(is_hex_exec(s[i + 2]) && is_hex_exec(s[i + 3]) && is_hex_exec(s[i + 4])
                && is_hex_exec(s[i + 5])) {
                return None;
            }
            let v = hex4_exec(s, i + 2);
            if 0xD800 <= v && v <= 0xDBFF {
                if s.len() - i <= 11 {
                    return None;
                }
                if !(s[i + 6] == '\\' && s[i + 7] == 'u' && is_hex_exec(s[i + 8]) && is_hex_exec(
                    s[i + 9],
                ) && is_hex_exec(s[i + 10]) && is_hex_exec(s[i + 11])) {
                    return None;
                }
                let w = hex4_exec(s, i + 8);
                if 0xDC00 <= w && w <= 0xDFFF {
                    let cp: u32 = 0x10000 + (v - 0xD800) * 0x400 + (w - 0xDC00);
                    match crate::text::char_of_u32(cp) {
                        Some(ch) => match parse_string_body(s, i + 12) {
                            Some((mut cs, j)) => {
                                let ghost tail = cs@;
                                cs.insert(0, ch);
                                assert(cs@ =~= seq![ch] + tail);
                                Some((cs, j))
                            },
                            None => None,
                        },
                        None => unreached(),
                    }
                } else {
                    None
                }
            } else if 0xDC00 <= v && v <= 0xDFFF {
                None
            } else {
                match crate::text::char_of_u32(v) {
                    Some(ch) => match parse_string_body(s, i + 6) {
                        Some((mut cs, j)) => {
                            let ghost tail = cs@;
                            cs.insert(0, ch);
                            assert(cs@ =~= seq![ch] + tail);
                            Some((cs, j))
                        },
                        None => None,
                    },
                    None => unreached(),
                }
            }
        } else {
            match esc_char_exec(e) {
                Some(c2) => match parse_string_body(s, i + 2) {
                    Some((mut cs, j)) => {
                        let ghost tail = cs@;
                        cs.insert(0, c2);
                        assert(cs@ =~= seq![c2] + tail);
                        Some((cs, j))
                    },
                    None => None,
                },
                None => None,
            }
        }
    } else if (c as u32) < 0x20 {
        None
    } else {
        match parse_string_body(s, i + 1) {
            Some((mut cs, j)) => {
                let ghost tail = cs@;
                cs.insert(0, c);
                assert(cs@ =~= seq![c] + tail);
                Some((cs, j))
            },
            None => None,
        }
    }
}

/// Parse a JSON number starting at `i`.
fn parse_number(s: &Vec<char>, i: usize) -> (r: Option<(Json, usize)>)
    requires
        i < s@.len(),
    ensures
        match r {
            Some(p) => match p.0 {
                Json::Num(t) => sp_number(s@, i as int) == Some((t@, p.1 as int)) && i < p.1
                    <= s@.len(),
                _ => false,
            },
            None => sp_number(s@, i as int) is None,
        },
{
    let n = s.len();
    assert(i < n);
    let p = if s[i] == '-' {
        i + 1
    } else {
        i
    };
    if !(p < s.len() && is_digit_exec(s[p])) {
        return None;
    }
    let ie = if s[p] == '0' {
        p + 1
    } else {
        // The first digit is already known; the run continues from `p + 1`.
        assert(digits_end(s@, p as int) == digits_end(s@, p + 1));
        scan_digits(s, p + 1)
    };
    let fe_opt: Option<usize> = if ie < s.len() && s[ie] == '.' {
        let de = scan_digits(s, ie + 1);
        if de > ie + 1 {
            Some(de)
        } else {
            None
        }
    } else {
        Some(ie)
    };
    match fe_opt {
        None => None,
        Some(fe) => {
            let e_opt: Option<usize> = if fe < s.len() && (s[fe] == 'e' || s[fe] == 'E') {
                let q = if fe + 1 < s.len() && (s[fe + 1] == '+' || s[fe + 1] == '-') {
                    fe + 2
                } else {
                    fe + 1
                };
                let de = scan_digits(s, q);
                if de > q {
                    Some(de)
                } else {
                    None
                }
            } else {
                Some(fe)
            };
            match e_opt {
                None => None,
                Some(e) => {
                    let mut tv: Vec<char> = Vec::new();
                    let mut x = i;
                    while x < e
                        invariant
                            i <= x <= e <= s@.len(),
                            tv@ == s@.subrange(i as int, x as int),
                        decreases e - x,
                    {
                        tv.push(s[x]);
                        assert(tv@ =~= s@.subrange(i as int, x + 1));
                        x = x + 1;
                    }
                    let t = crate::text::string_from_chars(&tv);
                    Some((Json::Num(t), e))
                },
            }
        },
    }
}

/// Parse a JSON value starting exactly at `i`.
fn parse_value(s: &Vec<char>, i: usize) -> (r: Option<(Json, usize)>)
    requires
        i <= s@.len(),
    ensures
        match r {
            Some(p) => sp_value(s@, i as int) == Some((p.0.model(), p.1 as int)) && i < p.1
                <= s@.len(),
            None => sp_value(s@, i as int) is None,
        },
    decreases s@.len() - i, 2int,
{
    if i >= s.len() {
        return None;
    }
    let c = s[i];
    if c == 'n' {
        if s.len() - i > 3 && s[i + 1] == 'u' && s[i + 2] == 'l' && s[i + 3] == 'l' {
            Some((Json::Null, i + 4))
        } else {
            None
        }
    } else if c == 't' {
        if s.len() - i > 3 && s[i + 1] == 'r' && s[i + 2] == 'u' && s[i + 3] == 'e' {
            Some((Json::Bool(true), i + 4))
        } else {
            None
        }
    } else if c == 'f' {
        if s.len() - i > 4 && s[i + 1] == 'a' && s[i + 2] == 'l' && s[i + 3] == 's' && s[i + 4]
            == 'e' {
            Some((Json::Bool(false), i + 5))
        } else {
            None
        }
    } else if c == '"' {
        match parse_string_body(s, i + 1) {
            None => None,
            Some((cs, j)) => Some((Json::Str(crate::text::string_from_chars(&cs)), j)),
        }
    } else if c == '[' {
        let k = ws_end(s, i + 1);
        if k < s.len() {
            if s[k] == ']' {
                let items: Vec<Json> = Vec::new();
                let v = Json::Arr(items);
                assert(v.model() matches JVal::Arr(m) && m =~= Seq::<JVal>::empty());
                Some((v, k + 1))
            } else {
                match parse_items(s, k) {
                    None => None,
                    Some((vs, j)) => {
                        let v = Json::Arr(vs);
                        assert(v.model() matches JVal::Arr(m) && m =~= models_of(vs@));
                        Some((v, j))
                    },
                }
            }
        } else {
            None
        }
    } else if c == '{' {
        let k = ws_end(s, i + 1);
        if k < s.len() {
            if s[k] == '}' {
                let members: Vec<(String, Json)> = Vec::new();
                let v = Json::Obj(members);
                assert(v.model() matches JVal::Obj(m) && m =~= Seq::<(Seq<char>, JVal)>::empty());
                Some((v, k + 1))
            } else {
                match parse_members(s, k) {
                    None => None,
                    Some((ms, j)) => {
                        let v = Json::Obj(ms);
                        assert(v.model() matches JVal::Obj(m) && m =~= member_models_of(ms@));
                        Some((v, j))
                    },
                }
            }
        } else {
            None
        }
    } else if c == '-' || is_digit_exec(c) {
        parse_number(s, i)
    } else {
        None
    }
}

/// Parse one or more comma-separated array elements starting at `i`.
fn parse_items(s: &Vec<char>, i: usize) -> (r: Option<(Vec<Json>, usize)>)
    requires
        i <= s@.len(),
    ensures
        match r {
            Some(p) => sp_items(s@, i as int) == Some((models_of(p.0@), p.1 as int)) && i < p.1
                <= s@.len(),
            None => sp_items(s@, i as int) is None,
        },
    decreases s@.len() - i, 3int,
{
    if i >= s.len() {
        return None;
    }
    match parse_value(s, i) {
        None => None,
        Some((v, j0)) => {
            let k = ws_end(s, j0);
            if k < s.len() && s[k] == ',' {
                let m = ws_end(s, k + 1);
                if m < s.len() {
                    match parse_items(s, m) {
                        None => None,
                        Some((mut vs, e)) => {
                            let ghost tail = vs@;
                            vs.insert(0, v);
                            assert(models_of(vs@) =~= seq![v.model()] + models_of(tail));
                            Some((vs, e))
                        },
                    }
                } else {
                    None
                }
            } else if k < s.len() && s[k] == ']' {
                let mut vs: Vec<Json> = Vec::new();
                vs.push(v);
                assert(models_of(vs@) =~= seq![v.model()]);
                Some((vs, k + 1))
            } else {
                None
            }
        },
    }
}

/// Parse one or more `"key": value` object members starting at `i`.
fn parse_members(s: &Vec<char>, i: usize) -> (r: Option<(Vec<(String, Json)>, usize)>)
    requires
        i <= s@.len(),
    ensures
        match r {
            Some(p) => sp_members(s@, i as int) == Some((member_models_of(p.0@), p.1 as int)) && i
                < p.1 <= s@.len(),
            None => sp_members(s@, i as int) is None,
        },
    decreases s@.len() - i, 3int,
{
    if i >= s.len() {
        return None;
    }
    if s[i] != '"' {
        return None;
    }
    match parse_string_body(s, i + 1) {
        None => None,
        Some((keyv, j0)) => {
            let k = ws_end(s, j0);
            if k < s.len() && s[k] == ':' {
                let m = ws_end(s, k + 1);
                if m < s.len() {
                    match parse_value(s, m) {
                        None => None,
                        Some((v, j2)) => {
                            let q = ws_end(s, j2);
                            if q < s.len() && s[q] == ',' {
                                let m2 = ws_end(s, q + 1);
                                if m2 < s.len() {
                                    match parse_members(s, m2) {
                                        None => None,
                                        Some((mut ms, e)) => {
                                            let key = crate::text::string_from_chars(&keyv);
                                            let ghost tail = ms@;
                                            let ghost keyview = keyv@;
                                            ms.insert(0, (key, v));
                                            assert(member_models_of(ms@) =~= seq![
                                                (keyview, v.model()),
                                            ] + member_models_of(tail));
                                            Some((ms, e))
                                        },
                                    }
                                } else {
                                    None
                                }
                            } else if q < s.len() && s[q] == '}' {
                                let key = crate::text::string_from_chars(&keyv);
                                let mut ms: Vec<(String, Json)> = Vec::new();
                                ms.push((key, v));
                                assert(member_models_of(ms@) =~= seq![(keyv@, v.model())]);
                                Some((ms, q + 1))
                            } else {
                                None
                            }
                        },
                    }
                } else {
                    None
                }
            } else {
                None
            }
        },
    }
}

/// Parse a JSON document from text.
///
/// Returns the parsed value exactly when the text is a JSON document:
/// optional whitespace, one value, optional whitespace, and nothing else.
pub fn parse_json(s: &str) -> (r: Option<Json>)
    ensures
        match r {
            Some(v) => parse_json_spec(s@) == Some(v.model()),
            None => parse_json_spec(s@) is None,
        },
{
    let cs = crate::text::chars_vec(s);
    let i = ws_end(&cs, 0);
    match parse_value(&cs, i) {
        None => None,
        Some((v, j)) => {
            let k = ws_end(&cs, j);
            if k == cs.len() {
                Some(v)
            } else {
                None
            }
        },
    }
}

/// Find the first member of `members` named `key`, if any.
pub fn obj_lookup<'a>(members: &'a Vec<(String, Json)>, key: &str) -> (r: Option<&'a Json>)
    ensures
        match r {
            Some(v) => jobj_get(member_models_of(members@), key@) == Some(v.model()),
            None => jobj_get(member_models_of(members@), key@) is None,
        },
{
    let ghost mm = member_models_of(members@);
    assert(mm.skip(0) =~= mm);
    let mut i: usize = 0;
    while i < members.len()
        invariant
            i <= members@.len(),
            mm == member_models_of(members@),
            mm.len() == members@.len(),
            jobj_get(mm, key@) == jobj_get(mm.skip(i as int), key@),
        decreases members@.len() - i,
    {
        if crate::text::eq_str(members[i].0.as_str(), key) {
            assert(mm.skip(i as int)[0] == mm[i as int]);
            return Some(&members[i].1);
        }
        proof {
            assert(mm.skip(i as int)[0] == mm[i as int]);
            assert(mm.skip(i as int).drop_first() =~= mm.skip(i + 1));
        }
        i = i + 1;
    }
    assert(mm.skip(members@.len() as int) =~= Seq::<(Seq<char>, JVal)>::empty());
    None
}

/// Parse a whole JSON document: optional whitespace, one value, optional
/// whitespace, and nothing else.
pub open spec fn parse_json_spec(s: Seq<char>) -> Option<JVal> {
    let i = at_least(sp_ws(s, 0), 0);
    match sp_value(s, i) {
        None => None,
        Some((v, j)) => {
            let k = at_least(sp_ws(s, j), j);
            if k == s.len() {
                Some(v)
            } else {
                None
            }
        },
    }
}

} // verus!
