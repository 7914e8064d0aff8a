//! Shape helpers over parsed JSON values: typed access to object members.
//!
//! Response decoding distinguishes, for each field, three outcomes: the field
//! is absent (or JSON `null`, which the wire format treats the same for
//! optional fields), present with the expected type, or present with a wrong
//! type. The helpers here give each outcome an exact specification.

use vstd::prelude::*;
use crate::json::{JVal, Json, jobj_get, member_models_of, models_of, obj_lookup};
use crate::text::{all_digits, dec_val, eq_str, is_int_token, int_token_val, parse_u64_digits,
    parse_i32_token};

verus! {

/// The view of an optional owned string.
pub open spec fn opt_str_view(o: Option<String>) -> Option<Seq<char>> {
    match o {
        Some(s) => Some(s@),
        None => None,
    }
}

/// A required string member: present with a string value.
pub open spec fn req_str_ok(m: Seq<(Seq<char>, JVal)>, key: Seq<char>) -> bool {
    match jobj_get(m, key) {
        Some(JVal::Str(_)) => true,
        _ => false,
    }
}

/// The value of a required string member.
pub open spec fn req_str_val(m: Seq<(Seq<char>, JVal)>, key: Seq<char>) -> Seq<char> {
    match jobj_get(m, key) {
        Some(JVal::Str(s)) => s,
        _ => Seq::empty(),
    }
}

/// A required number member: present with a number value.
pub open spec fn req_num_ok(m: Seq<(Seq<char>, JVal)>, key: Seq<char>) -> bool {
    match jobj_get(m, key) {
        Some(JVal::Num(_)) => true,
        _ => false,
    }
}

/// The verbatim decimal text of a required number member.
pub open spec fn req_num_val(m: Seq<(Seq<char>, JVal)>, key: Seq<char>) -> Seq<char> {
    match jobj_get(m, key) {
        Some(JVal::Num(t)) => t,
        _ => Seq::empty(),
    }
}

/// A required unsigned integer member: a number token of plain digits whose
/// value fits in a `u64`.
pub open spec fn req_u64_ok(m: Seq<(Seq<char>, JVal)>, key: Seq<char>) -> bool {
    match jobj_get(m, key) {
        Some(JVal::Num(t)) => t.len() > 0 && all_digits(t) && dec_val(t) <= u64::MAX,
        _ => false,
    }
}

/// The value of a required unsigned integer member.
pub open spec fn req_u64_val(m: Seq<(Seq<char>, JVal)>, key: Seq<char>) -> nat {
    match jobj_get(m, key) {
        Some(JVal::Num(t)) => dec_val(t),
        _ => 0,
    }
}

/// A required signed integer member: an optionally negated digit token whose
/// value fits in an `i32`.
pub open spec fn req_i32_ok(m: Seq<(Seq<char>, JVal)>, key: Seq<char>) -> bool {
    match jobj_get(m, key) {
        Some(JVal::Num(t)) => is_int_token(t) && i32::MIN <= int_token_val(t) <= i32::MAX,
        _ => false,
    }
}

/// The value of a required signed integer member.
pub open spec fn req_i32_val(m: Seq<(Seq<char>, JVal)>, key: Seq<char>) -> int {
    match jobj_get(m, key) {
        Some(JVal::Num(t)) => int_token_val(t),
        _ => 0,
    }
}

/// An optional string member: absent, `null`, or a string.
pub open spec fn opt_str_ok(m: Seq<(Seq<char>, JVal)>, key: Seq<char>) -> bool {
    match jobj_get(m, key) {
        None => true,
        Some(JVal::Null) => true,
        Some(JVal::Str(_)) => true,
        Some(_) => false,
    }
}

/// The value of an optional string member, when it carries one.
pub open spec fn opt_str_val(m: Seq<(Seq<char>, JVal)>, key: Seq<char>) -> Option<Seq<char>> {
    match jobj_get(m, key) {
        Some(JVal::Str(s)) => Some(s),
        _ => None,
    }
}

/// An optional number member: absent, `null`, or a number.
pub open spec fn opt_num_ok(m: Seq<(Seq<char>, JVal)>, key: Seq<char>) -> bool {
    match jobj_get(m, key) {
        None => true,
        Some(JVal::Null) => true,
        Some(JVal::Num(_)) => true,
        Some(_) => false,
    }
}

/// The verbatim text of an optional number member, when it carries one.
pub open spec fn opt_num_val(m: Seq<(Seq<char>, JVal)>, key: Seq<char>) -> Option<Seq<char>> {
    match jobj_get(m, key) {
        Some(JVal::Num(t)) => Some(t),
        _ => None,
    }
}

/// An optional unsigned integer member: absent, `null`, or a digit token
/// whose value fits in a `u64`.
pub open spec fn opt_u64_ok(m: Seq<(Seq<char>, JVal)>, key: Seq<char>) -> bool {
    match jobj_get(m, key) {
        None => true,
        Some(JVal::Null) => true,
        Some(JVal::Num(t)) => t.len() > 0 && all_digits(t) && dec_val(t) <= u64::MAX,
        Some(_) => false,
    }
}

/// The value of an optional unsigned integer member, when it carries one.
pub open spec fn opt_u64_val(m: Seq<(Seq<char>, JVal)>, key: Seq<char>) -> Option<nat> {
    match jobj_get(m, key) {
        Some(JVal::Num(t)) => Some(dec_val(t)),
        _ => None,
    }
}

/// Read a required string member; `None` when it is missing or not a string.
pub fn get_req_str(members: &Vec<(String, Json)>, key: &str) -> (r: Option<String>)
    ensures
        match r {
            Some(s) => req_str_ok(member_models_of(members@), key@) && s@ == req_str_val(
                member_models_of(members@),
                key@,
            ),
            None => !req_str_ok(member_models_of(members@), key@),
        },
{
    match obj_lookup(members, key) {
        Some(Json::Str(s)) => Some(s.clone()),
        _ => None,
    }
}

/// Read a required number member's verbatim text; `None` when it is missing
/// or not a number.
pub fn get_req_num(members: &Vec<(String, Json)>, key: &str) -> (r: Option<String>)
    ensures
        match r {
            Some(t) => req_num_ok(member_models_of(members@), key@) && t@ == req_num_val(
                member_models_of(members@),
                key@,
            ),
            None => !req_num_ok(member_models_of(members@), key@),
        },
{
    match obj_lookup(members, key) {
        Some(Json::Num(t)) => Some(t.clone()),
        _ => None,
    }
}

/// Read a required unsigned integer member; `None` when it is missing, not a
/// number, not a plain digit token, or out of range.
pub fn get_req_u64(members: &Vec<(String, Json)>, key: &str) -> (r: Option<u64>)
    ensures
        match r {
            Some(v) => req_u64_ok(member_models_of(members@), key@) && v as nat == req_u64_val(
                member_models_of(members@),
                key@,
            ),
            None => !req_u64_ok(member_models_of(members@), key@),
        },
{
    match obj_lookup(members, key) {
        Some(Json::Num(t)) => parse_u64_digits(t.as_str()),
        _ => None,
    }
}

/// Read a required signed integer member; `None` when it is missing, not a
/// number, not an integer token, or out of range.
pub fn get_req_i32(members: &Vec<(String, Json)>, key: &str) -> (r: Option<i32>)
    ensures
        match r {
            Some(v) => req_i32_ok(member_models_of(members@), key@) && v as int == req_i32_val(
                member_models_of(members@),
                key@,
            ),
            None => !req_i32_ok(member_models_of(members@), key@),
        },
{
    match obj_lookup(members, key) {
        Some(Json::Num(t)) => parse_i32_token(t.as_str()),
        _ => None,
    }
}

/// Read an optional string member. `Err` means present with a wrong type.
pub fn get_opt_str(members: &Vec<(String, Json)>, key: &str) -> (r: Result<Option<String>, ()>)
    ensures
        match r {
            Ok(v) => opt_str_ok(member_models_of(members@), key@) && opt_str_view(v) == opt_str_val(
                member_models_of(members@),
                key@,
            ),
            Err(_) => !opt_str_ok(member_models_of(members@), key@),
        },
{
    match obj_lookup(members, key) {
        None => Ok(None),
        Some(Json::Null) => Ok(None),
        Some(Json::Str(s)) => Ok(Some(s.clone())),
        Some(_) => Err(()),
    }
}

/// Read an optional number member's verbatim text. `Err` means present with
/// a wrong type.
pub fn get_opt_num(members: &Vec<(String, Json)>, key: &str) -> (r: Result<Option<String>, ()>)
    ensures
        match r {
            Ok(v) => opt_num_ok(member_models_of(members@), key@) && opt_str_view(v) == opt_num_val(
                member_models_of(members@),
                key@,
            ),
            Err(_) => !opt_num_ok(member_models_of(members@), key@),
        },
{
    match obj_lookup(members, key) {
        None => Ok(None),
        Some(Json::Null) => Ok(None),
        Some(Json::Num(t)) => Ok(Some(t.clone())),
        Some(_) => Err(()),
    }
}

/// Read an optional unsigned integer member. `Err` means present with a
/// wrong type or out of range.
pub fn get_opt_u64(members: &Vec<(String, Json)>, key: &str) -> (r: Result<Option<u64>, ()>)
    ensures
        match r {
            Ok(v) => opt_u64_ok(member_models_of(members@), key@) && (match v {
                Some(x) => opt_u64_val(member_models_of(members@), key@) == Some(x as nat),
                None => opt_u64_val(member_models_of(members@), key@) is None,
            }),
            Err(_) => !opt_u64_ok(member_models_of(members@), key@),
        },
{
    match obj_lookup(members, key) {
        None => Ok(None),
        Some(Json::Null) => Ok(None),
        Some(Json::Num(t)) => match parse_u64_digits(t.as_str()) {
            Some(v) => Ok(Some(v)),
            None => Err(()),
        },
        Some(_) => Err(()),
    }
}

/// Every element of `vs` from `i` on is a string.
pub open spec fn str_arr_ok_from(vs: Seq<JVal>, i: int) -> bool
    decreases vs.len() - i,
{
    if i < 0 || i >= vs.len() {
        true
    } else {
        (vs[i] is Str) && str_arr_ok_from(vs, i + 1)
    }
}

/// The string values of `vs` from `i` on.
pub open spec fn str_arr_vals_from(vs: Seq<JVal>, i: int) -> Seq<Seq<char>>
    decreases vs.len() - i,
{
    if i < 0 || i >= vs.len() {
        Seq::empty()
    } else {
        seq![
            match vs[i] {
                JVal::Str(s) => s,
                _ => Seq::empty(),
            },
        ] + str_arr_vals_from(vs, i + 1)
    }
}

/// Every element of `vs` from `i` on is a number or `null`.
pub open spec fn nn_arr_ok_from(vs: Seq<JVal>, i: int) -> bool
    decreases vs.len() - i,
{
    if i < 0 || i >= vs.len() {
        true
    } else {
        (vs[i] is Num || vs[i] is Null) && nn_arr_ok_from(vs, i + 1)
    }
}

/// The samples of `vs` from `i` on: `None` marks a JSON `null`, a missing
/// reading; a number's verbatim text otherwise.
pub open spec fn nn_arr_vals_from(vs: Seq<JVal>, i: int) -> Seq<Option<Seq<char>>>
    decreases vs.len() - i,
{
    if i < 0 || i >= vs.len() {
        Seq::empty()
    } else {
        seq![
            match vs[i] {
                JVal::Num(t) => Some(t),
                _ => None,
            },
        ] + nn_arr_vals_from(vs, i + 1)
    }
}

/// Every member of `m` from `i` on carries a string value.
pub open spec fn str_map_ok_from(m: Seq<(Seq<char>, JVal)>, i: int) -> bool
    decreases m.len() - i,
{
    if i < 0 || i >= m.len() {
        true
    } else {
        (m[i].1 is Str) && str_map_ok_from(m, i + 1)
    }
}

/// The members of `m` from `i` on, as string pairs, in order.
pub open spec fn str_map_vals_from(m: Seq<(Seq<char>, JVal)>, i: int) -> Seq<(Seq<char>, Seq<char>)>
    decreases m.len() - i,
{
    if i < 0 || i >= m.len() {
        Seq::empty()
    } else {
        seq![
            (
                m[i].0,
                match m[i].1 {
                    JVal::Str(s) => s,
                    _ => Seq::empty(),
                },
            ),
        ] + str_map_vals_from(m, i + 1)
    }
}

/// The models of a vector of JSON values are as many as the values.
pub proof fn lemma_models_len(items: Seq<Json>)
    ensures
        models_of(items).len() == items.len(),
{
}

/// There are as many samples as elements from `i` on.
pub proof fn lemma_nn_vals_len(vs: Seq<JVal>, i: int)
    requires
        0 <= i <= vs.len(),
    ensures
        nn_arr_vals_from(vs, i).len() == vs.len() - i,
    decreases vs.len() - i,
{
    if i < vs.len() {
        lemma_nn_vals_len(vs, i + 1);
    }
}

/// There are as many string values as elements from `i` on.
pub proof fn lemma_str_vals_len(vs: Seq<JVal>, i: int)
    requires
        0 <= i <= vs.len(),
    ensures
        str_arr_vals_from(vs, i).len() == vs.len() - i,
    decreases vs.len() - i,
{
    if i < vs.len() {
        lemma_str_vals_len(vs, i + 1);
    }
}

/// An optional array-of-strings member: absent, `null`, or an array of
/// strings.
pub open spec fn opt_str_arr_ok(m: Seq<(Seq<char>, JVal)>, key: Seq<char>) -> bool {
    match jobj_get(m, key) {
        None => true,
        Some(JVal::Null) => true,
        Some(JVal::Arr(vs)) => str_arr_ok_from(vs, 0),
        Some(_) => false,
    }
}

/// The value of an optional array-of-strings member, when it carries one.
pub open spec fn opt_str_arr_val(m: Seq<(Seq<char>, JVal)>, key: Seq<char>) -> Option<
    Seq<Seq<char>>,
> {
    match jobj_get(m, key) {
        Some(JVal::Arr(vs)) => Some(str_arr_vals_from(vs, 0)),
        _ => None,
    }
}

/// Collect the elements of `items` from `i` on as strings; `None` when one
/// is not a string.
pub fn collect_str_arr(items: &Vec<Json>, i: usize) -> (r: Option<Vec<String>>)
    requires
        i <= items@.len(),
    ensures
        match r {
            Some(out) => str_arr_ok_from(models_of(items@), i as int) && out@.map_values(
                |s: String| s@,
            ) == str_arr_vals_from(models_of(items@), i as int),
            None => !str_arr_ok_from(models_of(items@), i as int),
        },
    decreases items@.len() - i,
{
    if i >= items.len() {
        let out: Vec<String> = Vec::new();
        assert(out@.map_values(|s: String| s@) =~= Seq::<Seq<char>>::empty());
        return Some(out);
    }
    match &items[i] {
        Json::Str(s) => match collect_str_arr(items, i + 1) {
            Some(mut out) => {
                let ghost tail = out@;
                out.insert(0, s.clone());
                assert(out@.map_values(|s: String| s@) =~= seq![items@[i as int]->Str_0@]
                    + tail.map_values(|s: String| s@));
                Some(out)
            },
            None => None,
        },
        _ => None,
    }
}

/// Collect the elements of `items` from `i` on as number-or-null samples;
/// `None` when one is neither.
pub fn collect_nn_arr(items: &Vec<Json>, i: usize) -> (r: Option<Vec<Option<String>>>)
    requires
        i <= items@.len(),
    ensures
        match r {
            Some(out) => nn_arr_ok_from(models_of(items@), i as int) && out@.map_values(
                |o: Option<String>| opt_str_view(o),
            ) == nn_arr_vals_from(models_of(items@), i as int),
            None => !nn_arr_ok_from(models_of(items@), i as int),
        },
    decreases items@.len() - i,
{
    if i >= items.len() {
        let out: Vec<Option<String>> = Vec::new();
        assert(out@.map_values(|o: Option<String>| opt_str_view(o)) =~= Seq::<
            Option<Seq<char>>,
        >::empty());
        return Some(out);
    }
    let head: Option<String> = match &items[i] {
        Json::Num(t) => Some(t.clone()),
        Json::Null => None,
        _ => {
            return None;
        },
    };
    match collect_nn_arr(items, i + 1) {
        Some(mut out) => {
            let ghost tail = out@;
            let ghost h = opt_str_view(head);
            out.insert(0, head);
            assert(out@.map_values(|o: Option<String>| opt_str_view(o)) =~= seq![h]
                + tail.map_values(|o: Option<String>| opt_str_view(o)));
            Some(out)
        },
        None => None,
    }
}

/// Collect the members of `members` from `i` on as string pairs; `None`
/// when one value is not a string.
pub fn collect_str_map(members: &Vec<(String, Json)>, i: usize) -> (r: Option<Vec<(String, String)>>)
    requires
        i <= members@.len(),
    ensures
        match r {
            Some(out) => str_map_ok_from(member_models_of(members@), i as int) && out@.map_values(
                |p: (String, String)| (p.0@, p.1@),
            ) == str_map_vals_from(member_models_of(members@), i as int),
            None => !str_map_ok_from(member_models_of(members@), i as int),
        },
    decreases members@.len() - i,
{
    if i >= members.len() {
        let out: Vec<(String, String)> = Vec::new();
        assert(out@.map_values(|p: (String, String)| (p.0@, p.1@)) =~= Seq::<
            (Seq<char>, Seq<char>),
        >::empty());
        return Some(out);
    }
    match &members[i].1 {
        Json::Str(s) => match collect_str_map(members, i + 1) {
            Some(mut out) => {
                let ghost tail = out@;
                let pair = (members[i].0.clone(), s.clone());
                let ghost pv = (pair.0@, pair.1@);
                out.insert(0, pair);
                assert(out@.map_values(|p: (String, String)| (p.0@, p.1@)) =~= seq![pv]
                    + tail.map_values(|p: (String, String)| (p.0@, p.1@)));
                Some(out)
            },
            None => None,
        },
        _ => None,
    }
}

/// Read an optional array-of-strings member. `Err` means present with a
/// wrong type.
pub fn get_opt_str_arr(members: &Vec<(String, Json)>, key: &str) -> (r: Result<
    Option<Vec<String>>,
    (),
>)
    ensures
        match r {
            Ok(v) => opt_str_arr_ok(member_models_of(members@), key@) && (match v {
                Some(out) => opt_str_arr_val(member_models_of(members@), key@) == Some(
                    out@.map_values(|s: String| s@),
                ),
                None => opt_str_arr_val(member_models_of(members@), key@) is None,
            }),
            Err(_) => !opt_str_arr_ok(member_models_of(members@), key@),
        },
{
    match obj_lookup(members, key) {
        None => Ok(None),
        Some(Json::Null) => Ok(None),
        Some(Json::Arr(items)) => {
            assert(jobj_get(member_models_of(members@), key@) matches Some(jv) && jv matches
                JVal::Arr(vs) && vs =~= models_of(items@));
            match collect_str_arr(items, 0) {
                Some(out) => Ok(Some(out)),
                None => Err(()),
            }
        },
        Some(_) => Err(()),
    }
}

} // verus!
