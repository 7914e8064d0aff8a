//! Geocoding: a name-based location search request and its response.
//!
//! A request holds the required search text and three optional fields; it is
//! encoded as ordered query parameters, where an unset optional field is
//! omitted entirely. A response is an ordered list of location records in
//! the server's relevance order; an empty list is reported as the
//! distinguished `NoResults` error, not as an empty success.

use vstd::prelude::*;
use crate::error::{OpenMeteoError, raw_reason, status_success};
use crate::json::{JVal, Json, jobj_get, parse_json, parse_json_spec};
use crate::query::{build_url, pairs_view, url_with_params};
use crate::shape::{get_opt_str, get_opt_str_arr, get_opt_u64, get_req_num, get_req_str,
    get_req_u64, opt_str_arr_ok, opt_str_arr_val, opt_str_ok, opt_str_val, opt_str_view,
    opt_u64_ok, opt_u64_val, req_num_ok, req_num_val, req_str_ok, req_str_val, req_u64_ok,
    req_u64_val};
use crate::text::{dec_digits, u8_to_string};

verus! {

/// Request for a geocoding search.
#[derive(Debug, Clone, PartialEq, Eq)]
pub struct GeocodingRequest {
    pub name: String,
    pub count: Option<u8>,
    pub language: Option<String>,
    pub format: Option<String>,
}

impl GeocodingRequest {
    /// Create a new geocoding request for the given location name. Every
    /// optional field starts unset.
    pub fn new(name: String) -> (r: Self)
        ensures
            r.name == name,
            r.count is None,
            r.language is None,
            r.format is None,
    {
        GeocodingRequest { name, count: None, language: None, format: None }
    }

    /// Set the maximum number of results.
    pub fn count(self, count: u8) -> (r: Self)
        ensures
            r.count == Some(count),
            r.name == self.name,
            r.language == self.language,
            r.format == self.format,
    {
        GeocodingRequest { count: Some(count), ..self }
    }

    /// Set the language for results (e.g. "en", "de", "fr").
    pub fn language(self, language: String) -> (r: Self)
        ensures
            r.language == Some(language),
            r.name == self.name,
            r.count == self.count,
            r.format == self.format,
    {
        GeocodingRequest { language: Some(language), ..self }
    }

    /// Set the response format.
    pub fn format(self, format: String) -> (r: Self)
        ensures
            r.format == Some(format),
            r.name == self.name,
            r.count == self.count,
            r.language == self.language,
    {
        GeocodingRequest { format: Some(format), ..self }
    }
}

/// The ordered query parameters that encode a geocoding request: the
/// required name, then each optional field that is set; an unset optional
/// field is omitted entirely.
pub open spec fn geocoding_params(req: GeocodingRequest) -> Seq<(Seq<char>, Seq<char>)> {
    seq![("name"@, req.name@)] + (match req.count {
        Some(c) => seq![("count"@, dec_digits(c as nat))],
        None => Seq::empty(),
    }) + (match req.language {
        Some(l) => seq![("language"@, l@)],
        None => Seq::empty(),
    }) + (match req.format {
        Some(f) => seq![("format"@, f@)],
        None => Seq::empty(),
    })
}

impl GeocodingRequest {
    /// Encode this request as ordered query parameters.
    pub fn query_params(&self) -> (r: Vec<(String, String)>)
        ensures
            pairs_view(r@) == geocoding_params(*self),
    {
        let mut params: Vec<(String, String)> = Vec::new();
        params.push((String::from_str("name"), self.name.clone()));
        match &self.count {
            Some(c) => params.push((String::from_str("count"), u8_to_string(*c))),
            None => (),
        }
        match &self.language {
            Some(l) => params.push((String::from_str("language"), l.clone())),
            None => (),
        }
        match &self.format {
            Some(f) => params.push((String::from_str("format"), f.clone())),
            None => (),
        }
        assert(pairs_view(params@) =~= geocoding_params(*self));
        params
    }

    /// Build the full request URL for this request against `base`.
    ///
    /// Fails with `InvalidParameter` exactly when `base` is not a valid URL.
    pub fn url(&self, base: &str) -> (r: Result<String, OpenMeteoError>)
        ensures
            match r {
                Ok(u) => url_with_params(base@, geocoding_params(*self)) == Some(u@),
                Err(e) => e matches OpenMeteoError::InvalidParameter(_) && url_with_params(
                    base@,
                    geocoding_params(*self),
                ) is None,
            },
    {
        let params = self.query_params();
        build_url(base, &params)
    }
}

/// Helper for the omitted-key law: when `key` is not one of the keys that
/// this request encodes, no parameter carries it.
proof fn lemma_geocoding_key_absent(req: GeocodingRequest, key: Seq<char>)
    requires
        key != "name"@,
        key == "count"@ ==> req.count is None,
        key == "language"@ ==> req.language is None,
        key == "format"@ ==> req.format is None,
    ensures
        crate::query::no_key(geocoding_params(req), key),
{
    let n = seq![("name"@, req.name@)];
    assert(crate::query::no_key(n, key));
    let c = match req.count {
        Some(v) => seq![("count"@, dec_digits(v as nat))],
        None => Seq::<(Seq<char>, Seq<char>)>::empty(),
    };
    assert(crate::query::no_key(c, key));
    let l = match req.language {
        Some(v) => seq![("language"@, v@)],
        None => Seq::<(Seq<char>, Seq<char>)>::empty(),
    };
    assert(crate::query::no_key(l, key));
    let f = match req.format {
        Some(v) => seq![("format"@, v@)],
        None => Seq::<(Seq<char>, Seq<char>)>::empty(),
    };
    assert(crate::query::no_key(f, key));
    crate::query::lemma_no_key_concat(n, c, key);
    crate::query::lemma_no_key_concat(n + c, l, key);
    crate::query::lemma_no_key_concat(n + c + l, f, key);
}

/// An unset optional field leaves no trace in the encoded query
/// parameters: its key does not occur there at all.
pub proof fn lemma_unset_optional_omitted(req: GeocodingRequest)
    ensures
        req.count is None ==> crate::query::no_key(geocoding_params(req), "count"@),
        req.language is None ==> crate::query::no_key(geocoding_params(req), "language"@),
        req.format is None ==> crate::query::no_key(geocoding_params(req), "format"@),
{
    reveal_strlit("name");
    reveal_strlit("count");
    reveal_strlit("language");
    reveal_strlit("format");
    assert("name"@.len() == 4);
    assert("count"@.len() == 5);
    assert("language"@.len() == 8);
    assert("format"@.len() == 6);
    if req.count is None {
        lemma_geocoding_key_absent(req, "count"@);
    }
    if req.language is None {
        lemma_geocoding_key_absent(req, "language"@);
    }
    if req.format is None {
        lemma_geocoding_key_absent(req, "format"@);
    }
}

/// A geographic location record. Coordinates and elevation are kept in
/// their verbatim decimal text form. Every optional field means
/// absent-means-unknown, never absent-means-zero.
#[derive(Debug, Clone, PartialEq, Eq)]
pub struct Location {
    pub id: u64,
    pub name: String,
    pub latitude: String,
    pub longitude: String,
    pub elevation: Option<String>,
    pub timezone: Option<String>,
    pub country_code: Option<String>,
    pub country: Option<String>,
    pub admin1: Option<String>,
    pub admin2: Option<String>,
    pub admin3: Option<String>,
    pub admin4: Option<String>,
    pub population: Option<u64>,
    pub postcodes: Option<Vec<String>>,
}

/// Geocoding API response: the matching locations, in the server's
/// relevance order, never re-sorted.
#[derive(Debug, Clone, PartialEq, Eq)]
pub struct GeocodingResponse {
    pub results: Vec<Location>,
}

/// Whether `j` has the shape of a location record: an object with the four
/// required fields, and each optional field either absent, `null`, or of its
/// expected type. Unrecognized members are ignored.
pub open spec fn location_ok(j: JVal) -> bool {
    match j {
        JVal::Obj(m) => req_u64_ok(m, "id"@) && req_str_ok(m, "name"@) && req_num_ok(m, "latitude"@)
            && req_num_ok(m, "longitude"@) && crate::shape::opt_num_ok(m, "elevation"@)
            && opt_str_ok(m, "timezone"@) && opt_str_ok(m, "country_code"@) && opt_str_ok(
            m,
            "country"@,
        ) && opt_str_ok(m, "admin1"@) && opt_str_ok(m, "admin2"@) && opt_str_ok(m, "admin3"@)
            && opt_str_ok(m, "admin4"@) && opt_u64_ok(m, "population"@) && opt_str_arr_ok(
            m,
            "postcodes"@,
        ),
        _ => false,
    }
}

/// Whether `l` is exactly the location record that `j` describes.
pub open spec fn location_matches(l: Location, j: JVal) -> bool {
    match j {
        JVal::Obj(m) => l.id as nat == req_u64_val(m, "id"@) && l.name@ == req_str_val(m, "name"@)
            && l.latitude@ == req_num_val(m, "latitude"@) && l.longitude@ == req_num_val(
            m,
            "longitude"@,
        ) && opt_str_view(l.elevation) == crate::shape::opt_num_val(m, "elevation"@) && opt_str_view(
            l.timezone,
        ) == opt_str_val(m, "timezone"@) && opt_str_view(l.country_code) == opt_str_val(
            m,
            "country_code"@,
        ) && opt_str_view(l.country) == opt_str_val(m, "country"@) && opt_str_view(l.admin1)
            == opt_str_val(m, "admin1"@) && opt_str_view(l.admin2) == opt_str_val(m, "admin2"@)
            && opt_str_view(l.admin3) == opt_str_val(m, "admin3"@) && opt_str_view(l.admin4)
            == opt_str_val(m, "admin4"@) && (match l.population {
            Some(p) => opt_u64_val(m, "population"@) == Some(p as nat),
            None => opt_u64_val(m, "population"@) is None,
        }) && (match l.postcodes {
            Some(v) => opt_str_arr_val(m, "postcodes"@) == Some(v@.map_values(|s: String| s@)),
            None => opt_str_arr_val(m, "postcodes"@) is None,
        }),
        _ => false,
    }
}

/// Decode one location record.
pub fn decode_location(j: &Json) -> (r: Option<Location>)
    ensures
        match r {
            Some(l) => location_ok(j.model()) && location_matches(l, j.model()),
            None => !location_ok(j.model()),
        },
{
    match j {
        Json::Obj(members) => {
            assert(j.model() matches JVal::Obj(m) && m =~= crate::json::member_models_of(
                members@,
            ));
            let id = match get_req_u64(members, "id") {
                Some(v) => v,
                None => {
                    return None;
                },
            };
            let name = match get_req_str(members, "name") {
                Some(v) => v,
                None => {
                    return None;
                },
            };
            let latitude = match get_req_num(members, "latitude") {
                Some(v) => v,
                None => {
                    return None;
                },
            };
            let longitude = match get_req_num(members, "longitude") {
                Some(v) => v,
                None => {
                    return None;
                },
            };
            let elevation = match crate::shape::get_opt_num(members, "elevation") {
                Ok(v) => v,
                Err(_) => {
                    return None;
                },
            };
            let timezone = match get_opt_str(members, "timezone") {
                Ok(v) => v,
                Err(_) => {
                    return None;
                },
            };
            let country_code = match get_opt_str(members, "country_code") {
                Ok(v) => v,
                Err(_) => {
                    return None;
                },
            };
            let country = match get_opt_str(members, "country") {
                Ok(v) => v,
                Err(_) => {
                    return None;
                },
            };
            let admin1 = match get_opt_str(members, "admin1") {
                Ok(v) => v,
                Err(_) => {
                    return None;
                },
            };
            let admin2 = match get_opt_str(members, "admin2") {
                Ok(v) => v,
                Err(_) => {
                    return None;
                },
            };
            let admin3 = match get_opt_str(members, "admin3") {
                Ok(v) => v,
                Err(_) => {
                    return None;
                },
            };
            let admin4 = match get_opt_str(members, "admin4") {
                Ok(v) => v,
                Err(_) => {
                    return None;
                },
            };
            let population = match get_opt_u64(members, "population") {
                Ok(v) => v,
                Err(_) => {
                    return None;
                },
            };
            let postcodes = match get_opt_str_arr(members, "postcodes") {
                Ok(v) => v,
                Err(_) => {
                    return None;
                },
            };
            Some(
                Location {
                    id,
                    name,
                    latitude,
                    longitude,
                    elevation,
                    timezone,
                    country_code,
                    country,
                    admin1,
                    admin2,
                    admin3,
                    admin4,
                    population,
                    postcodes,
                },
            )
        },
        _ => None,
    }
}

/// Every element of `vs` from `i` on has the shape of a location record.
pub open spec fn locations_ok_from(vs: Seq<JVal>, i: int) -> bool
    decreases vs.len() - i,
{
    if i < 0 || i >= vs.len() {
        true
    } else {
        location_ok(vs[i]) && locations_ok_from(vs, i + 1)
    }
}

/// Whether `ls` holds exactly the location records that `vs` describes from
/// `i` on, in order.
pub open spec fn locations_match_from(ls: Seq<Location>, vs: Seq<JVal>, i: int) -> bool
    decreases vs.len() - i,
{
    if i < 0 || i >= vs.len() {
        ls.len() == 0
    } else {
        ls.len() > 0 && location_matches(ls[0], vs[i]) && locations_match_from(
            ls.drop_first(),
            vs,
            i + 1,
        )
    }
}

/// Decode the elements of `items` from `i` on as location records.
fn collect_locations(items: &Vec<Json>, i: usize) -> (r: Option<Vec<Location>>)
    requires
        i <= items@.len(),
    ensures
        match r {
            Some(out) => locations_ok_from(crate::json::models_of(items@), i as int)
                && locations_match_from(out@, crate::json::models_of(items@), i as int),
            None => !locations_ok_from(crate::json::models_of(items@), i as int),
        },
    decreases items@.len() - i,
{
    if i >= items.len() {
        let out: Vec<Location> = Vec::new();
        return Some(out);
    }
    match decode_location(&items[i]) {
        None => None,
        Some(l) => match collect_locations(items, i + 1) {
            None => None,
            Some(mut out) => {
                let ghost tail = out@;
                out.insert(0, l);
                assert(out@.drop_first() =~= tail);
                Some(out)
            },
        },
    }
}

/// Whether `j` has the shape of a geocoding response: an object whose
/// `results` member, when present, is an array of location records. A
/// missing `results` member means an empty result list.
pub open spec fn geocoding_ok(j: JVal) -> bool {
    match j {
        JVal::Obj(m) => match jobj_get(m, "results"@) {
            None => true,
            Some(JVal::Arr(vs)) => locations_ok_from(vs, 0),
            Some(_) => false,
        },
        _ => false,
    }
}

/// Whether `resp` is exactly the response that `j` describes.
pub open spec fn geocoding_matches(resp: GeocodingResponse, j: JVal) -> bool {
    match j {
        JVal::Obj(m) => match jobj_get(m, "results"@) {
            None => resp.results@.len() == 0,
            Some(JVal::Arr(vs)) => locations_match_from(resp.results@, vs, 0),
            Some(_) => false,
        },
        _ => false,
    }
}

/// The number of location records that `j` carries.
pub open spec fn geocoding_result_count(j: JVal) -> nat {
    match j {
        JVal::Obj(m) => match jobj_get(m, "results"@) {
            Some(JVal::Arr(vs)) => vs.len(),
            _ => 0,
        },
        _ => 0,
    }
}

/// A decoded response holds as many records as its JSON described.
proof fn lemma_locations_match_len(ls: Seq<Location>, vs: Seq<JVal>, i: int)
    requires
        0 <= i <= vs.len(),
        locations_match_from(ls, vs, i),
    ensures
        ls.len() == vs.len() - i,
    decreases vs.len() - i,
{
    if i < vs.len() {
        lemma_locations_match_len(ls.drop_first(), vs, i + 1);
    }
}

/// Decode a geocoding response body.
pub fn decode_geocoding(j: &Json) -> (r: Option<GeocodingResponse>)
    ensures
        match r {
            Some(resp) => geocoding_ok(j.model()) && geocoding_matches(resp, j.model())
                && resp.results@.len() == geocoding_result_count(j.model()),
            None => !geocoding_ok(j.model()),
        },
{
    match j {
        Json::Obj(members) => {
            assert(j.model() matches JVal::Obj(m) && m =~= crate::json::member_models_of(
                members@,
            ));
            match crate::json::obj_lookup(members, "results") {
                None => Some(GeocodingResponse { results: Vec::new() }),
                Some(Json::Arr(items)) => {
                    assert(jobj_get(crate::json::member_models_of(members@), "results"@) matches
                        Some(jv) && jv matches JVal::Arr(vs) && vs =~= crate::json::models_of(
                        items@,
                    ));
                    match collect_locations(items, 0) {
                        None => None,
                        Some(out) => {
                            proof {
                                lemma_locations_match_len(
                                    out@,
                                    crate::json::models_of(items@),
                                    0,
                                );
                            }
                            Some(GeocodingResponse { results: out })
                        },
                    }
                },
                Some(_) => None,
            }
        },
        _ => None,
    }
}

/// Classify a geocoding HTTP exchange into the typed result.
///
/// A non-2xx status yields `ApiError` carrying the raw status and body. On
/// success, a body that is not a JSON document of the response shape yields
/// `DeserializationError`; a well-shaped body with no location records
/// yields `NoResults`; otherwise the decoded response is returned.
pub fn search_outcome(status: u16, body: &str) -> (r: Result<GeocodingResponse, OpenMeteoError>)
    ensures
        ({
            let p = parse_json_spec(body@);
            match r {
                Ok(resp) => status_success(status) && (match p {
                    Some(j) => geocoding_ok(j) && geocoding_matches(resp, j)
                        && geocoding_result_count(j) > 0,
                    None => false,
                }),
                Err(e) => match e {
                    OpenMeteoError::ApiError { reason } => !status_success(status) && reason@
                        == raw_reason(status, body@),
                    OpenMeteoError::DeserializationError(_) => status_success(status) && (match p {
                        Some(j) => !geocoding_ok(j),
                        None => true,
                    }),
                    OpenMeteoError::NoResults => status_success(status) && (match p {
                        Some(j) => geocoding_ok(j) && geocoding_result_count(j) == 0,
                        None => false,
                    }),
                    _ => false,
                },
            }
        }),
{
    if !(200 <= status && status < 300) {
        return Err(OpenMeteoError::ApiError { reason: crate::error::make_raw_reason(status, body) });
    }
    match parse_json(body) {
        None => Err(
            OpenMeteoError::DeserializationError(
                String::from_str("response body is not valid JSON"),
            ),
        ),
        Some(j) => match decode_geocoding(&j) {
            None => Err(
                OpenMeteoError::DeserializationError(
                    String::from_str("response body does not match the geocoding shape"),
                ),
            ),
            Some(resp) => {
                if resp.results.len() == 0 {
                    Err(OpenMeteoError::NoResults)
                } else {
                    Ok(resp)
                }
            },
        },
    }
}

} // verus!
