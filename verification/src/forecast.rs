//! Weather forecast: a coordinate-based request and its time-series response.
//!
//! A request holds the required coordinates, optional variable-name lists
//! for hourly/daily/current data, unit and format choices (always sent,
//! since they have defaults), and further optional scalars. The response
//! holds required metadata plus optional sections keyed by variable name,
//! where every variable's sample sequence is index-aligned with the
//! section's `time` sequence and a JSON `null` sample is an explicit
//! missing-reading marker.

use vstd::prelude::*;
use crate::common::{PrecipitationUnit, TemperatureUnit, TimeFormat, WindSpeedUnit};
use crate::error::OpenMeteoError;
use crate::error::{raw_reason, status_success};
use crate::json::{JVal, Json, jobj_get, member_models_of, models_of, obj_lookup, parse_json,
    parse_json_spec};
use crate::query::{build_url, no_key, pairs_view, url_with_params};
use crate::shape::{collect_nn_arr, collect_str_arr, collect_str_map, get_req_i32, get_req_num,
    get_req_str, nn_arr_ok_from, nn_arr_vals_from, opt_str_view, req_i32_ok, req_i32_val,
    req_num_ok, req_num_val, req_str_ok, req_str_val, str_arr_ok_from, str_arr_vals_from,
    str_map_ok_from, str_map_vals_from};
use crate::text::{dec_digits, join_comma, join_with_commas, u8_to_string};

verus! {

/// Request builder for the weather forecast API. Coordinates and elevation
/// are carried in their decimal text form, exactly as they travel on the
/// wire.
#[derive(Debug, Clone, PartialEq, Eq)]
pub struct ForecastRequest {
    pub latitude: String,
    pub longitude: String,
    pub elevation: Option<String>,
    pub hourly: Option<Vec<String>>,
    pub daily: Option<Vec<String>>,
    pub current: Option<Vec<String>>,
    pub temperature_unit: TemperatureUnit,
    pub wind_speed_unit: WindSpeedUnit,
    pub precipitation_unit: PrecipitationUnit,
    pub timeformat: TimeFormat,
    pub timezone: Option<String>,
    pub past_days: Option<u8>,
    pub forecast_days: Option<u8>,
    pub models: Option<String>,
}

impl ForecastRequest {
    /// Create a new forecast request for the given coordinates. Every
    /// optional field starts unset and every unit holds its default.
    pub fn new(latitude: String, longitude: String) -> (r: Self)
        ensures
            r.latitude == latitude,
            r.longitude == longitude,
            r.elevation is None,
            r.hourly is None,
            r.daily is None,
            r.current is None,
            r.temperature_unit == TemperatureUnit::Celsius,
            r.wind_speed_unit == WindSpeedUnit::Kmh,
            r.precipitation_unit == PrecipitationUnit::Mm,
            r.timeformat == TimeFormat::Iso8601,
            r.timezone is None,
            r.past_days is None,
            r.forecast_days is None,
            r.models is None,
    {
        ForecastRequest {
            latitude,
            longitude,
            elevation: None,
            hourly: None,
            daily: None,
            current: None,
            temperature_unit: TemperatureUnit::default(),
            wind_speed_unit: WindSpeedUnit::default(),
            precipitation_unit: PrecipitationUnit::default(),
            timeformat: TimeFormat::default(),
            timezone: None,
            past_days: None,
            forecast_days: None,
            models: None,
        }
    }

    /// Set the elevation for statistical downscaling, in decimal text.
    pub fn elevation(self, elevation: String) -> (r: Self)
        ensures
            r == (Self { elevation: Some(elevation), ..self }),
    {
        ForecastRequest { elevation: Some(elevation), ..self }
    }

    /// Set the hourly weather variables to fetch.
    pub fn hourly(self, variables: Vec<String>) -> (r: Self)
        ensures
            r == (Self { hourly: Some(variables), ..self }),
    {
        ForecastRequest { hourly: Some(variables), ..self }
    }

    /// Set the daily weather variables to fetch.
    pub fn daily(self, variables: Vec<String>) -> (r: Self)
        ensures
            r == (Self { daily: Some(variables), ..self }),
    {
        ForecastRequest { daily: Some(variables), ..self }
    }

    /// Set the current weather variables to fetch.
    pub fn current(self, variables: Vec<String>) -> (r: Self)
        ensures
            r == (Self { current: Some(variables), ..self }),
    {
        ForecastRequest { current: Some(variables), ..self }
    }

    /// Set the temperature unit.
    pub fn temperature_unit(self, unit: TemperatureUnit) -> (r: Self)
        ensures
            r == (Self { temperature_unit: unit, ..self }),
    {
        ForecastRequest { temperature_unit: unit, ..self }
    }

    /// Set the wind speed unit.
    pub fn wind_speed_unit(self, unit: WindSpeedUnit) -> (r: Self)
        ensures
            r == (Self { wind_speed_unit: unit, ..self }),
    {
        ForecastRequest { wind_speed_unit: unit, ..self }
    }

    /// Set the precipitation unit.
    pub fn precipitation_unit(self, unit: PrecipitationUnit) -> (r: Self)
        ensures
            r == (Self { precipitation_unit: unit, ..self }),
    {
        ForecastRequest { precipitation_unit: unit, ..self }
    }

    /// Set the time format.
    pub fn timeformat(self, format: TimeFormat) -> (r: Self)
        ensures
            r == (Self { timeformat: format, ..self }),
    {
        ForecastRequest { timeformat: format, ..self }
    }

    /// Set the timezone (an IANA name, or the literal "auto").
    pub fn timezone(self, timezone: String) -> (r: Self)
        ensures
            r == (Self { timezone: Some(timezone), ..self }),
    {
        ForecastRequest { timezone: Some(timezone), ..self }
    }

    /// Set the number of past days to include (0-92, not checked here).
    pub fn past_days(self, days: u8) -> (r: Self)
        ensures
            r == (Self { past_days: Some(days), ..self }),
    {
        ForecastRequest { past_days: Some(days), ..self }
    }

    /// Set the number of forecast days (1-16, not checked here).
    pub fn forecast_days(self, days: u8) -> (r: Self)
        ensures
            r == (Self { forecast_days: Some(days), ..self }),
    {
        ForecastRequest { forecast_days: Some(days), ..self }
    }

    /// Set a specific weather model.
    pub fn models(self, models: String) -> (r: Self)
        ensures
            r == (Self { models: Some(models), ..self }),
    {
        ForecastRequest { models: Some(models), ..self }
    }
}

/// The parameter list for an optional scalar field: one pair when set,
/// nothing at all when unset.
pub open spec fn opt_pair(key: Seq<char>, v: Option<Seq<char>>) -> Seq<(Seq<char>, Seq<char>)> {
    match v {
        Some(s) => seq![(key, s)],
        None => Seq::empty(),
    }
}

/// The view of an optional list of owned strings.
pub open spec fn opt_list_view(o: Option<Vec<String>>) -> Option<Seq<Seq<char>>> {
    match o {
        Some(v) => Some(v@.map_values(|s: String| s@)),
        None => None,
    }
}

/// The decimal text of an optional byte-sized count.
pub open spec fn opt_u8_text(o: Option<u8>) -> Option<Seq<char>> {
    match o {
        Some(d) => Some(dec_digits(d as nat)),
        None => None,
    }
}

/// The parameter list for a list-valued field: one pair holding the entries
/// joined with commas in input order when the list is set and non-empty;
/// nothing at all when the list is unset or empty (an empty list cannot be
/// told apart from an absent one in the wire form, so both are omitted).
pub open spec fn list_pair(key: Seq<char>, v: Option<Seq<Seq<char>>>) -> Seq<
    (Seq<char>, Seq<char>),
> {
    match v {
        Some(parts) => if parts.len() == 0 {
            Seq::empty()
        } else {
            seq![(key, join_comma(parts))]
        },
        None => Seq::empty(),
    }
}

/// The ordered query parameters that encode a forecast request: the
/// required coordinates, each optional field that is set, and the four
/// unit/format choices, which are always sent.
pub open spec fn forecast_params(req: ForecastRequest) -> Seq<(Seq<char>, Seq<char>)> {
    seq![("latitude"@, req.latitude@), ("longitude"@, req.longitude@)] + opt_pair(
        "elevation"@,
        opt_str_view(req.elevation),
    ) + list_pair("hourly"@, opt_list_view(req.hourly)) + list_pair(
        "daily"@,
        opt_list_view(req.daily),
    ) + list_pair("current"@, opt_list_view(req.current)) + seq![
        ("temperature_unit"@, req.temperature_unit.wire_spec()),
        ("wind_speed_unit"@, req.wind_speed_unit.wire_spec()),
        ("precipitation_unit"@, req.precipitation_unit.wire_spec()),
        ("timeformat"@, req.timeformat.wire_spec()),
    ] + opt_pair("timezone"@, opt_str_view(req.timezone)) + opt_pair(
        "past_days"@,
        opt_u8_text(req.past_days),
    ) + opt_pair("forecast_days"@, opt_u8_text(req.forecast_days)) + opt_pair(
        "models"@,
        opt_str_view(req.models),
    )
}

impl ForecastRequest {
    /// Encode this request as ordered query parameters.
    pub fn query_params(&self) -> (r: Vec<(String, String)>)
        ensures
            pairs_view(r@) == forecast_params(*self),
    {
        let mut params: Vec<(String, String)> = Vec::new();
        assert(pairs_view(params@) =~= Seq::<(Seq<char>, Seq<char>)>::empty());
        crate::query::push_pair(&mut params, "latitude", self.latitude.clone());
        crate::query::push_pair(&mut params, "longitude", self.longitude.clone());
        let ghost g0 = seq![("latitude"@, self.latitude@), ("longitude"@, self.longitude@)];
        assert(pairs_view(params@) =~= g0);
        crate::query::push_opt_pair(&mut params, "elevation", &self.elevation);
        let ghost g1 = g0 + opt_pair("elevation"@, opt_str_view(self.elevation));
        self.push_list(&mut params, "hourly", &self.hourly);
        let ghost g2 = g1 + list_pair("hourly"@, opt_list_view(self.hourly));
        self.push_list(&mut params, "daily", &self.daily);
        let ghost g3 = g2 + list_pair("daily"@, opt_list_view(self.daily));
        self.push_list(&mut params, "current", &self.current);
        let ghost g4 = g3 + list_pair("current"@, opt_list_view(self.current));
        crate::query::push_pair(&mut params, "temperature_unit", self.temperature_unit.wire().to_owned());
        crate::query::push_pair(&mut params, "wind_speed_unit", self.wind_speed_unit.wire().to_owned());
        crate::query::push_pair(&mut params, "precipitation_unit", self.precipitation_unit.wire().to_owned());
        crate::query::push_pair(&mut params, "timeformat", self.timeformat.wire().to_owned());
        let ghost g5 = g4 + seq![
            ("temperature_unit"@, self.temperature_unit.wire_spec()),
            ("wind_speed_unit"@, self.wind_speed_unit.wire_spec()),
            ("precipitation_unit"@, self.precipitation_unit.wire_spec()),
            ("timeformat"@, self.timeformat.wire_spec()),
        ];
        assert(pairs_view(params@) =~= g5);
        crate::query::push_opt_pair(&mut params, "timezone", &self.timezone);
        let ghost g6 = g5 + opt_pair("timezone"@, opt_str_view(self.timezone));
        self.push_opt_u8(&mut params, "past_days", &self.past_days);
        let ghost g7 = g6 + opt_pair("past_days"@, opt_u8_text(self.past_days));
        self.push_opt_u8(&mut params, "forecast_days", &self.forecast_days);
        let ghost g8 = g7 + opt_pair("forecast_days"@, opt_u8_text(self.forecast_days));
        crate::query::push_opt_pair(&mut params, "models", &self.models);
        let ghost g9 = g8 + opt_pair("models"@, opt_str_view(self.models));
        assert(pairs_view(params@) == g9);
        assert(forecast_params(*self) == g9);
        params
    }

    /// Append the parameter pair for a list-valued field, when it is set
    /// and non-empty.
    fn push_list(&self, params: &mut Vec<(String, String)>, key: &str, v: &Option<Vec<String>>)
        ensures
            pairs_view(final(params)@) == pairs_view(old(params)@) + list_pair(
                key@,
                opt_list_view(*v),
            ),
    {
        match v {
            Some(l) => {
                if l.len() > 0 {
                    crate::query::push_pair(params, key, join_with_commas(l));
                } else {
                    assert(pairs_view(params@) =~= pairs_view(params@) + Seq::<
                        (Seq<char>, Seq<char>),
                    >::empty());
                }
            },
            None => {
                assert(pairs_view(params@) =~= pairs_view(params@) + Seq::<
                    (Seq<char>, Seq<char>),
                >::empty());
            },
        }
    }

    /// Append the parameter pair for an optional day count, when it is set.
    fn push_opt_u8(&self, params: &mut Vec<(String, String)>, key: &str, v: &Option<u8>)
        ensures
            pairs_view(final(params)@) == pairs_view(old(params)@) + opt_pair(key@, opt_u8_text(*v)),
    {
        match v {
            Some(d) => crate::query::push_pair(params, key, u8_to_string(*d)),
            None => {
                assert(pairs_view(params@) =~= pairs_view(params@) + Seq::<
                    (Seq<char>, Seq<char>),
                >::empty());
            },
        }
    }

    /// Build the full request URL for this request against `base`.
    ///
    /// Fails with `InvalidParameter` exactly when `base` is not a valid URL.
    pub fn url(&self, base: &str) -> (r: Result<String, OpenMeteoError>)
        ensures
            match r {
                Ok(u) => url_with_params(base@, forecast_params(*self)) == Some(u@),
                Err(e) => e matches OpenMeteoError::InvalidParameter(_) && url_with_params(
                    base@,
                    forecast_params(*self),
                ) is None,
            },
    {
        let params = self.query_params();
        build_url(base, &params)
    }
}

/// Hourly weather data: timestamps plus one sample sequence per requested
/// variable, index-aligned with `time`. A `None` sample is the explicit
/// missing-reading marker for a JSON `null`.
#[derive(Debug, Clone, PartialEq, Eq)]
pub struct HourlyData {
    pub time: Vec<String>,
    pub variables: Vec<(String, Vec<Option<String>>)>,
}

/// Daily weather data, shaped exactly like [`HourlyData`].
#[derive(Debug, Clone, PartialEq, Eq)]
pub struct DailyData {
    pub time: Vec<String>,
    pub variables: Vec<(String, Vec<Option<String>>)>,
}

/// Current weather conditions: one timestamp plus one sample per variable.
#[derive(Debug, Clone, PartialEq, Eq)]
pub struct CurrentData {
    pub time: String,
    pub variables: Vec<(String, Option<String>)>,
}

/// Weather forecast API response. Numeric metadata is kept in its verbatim
/// decimal text form, except the UTC offset, which is an integer.
#[derive(Debug, Clone, PartialEq, Eq)]
pub struct ForecastResponse {
    pub latitude: String,
    pub longitude: String,
    pub elevation: String,
    pub generationtime_ms: String,
    pub utc_offset_seconds: i32,
    pub timezone: String,
    pub timezone_abbreviation: String,
    pub hourly: Option<HourlyData>,
    pub hourly_units: Option<Vec<(String, String)>>,
    pub daily: Option<DailyData>,
    pub daily_units: Option<Vec<(String, String)>>,
    pub current: Option<CurrentData>,
    pub current_units: Option<Vec<(String, String)>>,
}

/// A variable member of a time-series section: an array of `n`
/// number-or-null samples, where `n` is the length of the `time` array.
pub open spec fn var_ok(j: JVal, n: nat) -> bool {
    match j {
        JVal::Arr(vs) => vs.len() == n && nn_arr_ok_from(vs, 0),
        _ => false,
    }
}

/// The samples of a variable member.
pub open spec fn var_vals(j: JVal) -> Seq<Option<Seq<char>>> {
    match j {
        JVal::Arr(vs) => nn_arr_vals_from(vs, 0),
        _ => Seq::empty(),
    }
}

/// Every member of `m` from `i` on, other than `time`, is a variable member
/// with `n` samples.
pub open spec fn vars_ok_from(m: Seq<(Seq<char>, JVal)>, i: int, n: nat) -> bool
    decreases m.len() - i,
{
    if i < 0 || i >= m.len() {
        true
    } else {
        (m[i].0 == "time"@ || var_ok(m[i].1, n)) && vars_ok_from(m, i + 1, n)
    }
}

/// The variable members of `m` from `i` on, in order, skipping `time`.
pub open spec fn vars_vals_from(m: Seq<(Seq<char>, JVal)>, i: int) -> Seq<
    (Seq<char>, Seq<Option<Seq<char>>>),
>
    decreases m.len() - i,
{
    if i < 0 || i >= m.len() {
        Seq::empty()
    } else if m[i].0 == "time"@ {
        vars_vals_from(m, i + 1)
    } else {
        seq![(m[i].0, var_vals(m[i].1))] + vars_vals_from(m, i + 1)
    }
}

/// The view of decoded variable entries.
pub open spec fn vars_view(vars: Seq<(String, Vec<Option<String>>)>) -> Seq<
    (Seq<char>, Seq<Option<Seq<char>>>),
> {
    Seq::new(
        vars.len(),
        |i: int| (vars[i].0@, vars[i].1@.map_values(|o: Option<String>| opt_str_view(o))),
    )
}

/// Whether `m` has the shape of an hourly or daily section: a `time` array
/// of strings, and every other member a variable with as many samples as
/// `time` has entries.
pub open spec fn series_ok(m: Seq<(Seq<char>, JVal)>) -> bool {
    match jobj_get(m, "time"@) {
        Some(JVal::Arr(ts)) => str_arr_ok_from(ts, 0) && vars_ok_from(m, 0, ts.len()),
        _ => false,
    }
}

/// Whether `time` and `vars` are exactly the timestamps and variables that
/// the section `m` describes.
pub open spec fn series_matches(
    time: Seq<String>,
    vars: Seq<(String, Vec<Option<String>>)>,
    m: Seq<(Seq<char>, JVal)>,
) -> bool {
    match jobj_get(m, "time"@) {
        Some(JVal::Arr(ts)) => time.map_values(|s: String| s@) == str_arr_vals_from(ts, 0)
            && vars_view(vars) == vars_vals_from(m, 0),
        _ => false,
    }
}

/// Every sample sequence of `vars` is exactly `n` long.
pub open spec fn vars_aligned(vars: Seq<(String, Vec<Option<String>>)>, n: nat) -> bool {
    forall|k: int| 0 <= k < vars.len() ==> (#[trigger] vars[k]).1@.len() == n
}

/// Decode the variable members of a section from `i` on, given the length
/// `n` of its `time` array.
fn collect_vars(members: &Vec<(String, Json)>, i: usize, n: usize) -> (r: Option<
    Vec<(String, Vec<Option<String>>)>,
>)
    requires
        i <= members@.len(),
    ensures
        match r {
            Some(out) => vars_ok_from(member_models_of(members@), i as int, n as nat) && vars_view(
                out@,
            ) == vars_vals_from(member_models_of(members@), i as int) && vars_aligned(
                out@,
                n as nat,
            ),
            None => !vars_ok_from(member_models_of(members@), i as int, n as nat),
        },
    decreases members@.len() - i,
{
    if i >= members.len() {
        let out: Vec<(String, Vec<Option<String>>)> = Vec::new();
        assert(vars_view(out@) =~= Seq::<(Seq<char>, Seq<Option<Seq<char>>>)>::empty());
        return Some(out);
    }
    if crate::text::eq_str(members[i].0.as_str(), "time") {
        match collect_vars(members, i + 1, n) {
            None => None,
            Some(out) => Some(out),
        }
    } else {
        match &members[i].1 {
            Json::Arr(items) => {
                assert(member_models_of(members@)[i as int].1 matches JVal::Arr(vs) && vs
                    =~= models_of(items@));
                if items.len() != n {
                    proof {
                        crate::shape::lemma_models_len(items@);
                    }
                    return None;
                }
                match collect_nn_arr(items, 0) {
                    None => None,
                    Some(vals) => match collect_vars(members, i + 1, n) {
                        None => None,
                        Some(mut out) => {
                            proof {
                                crate::shape::lemma_nn_vals_len(models_of(items@), 0);
                            }
                            let ghost tail = out@;
                            let entry = (members[i].0.clone(), vals);
                            out.insert(0, entry);
                            assert(vars_view(out@) =~= seq![
                                (
                                    member_models_of(members@)[i as int].0,
                                    var_vals(member_models_of(members@)[i as int].1),
                                ),
                            ] + vars_view(tail));
                            Some(out)
                        },
                    },
                }
            },
            _ => None,
        }
    }
}

/// Decode an hourly or daily section: its timestamps and variables.
fn decode_series(members: &Vec<(String, Json)>) -> (r: Option<
    (Vec<String>, Vec<(String, Vec<Option<String>>)>),
>)
    ensures
        match r {
            Some(p) => series_ok(member_models_of(members@)) && series_matches(
                p.0@,
                p.1@,
                member_models_of(members@),
            ) && vars_aligned(p.1@, p.0@.len()),
            None => !series_ok(member_models_of(members@)),
        },
{
    match obj_lookup(members, "time") {
        Some(Json::Arr(items)) => {
            assert(jobj_get(member_models_of(members@), "time"@) matches Some(jv) && jv matches
                JVal::Arr(vs) && vs =~= models_of(items@));
            match collect_str_arr(items, 0) {
                None => None,
                Some(time) => {
                    proof {
                        crate::shape::lemma_str_vals_len(models_of(items@), 0);
                    }
                    match collect_vars(members, 0, time.len()) {
                        None => None,
                        Some(vars) => Some((time, vars)),
                    }
                },
            }
        },
        _ => None,
    }
}

/// Every member of `m` from `i` on, other than `time`, is a number or
/// `null`.
pub open spec fn curvars_ok_from(m: Seq<(Seq<char>, JVal)>, i: int) -> bool
    decreases m.len() - i,
{
    if i < 0 || i >= m.len() {
        true
    } else {
        (m[i].0 == "time"@ || m[i].1 is Num || m[i].1 is Null) && curvars_ok_from(m, i + 1)
    }
}

/// The current-condition members of `m` from `i` on, in order, skipping
/// `time`; a `None` value marks a JSON `null`.
pub open spec fn curvars_vals_from(m: Seq<(Seq<char>, JVal)>, i: int) -> Seq<
    (Seq<char>, Option<Seq<char>>),
>
    decreases m.len() - i,
{
    if i < 0 || i >= m.len() {
        Seq::empty()
    } else if m[i].0 == "time"@ {
        curvars_vals_from(m, i + 1)
    } else {
        seq![
            (
                m[i].0,
                match m[i].1 {
                    JVal::Num(t) => Some(t),
                    _ => None,
                },
            ),
        ] + curvars_vals_from(m, i + 1)
    }
}

/// The view of decoded current-condition entries.
pub open spec fn curvars_view(vars: Seq<(String, Option<String>)>) -> Seq<
    (Seq<char>, Option<Seq<char>>),
> {
    Seq::new(vars.len(), |i: int| (vars[i].0@, opt_str_view(vars[i].1)))
}

/// Whether `m` has the shape of a current-conditions section: a `time`
/// string, and every other member a number or `null`.
pub open spec fn current_ok(m: Seq<(Seq<char>, JVal)>) -> bool {
    req_str_ok(m, "time"@) && curvars_ok_from(m, 0)
}

/// Whether `c` is exactly the current conditions that `m` describes.
pub open spec fn current_matches(c: CurrentData, m: Seq<(Seq<char>, JVal)>) -> bool {
    c.time@ == req_str_val(m, "time"@) && curvars_view(c.variables@) == curvars_vals_from(m, 0)
}

/// Decode the members of a current-conditions section from `i` on.
fn collect_curvars(members: &Vec<(String, Json)>, i: usize) -> (r: Option<
    Vec<(String, Option<String>)>,
>)
    requires
        i <= members@.len(),
    ensures
        match r {
            Some(out) => curvars_ok_from(member_models_of(members@), i as int) && curvars_view(
                out@,
            ) == curvars_vals_from(member_models_of(members@), i as int),
            None => !curvars_ok_from(member_models_of(members@), i as int),
        },
    decreases members@.len() - i,
{
    if i >= members.len() {
        let out: Vec<(String, Option<String>)> = Vec::new();
        assert(curvars_view(out@) =~= Seq::<(Seq<char>, Option<Seq<char>>)>::empty());
        return Some(out);
    }
    if crate::text::eq_str(members[i].0.as_str(), "time") {
        collect_curvars(members, i + 1)
    } else {
        let sample: Option<String> = match &members[i].1 {
            Json::Num(t) => Some(t.clone()),
            Json::Null => None,
            _ => {
                return None;
            },
        };
        match collect_curvars(members, i + 1) {
            None => None,
            Some(mut out) => {
                let ghost tail = out@;
                let ghost sv = opt_str_view(sample);
                let entry = (members[i].0.clone(), sample);
                out.insert(0, entry);
                assert(curvars_view(out@) =~= seq![
                    (member_models_of(members@)[i as int].0, sv),
                ] + curvars_view(tail));
                Some(out)
            },
        }
    }
}

/// Decode a current-conditions section.
fn decode_current(members: &Vec<(String, Json)>) -> (r: Option<CurrentData>)
    ensures
        match r {
            Some(c) => current_ok(member_models_of(members@)) && current_matches(
                c,
                member_models_of(members@),
            ),
            None => !current_ok(member_models_of(members@)),
        },
{
    match get_req_str(members, "time") {
        None => None,
        Some(time) => match collect_curvars(members, 0) {
            None => None,
            Some(variables) => Some(CurrentData { time, variables }),
        },
    }
}

/// The view of decoded unit-label entries.
pub open spec fn units_view(units: Seq<(String, String)>) -> Seq<(Seq<char>, Seq<char>)> {
    Seq::new(units.len(), |i: int| (units[i].0@, units[i].1@))
}

/// An optional unit-label member: absent, `null`, or an object whose values
/// are all strings.
pub open spec fn opt_units_ok(m: Seq<(Seq<char>, JVal)>, key: Seq<char>) -> bool {
    match jobj_get(m, key) {
        None => true,
        Some(JVal::Null) => true,
        Some(JVal::Obj(um)) => str_map_ok_from(um, 0),
        Some(_) => false,
    }
}

/// Whether the optional unit labels `u` are exactly what member `key` of
/// `m` describes.
pub open spec fn opt_units_match(
    u: Option<Vec<(String, String)>>,
    m: Seq<(Seq<char>, JVal)>,
    key: Seq<char>,
) -> bool {
    match u {
        Some(units) => match jobj_get(m, key) {
            Some(JVal::Obj(um)) => units_view(units@) == str_map_vals_from(um, 0),
            _ => false,
        },
        None => match jobj_get(m, key) {
            None => true,
            Some(JVal::Null) => true,
            Some(_) => false,
        },
    }
}

/// Read an optional unit-label member. `Err` means present with a wrong
/// type.
fn get_opt_units(members: &Vec<(String, Json)>, key: &str) -> (r: Result<
    Option<Vec<(String, String)>>,
    (),
>)
    ensures
        match r {
            Ok(v) => opt_units_ok(member_models_of(members@), key@) && opt_units_match(
                v,
                member_models_of(members@),
                key@,
            ),
            Err(_) => !opt_units_ok(member_models_of(members@), key@),
        },
{
    match obj_lookup(members, key) {
        None => Ok(None),
        Some(Json::Null) => Ok(None),
        Some(Json::Obj(um)) => {
            assert(jobj_get(member_models_of(members@), key@) matches Some(jv) && jv matches
                JVal::Obj(vm) && vm =~= member_models_of(um@));
            match collect_str_map(um, 0) {
                Some(units) => {
                    assert(units_view(units@) =~= units@.map_values(
                        |p: (String, String)| (p.0@, p.1@),
                    ));
                    Ok(Some(units))
                },
                None => Err(()),
            }
        },
        Some(_) => Err(()),
    }
}

/// Whether member `key` of `m` is an absent, `null`, or well-shaped
/// time-series section.
pub open spec fn opt_series_sec_ok(m: Seq<(Seq<char>, JVal)>, key: Seq<char>) -> bool {
    match jobj_get(m, key) {
        None => true,
        Some(JVal::Null) => true,
        Some(JVal::Obj(sm)) => series_ok(sm),
        Some(_) => false,
    }
}

/// Whether the optional decoded section (`time` and variables) is exactly
/// what member `key` of `m` describes.
pub open spec fn opt_series_sec_match(
    sec: Option<(Seq<String>, Seq<(String, Vec<Option<String>>)>)>,
    m: Seq<(Seq<char>, JVal)>,
    key: Seq<char>,
) -> bool {
    match sec {
        Some(p) => match jobj_get(m, key) {
            Some(JVal::Obj(sm)) => series_matches(p.0, p.1, sm),
            _ => false,
        },
        None => match jobj_get(m, key) {
            None => true,
            Some(JVal::Null) => true,
            Some(_) => false,
        },
    }
}

/// Read an optional time-series section. `Err` means present with a wrong
/// type or shape.
fn get_opt_series(members: &Vec<(String, Json)>, key: &str) -> (r: Result<
    Option<(Vec<String>, Vec<(String, Vec<Option<String>>)>)>,
    (),
>)
    ensures
        match r {
            Ok(v) => opt_series_sec_ok(member_models_of(members@), key@) && opt_series_sec_match(
                match v {
                    Some(p) => Some((p.0@, p.1@)),
                    None => None,
                },
                member_models_of(members@),
                key@,
            ) && (match v {
                Some(p) => vars_aligned(p.1@, p.0@.len()),
                None => true,
            }),
            Err(_) => !opt_series_sec_ok(member_models_of(members@), key@),
        },
{
    match obj_lookup(members, key) {
        None => Ok(None),
        Some(Json::Null) => Ok(None),
        Some(Json::Obj(sm)) => {
            assert(jobj_get(member_models_of(members@), key@) matches Some(jv) && jv matches
                JVal::Obj(vm) && vm =~= member_models_of(sm@));
            match decode_series(sm) {
                Some(p) => Ok(Some(p)),
                None => Err(()),
            }
        },
        Some(_) => Err(()),
    }
}

/// Whether `j` has the shape of a forecast response: an object with the
/// seven required metadata fields, and optional sections and unit labels of
/// their expected shapes. Unrecognized members are ignored.
pub open spec fn forecast_ok(j: JVal) -> bool {
    match j {
        JVal::Obj(m) => req_num_ok(m, "latitude"@) && req_num_ok(m, "longitude"@) && req_num_ok(
            m,
            "elevation"@,
        ) && req_num_ok(m, "generationtime_ms"@) && req_i32_ok(m, "utc_offset_seconds"@)
            && req_str_ok(m, "timezone"@) && req_str_ok(m, "timezone_abbreviation"@)
            && opt_series_sec_ok(m, "hourly"@) && opt_units_ok(m, "hourly_units"@)
            && opt_series_sec_ok(m, "daily"@) && opt_units_ok(m, "daily_units"@) && (match jobj_get(
            m,
            "current"@,
        ) {
            None => true,
            Some(JVal::Null) => true,
            Some(JVal::Obj(cm)) => current_ok(cm),
            Some(_) => false,
        }) && opt_units_ok(m, "current_units"@),
        _ => false,
    }
}

/// Whether `resp` is exactly the response that `j` describes.
pub open spec fn forecast_matches(resp: ForecastResponse, j: JVal) -> bool {
    match j {
        JVal::Obj(m) => resp.latitude@ == req_num_val(m, "latitude"@) && resp.longitude@
            == req_num_val(m, "longitude"@) && resp.elevation@ == req_num_val(m, "elevation"@)
            && resp.generationtime_ms@ == req_num_val(m, "generationtime_ms"@)
            && resp.utc_offset_seconds as int == req_i32_val(m, "utc_offset_seconds"@)
            && resp.timezone@ == req_str_val(m, "timezone"@) && resp.timezone_abbreviation@
            == req_str_val(m, "timezone_abbreviation"@) && opt_series_sec_match(
            match resp.hourly {
                Some(h) => Some((h.time@, h.variables@)),
                None => None,
            },
            m,
            "hourly"@,
        ) && opt_units_match(resp.hourly_units, m, "hourly_units"@) && opt_series_sec_match(
            match resp.daily {
                Some(d) => Some((d.time@, d.variables@)),
                None => None,
            },
            m,
            "daily"@,
        ) && opt_units_match(resp.daily_units, m, "daily_units"@) && (match resp.current {
            Some(c) => match jobj_get(m, "current"@) {
                Some(JVal::Obj(cm)) => current_matches(c, cm),
                _ => false,
            },
            None => match jobj_get(m, "current"@) {
                None => true,
                Some(JVal::Null) => true,
                Some(_) => false,
            },
        }) && opt_units_match(resp.current_units, m, "current_units"@),
        _ => false,
    }
}

/// Every sample sequence of every present section of `resp` is exactly as
/// long as that section's `time` sequence.
pub open spec fn forecast_aligned(resp: ForecastResponse) -> bool {
    &&& (match resp.hourly {
        Some(h) => vars_aligned(h.variables@, h.time@.len()),
        None => true,
    })
    &&& (match resp.daily {
        Some(d) => vars_aligned(d.variables@, d.time@.len()),
        None => true,
    })
}

/// Decode a forecast response body.
pub fn decode_forecast(j: &Json) -> (r: Option<ForecastResponse>)
    ensures
        match r {
            Some(resp) => forecast_ok(j.model()) && forecast_matches(resp, j.model())
                && forecast_aligned(resp),
            None => !forecast_ok(j.model()),
        },
{
    match j {
        Json::Obj(members) => {
            assert(j.model() matches JVal::Obj(m) && m =~= member_models_of(members@));
            let latitude = match get_req_num(members, "latitude") {
                Some(v) => v,
                None => {
                    return None;
                },
            };
            let longitude = match get_req_num(members, "longitude") {
                Some(v) => v,
                None => {
                    return None;
                },
            };
            let elevation = match get_req_num(members, "elevation") {
                Some(v) => v,
                None => {
                    return None;
                },
            };
            let generationtime_ms = match get_req_num(members, "generationtime_ms") {
                Some(v) => v,
                None => {
                    return None;
                },
            };
            let utc_offset_seconds = match get_req_i32(members, "utc_offset_seconds") {
                Some(v) => v,
                None => {
                    return None;
                },
            };
            let timezone = match get_req_str(members, "timezone") {
                Some(v) => v,
                None => {
                    return None;
                },
            };
            let timezone_abbreviation = match get_req_str(members, "timezone_abbreviation") {
                Some(v) => v,
                None => {
                    return None;
                },
            };
            let hourly = match get_opt_series(members, "hourly") {
                Ok(Some(p)) => Some(HourlyData { time: p.0, variables: p.1 }),
                Ok(None) => None,
                Err(_) => {
                    return None;
                },
            };
            let hourly_units = match get_opt_units(members, "hourly_units") {
                Ok(v) => v,
                Err(_) => {
                    return None;
                },
            };
            let daily = match get_opt_series(members, "daily") {
                Ok(Some(p)) => Some(DailyData { time: p.0, variables: p.1 }),
                Ok(None) => None,
                Err(_) => {
                    return None;
                },
            };
            let daily_units = match get_opt_units(members, "daily_units") {
                Ok(v) => v,
                Err(_) => {
                    return None;
                },
            };
            let current = match obj_lookup(members, "current") {
                None => None,
                Some(Json::Null) => None,
                Some(Json::Obj(cm)) => {
                    assert(jobj_get(member_models_of(members@), "current"@) matches Some(jv)
                        && jv matches JVal::Obj(vm) && vm =~= member_models_of(cm@));
                    match decode_current(cm) {
                        Some(c) => Some(c),
                        None => {
                            return None;
                        },
                    }
                },
                Some(_) => {
                    return None;
                },
            };
            let current_units = match get_opt_units(members, "current_units") {
                Ok(v) => v,
                Err(_) => {
                    return None;
                },
            };
            Some(
                ForecastResponse {
                    latitude,
                    longitude,
                    elevation,
                    generationtime_ms,
                    utc_offset_seconds,
                    timezone,
                    timezone_abbreviation,
                    hourly,
                    hourly_units,
                    daily,
                    daily_units,
                    current,
                    current_units,
                },
            )
        },
        _ => None,
    }
}

/// Helper for the omitted-key law: when `key` is not one of the keys that
/// this request encodes, no parameter carries it.
proof fn lemma_forecast_key_absent(req: ForecastRequest, key: Seq<char>)
    requires
        key != "latitude"@,
        key != "longitude"@,
        key != "temperature_unit"@,
        key != "wind_speed_unit"@,
        key != "precipitation_unit"@,
        key != "timeformat"@,
        key == "elevation"@ ==> req.elevation is None,
        key == "hourly"@ ==> (opt_list_view(req.hourly) matches Some(l) ==> l.len() == 0),
        key == "daily"@ ==> (opt_list_view(req.daily) matches Some(l) ==> l.len() == 0),
        key == "current"@ ==> (opt_list_view(req.current) matches Some(l) ==> l.len() == 0),
        key == "timezone"@ ==> req.timezone is None,
        key == "past_days"@ ==> req.past_days is None,
        key == "forecast_days"@ ==> req.forecast_days is None,
        key == "models"@ ==> req.models is None,
    ensures
        no_key(forecast_params(req), key),
{
    let g0 = seq![("latitude"@, req.latitude@), ("longitude"@, req.longitude@)];
    assert(no_key(g0, key));
    let e = opt_pair("elevation"@, opt_str_view(req.elevation));
    assert(no_key(e, key));
    let h = list_pair("hourly"@, opt_list_view(req.hourly));
    assert(no_key(h, key));
    let d = list_pair("daily"@, opt_list_view(req.daily));
    assert(no_key(d, key));
    let c = list_pair("current"@, opt_list_view(req.current));
    assert(no_key(c, key));
    let u = seq![
        ("temperature_unit"@, req.temperature_unit.wire_spec()),
        ("wind_speed_unit"@, req.wind_speed_unit.wire_spec()),
        ("precipitation_unit"@, req.precipitation_unit.wire_spec()),
        ("timeformat"@, req.timeformat.wire_spec()),
    ];
    assert(no_key(u, key));
    let tz = opt_pair("timezone"@, opt_str_view(req.timezone));
    assert(no_key(tz, key));
    let pd = opt_pair("past_days"@, opt_u8_text(req.past_days));
    assert(no_key(pd, key));
    let fd = opt_pair("forecast_days"@, opt_u8_text(req.forecast_days));
    assert(no_key(fd, key));
    let mo = opt_pair("models"@, opt_str_view(req.models));
    assert(no_key(mo, key));
    crate::query::lemma_no_key_concat(g0, e, key);
    crate::query::lemma_no_key_concat(g0 + e, h, key);
    crate::query::lemma_no_key_concat(g0 + e + h, d, key);
    crate::query::lemma_no_key_concat(g0 + e + h + d, c, key);
    crate::query::lemma_no_key_concat(g0 + e + h + d + c, u, key);
    crate::query::lemma_no_key_concat(g0 + e + h + d + c + u, tz, key);
    crate::query::lemma_no_key_concat(g0 + e + h + d + c + u + tz, pd, key);
    crate::query::lemma_no_key_concat(g0 + e + h + d + c + u + tz + pd, fd, key);
    crate::query::lemma_no_key_concat(g0 + e + h + d + c + u + tz + pd + fd, mo, key);
}

/// An unset optional scalar field leaves no trace in the encoded query
/// parameters: its key does not occur there at all. The same holds of an
/// unset or empty variable list.
pub proof fn lemma_unset_scalar_omitted(req: ForecastRequest)
    ensures
        req.elevation is None ==> no_key(forecast_params(req), "elevation"@),
        req.timezone is None ==> no_key(forecast_params(req), "timezone"@),
        req.past_days is None ==> no_key(forecast_params(req), "past_days"@),
        req.forecast_days is None ==> no_key(forecast_params(req), "forecast_days"@),
        req.models is None ==> no_key(forecast_params(req), "models"@),
        req.hourly is None ==> no_key(forecast_params(req), "hourly"@),
        req.daily is None ==> no_key(forecast_params(req), "daily"@),
        req.current is None ==> no_key(forecast_params(req), "current"@),
{
    reveal_strlit("latitude");
    reveal_strlit("longitude");
    reveal_strlit("elevation");
    reveal_strlit("hourly");
    reveal_strlit("daily");
    reveal_strlit("current");
    reveal_strlit("temperature_unit");
    reveal_strlit("wind_speed_unit");
    reveal_strlit("precipitation_unit");
    reveal_strlit("timeformat");
    reveal_strlit("timezone");
    reveal_strlit("past_days");
    reveal_strlit("forecast_days");
    reveal_strlit("models");
    assert("latitude"@.len() == 8);
    assert("longitude"@.len() == 9);
    assert("elevation"@.len() == 9);
    assert("hourly"@.len() == 6);
    assert("daily"@.len() == 5);
    assert("current"@.len() == 7);
    assert("temperature_unit"@.len() == 16);
    assert("wind_speed_unit"@.len() == 15);
    assert("precipitation_unit"@.len() == 18);
    assert("timeformat"@.len() == 10);
    assert("timezone"@.len() == 8);
    assert("past_days"@.len() == 9);
    assert("forecast_days"@.len() == 13);
    assert("models"@.len() == 6);
    assert("latitude"@[0] == 'l');
    assert("timezone"@[0] == 't');
    assert("longitude"@[0] == 'l');
    assert("longitude"@[1] == 'o');
    assert("elevation"@[0] == 'e');
    assert("past_days"@[0] == 'p');
    assert("hourly"@[0] == 'h');
    assert("models"@[0] == 'm');
    if req.elevation is None {
        lemma_forecast_key_absent(req, "elevation"@);
    }
    if req.timezone is None {
        lemma_forecast_key_absent(req, "timezone"@);
    }
    if req.past_days is None {
        lemma_forecast_key_absent(req, "past_days"@);
    }
    if req.forecast_days is None {
        lemma_forecast_key_absent(req, "forecast_days"@);
    }
    if req.models is None {
        lemma_forecast_key_absent(req, "models"@);
    }
    if req.hourly is None {
        lemma_forecast_key_absent(req, "hourly"@);
    }
    if req.daily is None {
        lemma_forecast_key_absent(req, "daily"@);
    }
    if req.current is None {
        lemma_forecast_key_absent(req, "current"@);
    }
}

/// A set, non-empty variable list is encoded as a single parameter whose
/// value is the list's entries joined with commas, in input order.
pub proof fn lemma_list_encoded(req: ForecastRequest)
    ensures
        (match req.hourly {
            Some(l) => l@.len() > 0 ==> forecast_params(req).contains(
                ("hourly"@, join_comma(l@.map_values(|s: String| s@))),
            ),
            None => true,
        }),
        (match req.daily {
            Some(l) => l@.len() > 0 ==> forecast_params(req).contains(
                ("daily"@, join_comma(l@.map_values(|s: String| s@))),
            ),
            None => true,
        }),
        (match req.current {
            Some(l) => l@.len() > 0 ==> forecast_params(req).contains(
                ("current"@, join_comma(l@.map_values(|s: String| s@))),
            ),
            None => true,
        }),
{
    let ps = forecast_params(req);
    let g0 = seq![("latitude"@, req.latitude@), ("longitude"@, req.longitude@)];
    let e = opt_pair("elevation"@, opt_str_view(req.elevation));
    let h = list_pair("hourly"@, opt_list_view(req.hourly));
    let d = list_pair("daily"@, opt_list_view(req.daily));
    match req.hourly {
        Some(l) => {
            if l@.len() > 0 {
                let pair = ("hourly"@, join_comma(l@.map_values(|s: String| s@)));
                let idx = (g0 + e).len() as int;
                assert(ps[idx] == pair);
                assert(ps.contains(pair));
            }
        },
        None => (),
    }
    match req.daily {
        Some(l) => {
            if l@.len() > 0 {
                let pair = ("daily"@, join_comma(l@.map_values(|s: String| s@)));
                let idx = (g0 + e + h).len() as int;
                assert(ps[idx] == pair);
                assert(ps.contains(pair));
            }
        },
        None => (),
    }
    match req.current {
        Some(l) => {
            if l@.len() > 0 {
                let pair = ("current"@, join_comma(l@.map_values(|s: String| s@)));
                let idx = (g0 + e + h + d).len() as int;
                assert(ps[idx] == pair);
                assert(ps.contains(pair));
            }
        },
        None => (),
    }
}

/// The four unit/format choices are always encoded, each with its
/// canonical lowercase wire string; in particular a request that keeps a
/// default encodes that default's wire string.
pub proof fn lemma_units_encoded(req: ForecastRequest)
    ensures
        forecast_params(req).contains(("temperature_unit"@, req.temperature_unit.wire_spec())),
        forecast_params(req).contains(("wind_speed_unit"@, req.wind_speed_unit.wire_spec())),
        forecast_params(req).contains(("precipitation_unit"@, req.precipitation_unit.wire_spec())),
        forecast_params(req).contains(("timeformat"@, req.timeformat.wire_spec())),
        req.temperature_unit == TemperatureUnit::Celsius ==> forecast_params(req).contains(
            ("temperature_unit"@, "celsius"@),
        ),
        req.wind_speed_unit == WindSpeedUnit::Kmh ==> forecast_params(req).contains(
            ("wind_speed_unit"@, "kmh"@),
        ),
        req.precipitation_unit == PrecipitationUnit::Mm ==> forecast_params(req).contains(
            ("precipitation_unit"@, "mm"@),
        ),
        req.timeformat == TimeFormat::Iso8601 ==> forecast_params(req).contains(
            ("timeformat"@, "iso8601"@),
        ),
{
    let ps = forecast_params(req);
    let g0 = seq![("latitude"@, req.latitude@), ("longitude"@, req.longitude@)];
    let e = opt_pair("elevation"@, opt_str_view(req.elevation));
    let h = list_pair("hourly"@, opt_list_view(req.hourly));
    let d = list_pair("daily"@, opt_list_view(req.daily));
    let c = list_pair("current"@, opt_list_view(req.current));
    let idx = (g0 + e + h + d + c).len() as int;
    assert(ps[idx] == ("temperature_unit"@, req.temperature_unit.wire_spec()));
    assert(ps.contains(("temperature_unit"@, req.temperature_unit.wire_spec())));
    assert(ps[idx + 1] == ("wind_speed_unit"@, req.wind_speed_unit.wire_spec()));
    assert(ps.contains(("wind_speed_unit"@, req.wind_speed_unit.wire_spec())));
    assert(ps[idx + 2] == ("precipitation_unit"@, req.precipitation_unit.wire_spec()));
    assert(ps.contains(("precipitation_unit"@, req.precipitation_unit.wire_spec())));
    assert(ps[idx + 3] == ("timeformat"@, req.timeformat.wire_spec()));
    assert(ps.contains(("timeformat"@, req.timeformat.wire_spec())));
}

/// The `ApiError` reason for a non-2xx forecast response: the `reason`
/// string of the body's error envelope when the whole body is a JSON object
/// carrying one, else the raw status and body text.
pub open spec fn forecast_reason(status: u16, body: Seq<char>) -> Seq<char> {
    match parse_json_spec(body) {
        Some(JVal::Obj(m)) => match jobj_get(m, "reason"@) {
            Some(JVal::Str(s)) => s,
            _ => raw_reason(status, body),
        },
        _ => raw_reason(status, body),
    }
}

/// Classify a forecast HTTP exchange into the typed result.
///
/// A non-2xx status yields `ApiError`, with the reason taken from the
/// body's error envelope when one is present. On success, a body that is
/// not a JSON document of the response shape yields `DeserializationError`;
/// otherwise the decoded response is returned, whether or not any optional
/// section is present.
pub fn get_outcome(status: u16, body: &str) -> (r: Result<ForecastResponse, OpenMeteoError>)
    ensures
        ({
            let p = parse_json_spec(body@);
            match r {
                Ok(resp) => status_success(status) && (match p {
                    Some(j) => forecast_ok(j) && forecast_matches(resp, j) && forecast_aligned(
                        resp,
                    ),
                    None => false,
                }),
                Err(e) => match e {
                    OpenMeteoError::ApiError { reason } => !status_success(status) && reason@
                        == forecast_reason(status, body@),
                    OpenMeteoError::DeserializationError(_) => status_success(status) && (match p {
                        Some(j) => !forecast_ok(j),
                        None => true,
                    }),
                    _ => false,
                },
            }
        }),
{
    if !(200 <= status && status < 300) {
        match parse_json(body) {
            Some(Json::Obj(members)) => {
                assert(parse_json_spec(body@) matches Some(jv) && jv matches JVal::Obj(vm) && vm
                    =~= member_models_of(members@));
                match obj_lookup(&members, "reason") {
                    Some(Json::Str(s)) => {
                        return Err(OpenMeteoError::ApiError { reason: s.clone() });
                    },
                    _ => {
                        return Err(
                            OpenMeteoError::ApiError {
                                reason: crate::error::make_raw_reason(status, body),
                            },
                        );
                    },
                }
            },
            _ => {
                return Err(
                    OpenMeteoError::ApiError {
                        reason: crate::error::make_raw_reason(status, body),
                    },
                );
            },
        }
    }
    match parse_json(body) {
        None => Err(
            OpenMeteoError::DeserializationError(
                String::from_str("response body is not valid JSON"),
            ),
        ),
        Some(j) => match decode_forecast(&j) {
            None => Err(
                OpenMeteoError::DeserializationError(
                    String::from_str("response body does not match the forecast shape"),
                ),
            ),
            Some(resp) => Ok(resp),
        },
    }
}

} // verus!
