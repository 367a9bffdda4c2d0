//! The forecast fetcher's computations: reading the ordered period list out
//! of a forecast response, strictly — one malformed period fails the whole
//! read.

use vstd::prelude::*;
use crate::json::{j_bool, j_get, j_int, Json};
use crate::model::{Dewpoint, FetchError, Period, ProbabilityOfPrecipitation, RelativeHumidity};

verus! {

// ---------------------------------------------------------------------------
// Field readers: each mirrors what a strict decode accepts for one field
// ---------------------------------------------------------------------------

/// Member `k` of `j`, which must be a string.
pub open spec fn req_str(j: Json, k: Seq<char>) -> Option<String> {
    match j_get(j, k) {
        Some(Json::Str(s)) => Some(s),
        _ => None,
    }
}

/// Member `k` of `j`, which must be an integer numeral.
pub open spec fn req_i64(j: Json, k: Seq<char>) -> Option<i64> {
    match j_get(j, k) {
        Some(n) => match j_int(n) {
            Some(v) => Some(v as i64),
            None => None,
        },
        None => None,
    }
}

/// Member `k` of `j`, which must be a boolean.
pub open spec fn req_bool(j: Json, k: Seq<char>) -> Option<bool> {
    match j_get(j, k) {
        Some(n) => j_bool(n),
        None => None,
    }
}

/// Member `k` of `j`, which must be a number; its textual form.
pub open spec fn req_num_text(j: Json, k: Seq<char>) -> Option<String> {
    match j_get(j, k) {
        Some(Json::Num(t)) => Some(t),
        _ => None,
    }
}

/// Member `k` of `j` when the field is an optional string: absent or null
/// reads as nothing, anything but a string refuses the period.
pub open spec fn opt_str(j: Json, k: Seq<char>) -> Option<Option<String>> {
    match j_get(j, k) {
        None => Some(None),
        Some(Json::Null) => Some(None),
        Some(Json::Str(s)) => Some(Some(s)),
        Some(_) => None,
    }
}

/// Member `k` of `j` when the field is an optional integer.
pub open spec fn opt_i64(j: Json, k: Seq<char>) -> Option<Option<i64>> {
    match j_get(j, k) {
        None => Some(None),
        Some(Json::Null) => Some(None),
        Some(Json::Num(t)) => match j_int(Json::Num(t)) {
            Some(v) => Some(Some(v as i64)),
            None => None,
        },
        Some(_) => None,
    }
}

fn get_str(j: &Json, k: &str) -> (r: Option<String>)
    ensures
        match r {
            Some(s) => req_str(*j, k@) == Some(s),
            None => req_str(*j, k@) is None,
        },
{
    match j.get(k) {
        Some(node) => match node.as_str_node() {
            Some(s) => Some(s.clone()),
            None => None,
        },
        None => None,
    }
}

fn get_i64(j: &Json, k: &str) -> (r: Option<i64>)
    ensures
        r == req_i64(*j, k@),
{
    match j.get(k) {
        Some(node) => node.as_int_node(),
        None => None,
    }
}

fn get_bool(j: &Json, k: &str) -> (r: Option<bool>)
    ensures
        r == req_bool(*j, k@),
{
    match j.get(k) {
        Some(node) => node.as_bool_node(),
        None => None,
    }
}

fn get_num_text(j: &Json, k: &str) -> (r: Option<String>)
    ensures
        match r {
            Some(t) => req_num_text(*j, k@) == Some(t),
            None => req_num_text(*j, k@) is None,
        },
{
    match j.get(k) {
        Some(node) => match node.as_num_text() {
            Some(t) => Some(t.clone()),
            None => None,
        },
        None => None,
    }
}

fn get_opt_str(j: &Json, k: &str) -> (r: Option<Option<String>>)
    ensures
        match r {
            Some(s) => opt_str(*j, k@) == Some(s),
            None => opt_str(*j, k@) is None,
        },
{
    match j.get(k) {
        None => Some(None),
        Some(node) => match node {
            Json::Null => Some(None),
            Json::Str(s) => Some(Some(s.clone())),
            _ => None,
        },
    }
}

fn get_opt_i64(j: &Json, k: &str) -> (r: Option<Option<i64>>)
    ensures
        r == opt_i64(*j, k@),
{
    match j.get(k) {
        None => Some(None),
        Some(node) => match node {
            Json::Null => Some(None),
            Json::Num(_) => match node.as_int_node() {
                Some(v) => Some(Some(v)),
                None => None,
            },
            _ => None,
        },
    }
}

// ---------------------------------------------------------------------------
// One period
// ---------------------------------------------------------------------------

pub open spec fn dewpoint_of(j: Json) -> Option<Dewpoint> {
    match j_get(j, "dewpoint"@) {
        Some(d) => match (req_str(d, "unitCode"@), req_num_text(d, "value"@)) {
            (Some(u), Some(t)) => Some(Dewpoint { unit_code: u, value: t }),
            _ => None,
        },
        None => None,
    }
}

pub open spec fn humidity_of(j: Json) -> Option<RelativeHumidity> {
    match j_get(j, "relativeHumidity"@) {
        Some(d) => match (req_str(d, "unitCode"@), req_i64(d, "value"@)) {
            (Some(u), Some(v)) => Some(RelativeHumidity { unit_code: u, value: v }),
            _ => None,
        },
        None => None,
    }
}

pub open spec fn precipitation_of(j: Json) -> Option<ProbabilityOfPrecipitation> {
    match j_get(j, "probabilityOfPrecipitation"@) {
        Some(d) => match (req_str(d, "unitCode"@), opt_i64(d, "value"@)) {
            (Some(u), Some(v)) => Some(ProbabilityOfPrecipitation { unit_code: u, value: v }),
            _ => None,
        },
        None => None,
    }
}

/// What one element of the periods list means, or nothing when any field is
/// missing or of the wrong shape.
pub open spec fn period_of(j: Json) -> Option<Period> {
    match (req_str(j, "detailedForecast"@), dewpoint_of(j), req_str(j, "endTime"@), req_str(
        j,
        "icon"@,
    ), req_bool(j, "isDaytime"@), req_str(j, "name"@), req_i64(j, "number"@), precipitation_of(
        j,
    ), humidity_of(j), req_str(j, "shortForecast"@), req_str(j, "startTime"@), req_i64(
        j,
        "temperature"@,
    ), opt_str(j, "temperatureTrend"@), req_str(j, "temperatureUnit"@), req_str(
        j,
        "windDirection"@,
    ), req_str(j, "windSpeed"@)) {
        (
            Some(detailed_forecast),
            Some(dewpoint),
            Some(end_time),
            Some(icon),
            Some(is_daytime),
            Some(name),
            Some(number),
            Some(probability_of_precipitation),
            Some(relative_humidity),
            Some(short_forecast),
            Some(start_time),
            Some(temperature),
            Some(temperature_trend),
            Some(temperature_unit),
            Some(wind_direction),
            Some(wind_speed),
        ) => Some(
            Period {
                detailed_forecast,
                dewpoint,
                end_time,
                icon,
                is_daytime,
                name,
                number,
                probability_of_precipitation,
                relative_humidity,
                short_forecast,
                start_time,
                temperature,
                temperature_trend,
                temperature_unit,
                wind_direction,
                wind_speed,
            },
        ),
        _ => None,
    }
}

/// Reads one period, strictly.
pub fn parse_period(j: &Json) -> (r: Option<Period>)
    ensures
        match r {
            Some(p) => period_of(*j) == Some(p),
            None => period_of(*j) is None,
        },
{
    let detailed_forecast = match get_str(j, "detailedForecast") {
        Some(x) => x,
        None => {
            return None;
        },
    };
    let dp = match j.get("dewpoint") {
        Some(x) => x,
        None => {
            return None;
        },
    };
    let dp_unit = match get_str(dp, "unitCode") {
        Some(x) => x,
        None => {
            return None;
        },
    };
    let dp_value = match get_num_text(dp, "value") {
        Some(x) => x,
        None => {
            return None;
        },
    };
    let end_time = match get_str(j, "endTime") {
        Some(x) => x,
        None => {
            return None;
        },
    };
    let icon = match get_str(j, "icon") {
        Some(x) => x,
        None => {
            return None;
        },
    };
    let is_daytime = match get_bool(j, "isDaytime") {
        Some(x) => x,
        None => {
            return None;
        },
    };
    let name = match get_str(j, "name") {
        Some(x) => x,
        None => {
            return None;
        },
    };
    let number = match get_i64(j, "number") {
        Some(x) => x,
        None => {
            return None;
        },
    };
    let pp = match j.get("probabilityOfPrecipitation") {
        Some(x) => x,
        None => {
            return None;
        },
    };
    let pp_unit = match get_str(pp, "unitCode") {
        Some(x) => x,
        None => {
            return None;
        },
    };
    let pp_value = match get_opt_i64(pp, "value") {
        Some(x) => x,
        None => {
            return None;
        },
    };
    let rh = match j.get("relativeHumidity") {
        Some(x) => x,
        None => {
            return None;
        },
    };
    let rh_unit = match get_str(rh, "unitCode") {
        Some(x) => x,
        None => {
            return None;
        },
    };
    let rh_value = match get_i64(rh, "value") {
        Some(x) => x,
        None => {
            return None;
        },
    };
    let short_forecast = match get_str(j, "shortForecast") {
        Some(x) => x,
        None => {
            return None;
        },
    };
    let start_time = match get_str(j, "startTime") {
        Some(x) => x,
        None => {
            return None;
        },
    };
    let temperature = match get_i64(j, "temperature") {
        Some(x) => x,
        None => {
            return None;
        },
    };
    let temperature_trend = match get_opt_str(j, "temperatureTrend") {
        Some(x) => x,
        None => {
            return None;
        },
    };
    let temperature_unit = match get_str(j, "temperatureUnit") {
        Some(x) => x,
        None => {
            return None;
        },
    };
    let wind_direction = match get_str(j, "windDirection") {
        Some(x) => x,
        None => {
            return None;
        },
    };
    let wind_speed = match get_str(j, "windSpeed") {
        Some(x) => x,
        None => {
            return None;
        },
    };
    Some(
        Period {
            detailed_forecast,
            dewpoint: Dewpoint { unit_code: dp_unit, value: dp_value },
            end_time,
            icon,
            is_daytime,
            name,
            number,
            probability_of_precipitation: ProbabilityOfPrecipitation {
                unit_code: pp_unit,
                value: pp_value,
            },
            relative_humidity: RelativeHumidity { unit_code: rh_unit, value: rh_value },
            short_forecast,
            start_time,
            temperature,
            temperature_trend,
            temperature_unit,
            wind_direction,
            wind_speed,
        },
    )
}

// ---------------------------------------------------------------------------
// The ordered list
// ---------------------------------------------------------------------------

/// Every element read as a period, in order; nothing if any element refuses.
pub open spec fn periods_of_list(s: Seq<Json>) -> Option<Seq<Period>>
    decreases s.len(),
{
    if s.len() == 0 {
        Some(Seq::empty())
    } else {
        match periods_of_list(s.drop_last()) {
            Some(ps) => match period_of(s.last()) {
                Some(p) => Some(ps.push(p)),
                None => None,
            },
            None => None,
        }
    }
}

/// What the forecast response means: the non-empty `properties.periods`
/// array read strictly into periods, `Empty` when the array is missing,
/// malformed, or empty, `Decode` when some element refuses.
pub open spec fn periods_of(j: Json) -> Result<Seq<Period>, FetchError> {
    match j_get(j, "properties"@) {
        Some(p) => match j_get(p, "periods"@) {
            Some(Json::Arr(a)) => if a@.len() == 0 {
                Err(FetchError::Empty)
            } else {
                match periods_of_list(a@) {
                    Some(ps) => Ok(ps),
                    None => Err(FetchError::Decode),
                }
            },
            _ => Err(FetchError::Empty),
        },
        None => Err(FetchError::Empty),
    }
}

/// An empty `periods` array reads as the empty-fetch failure: the pipeline
/// then answers with it before any summarization.
pub proof fn lemma_empty_periods_fail(j: Json, props: Json, a: Vec<Json>)
    requires
        j_get(j, "properties"@) == Some(props),
        j_get(props, "periods"@) == Some(Json::Arr(a)),
        a@.len() == 0,
    ensures
        periods_of(j) == Err::<Seq<Period>, FetchError>(FetchError::Empty),
{
}

/// Reads the ordered period list out of a forecast response.
pub fn parse_periods(j: &Json) -> (r: Result<Vec<Period>, FetchError>)
    ensures
        match r {
            Ok(v) => periods_of(*j) == Ok::<Seq<Period>, FetchError>(v@),
            Err(e) => periods_of(*j) == Err::<Seq<Period>, FetchError>(e),
        },
{
    let p = match j.get("properties") {
        Some(x) => x,
        None => {
            return Err(FetchError::Empty);
        },
    };
    let ns = match p.get("periods") {
        Some(x) => x,
        None => {
            return Err(FetchError::Empty);
        },
    };
    let arr = match ns.as_arr_node() {
        Some(a) => a,
        None => {
            return Err(FetchError::Empty);
        },
    };
    let n = arr.len();
    if n == 0 {
        return Err(FetchError::Empty);
    }
    let mut out: Vec<Period> = Vec::new();
    let mut i: usize = 0;
    while i < n
        invariant
            i <= n == arr@.len(),
            out@.len() == i,
            periods_of_list(arr@.take(i as int)) == Some(out@),
            periods_of_list(arr@) is None ==> periods_of(*j) == Err::<
                Seq<Period>,
                FetchError,
            >(FetchError::Decode),
        decreases n - i,
    {
        let p = match parse_period(&arr[i]) {
            Some(p) => p,
            None => {
                proof {
                    lemma_periods_of_list_prefix_refuses(arr@, i as int);
                }
                return Err(FetchError::Decode);
            },
        };
        out.push(p);
        i = i + 1;
        proof {
            assert(arr@.take(i as int).drop_last() =~= arr@.take(i - 1));
            assert(arr@.take(i as int).last() == arr@[i - 1]);
        }
    }
    proof {
        assert(arr@.take(n as int) =~= arr@);
    }
    Ok(out)
}

/// Once one element refuses, the whole list refuses.
proof fn lemma_periods_of_list_prefix_refuses(s: Seq<Json>, i: int)
    requires
        0 <= i < s.len(),
        period_of(s[i]) is None,
    ensures
        periods_of_list(s) is None,
    decreases s.len(),
{
    if s.len() > 0 {
        if i == s.len() - 1 {
        } else {
            lemma_periods_of_list_prefix_refuses(s.drop_last(), i);
        }
    }
}

} // verus!
