//! The pipeline's data model: forecast periods, their simplified form, the
//! fixed few-shot record, coordinates, and the per-stage error kinds.

use vstd::prelude::*;
use vstd::string::StringExecFns;
use crate::text::{int_str, push_char, push_i64};

verus! {

/// Geographic coordinates in hundred-thousandths of a degree, the precision
/// the forecast-points lookup uses.
#[derive(Clone, Copy, PartialEq, Eq, Structural, Debug)]
pub struct Coordinates {
    pub latitude: i64,
    pub longitude: i64,
}

#[derive(Clone, Debug, PartialEq)]
pub struct Dewpoint {
    pub unit_code: String,
    /// The upstream value is a decimal numeral; it is carried in its textual
    /// form and never interpreted.
    pub value: String,
}

#[derive(Clone, Debug, PartialEq)]
pub struct ProbabilityOfPrecipitation {
    pub unit_code: String,
    pub value: Option<i64>,
}

#[derive(Clone, Debug, PartialEq)]
pub struct RelativeHumidity {
    pub unit_code: String,
    pub value: i64,
}

/// One forecast period as the forecast service reports it.
#[derive(Clone, Debug, PartialEq)]
pub struct Period {
    pub detailed_forecast: String,
    pub dewpoint: Dewpoint,
    pub end_time: String,
    pub icon: String,
    pub is_daytime: bool,
    pub name: String,
    pub number: i64,
    pub probability_of_precipitation: ProbabilityOfPrecipitation,
    pub relative_humidity: RelativeHumidity,
    pub short_forecast: String,
    pub start_time: String,
    pub temperature: i64,
    pub temperature_trend: Option<String>,
    pub temperature_unit: String,
    pub wind_direction: String,
    pub wind_speed: String,
}

/// The compact record serialized into the language-model prompt.
#[derive(Clone, Debug, PartialEq)]
pub struct SimplifiedForecastPeriod {
    pub detailed_forecast: String,
    pub end_time: String,
    pub name: String,
    pub relative_humidity: String,
    pub start_time: String,
    pub temperature: String,
    pub wind_speed: String,
}

/// One fixed calibration example for the language model: an input the model
/// could be shown and the output expected for it.
#[derive(Clone, Debug, PartialEq)]
pub struct NShotInOut {
    pub input: String,
    pub output: String,
}

// ---------------------------------------------------------------------------
// Error kinds, one per pipeline stage
// ---------------------------------------------------------------------------

#[derive(Clone, Copy, PartialEq, Eq, Structural, Debug)]
pub enum GeocodeError {
    /// The matches list is absent, empty, or malformed.
    NoMatch,
    /// The call failed or the body was not valid JSON.
    Transport,
}

#[derive(Clone, Copy, PartialEq, Eq, Structural, Debug)]
pub enum LocatorError {
    /// The forecast URL is missing or empty.
    NotFound,
    /// The call failed or the body was not valid JSON.
    Transport,
}

#[derive(Clone, Copy, PartialEq, Eq, Structural, Debug)]
pub enum FetchError {
    /// The periods list is missing or empty.
    Empty,
    /// The call failed or the body was not valid JSON.
    Transport,
    /// Some period does not conform to the expected schema.
    Decode,
}

// ---------------------------------------------------------------------------
// Simplification
// ---------------------------------------------------------------------------

/// `s` is the simplified form of `p`: the four texts copied through, and the
/// three composite fields formatted as `<int><unit>`, `<int>%`, and
/// `<speed> <direction>`.
pub open spec fn simplifies(p: Period, s: SimplifiedForecastPeriod) -> bool {
    &&& s.detailed_forecast@ == p.detailed_forecast@
    &&& s.end_time@ == p.end_time@
    &&& s.name@ == p.name@
    &&& s.start_time@ == p.start_time@
    &&& s.temperature@ == int_str(p.temperature as int) + p.temperature_unit@
    &&& s.relative_humidity@ == int_str(p.relative_humidity.value as int) + "%"@
    &&& s.wind_speed@ == p.wind_speed@ + " "@ + p.wind_direction@
}

/// Projects one verbose period into its compact, prompt-friendly record.
pub fn simplify_one(p: &Period) -> (r: SimplifiedForecastPeriod)
    ensures
        simplifies(*p, r),
{
    let mut temperature = String::new();
    push_i64(&mut temperature, p.temperature);
    let temperature = temperature.concat(p.temperature_unit.as_str());

    let mut relative_humidity = String::new();
    push_i64(&mut relative_humidity, p.relative_humidity.value);
    push_char(&mut relative_humidity, '%');

    let mut wind_speed = p.wind_speed.clone();
    push_char(&mut wind_speed, ' ');
    let wind_speed = wind_speed.concat(p.wind_direction.as_str());

    proof {
        reveal_strlit("%");
        reveal_strlit(" ");
        assert(relative_humidity@ =~= int_str(p.relative_humidity.value as int) + "%"@);
        assert(wind_speed@ =~= p.wind_speed@ + " "@ + p.wind_direction@);
    }
    SimplifiedForecastPeriod {
        detailed_forecast: p.detailed_forecast.clone(),
        end_time: p.end_time.clone(),
        name: p.name.clone(),
        relative_humidity,
        start_time: p.start_time.clone(),
        temperature,
        wind_speed,
    }
}

/// Formatting shape: in every simplified record the temperature is the
/// decimal image of the period's temperature followed at once by its unit,
/// the relative humidity is a decimal image followed by `%`, and the wind
/// speed is the period's speed, one space, and its direction.  The numeral
/// parts hold only digits and a possible leading minus sign, never
/// whitespace.
pub proof fn lemma_simplified_format(p: Period, s: SimplifiedForecastPeriod)
    requires
        simplifies(p, s),
    ensures
        s.temperature@ == int_str(p.temperature as int) + p.temperature_unit@,
        s.relative_humidity@ == int_str(p.relative_humidity.value as int) + "%"@,
        s.wind_speed@ == p.wind_speed@ + " "@ + p.wind_direction@,
        forall|i: int|
            0 <= i < int_str(p.temperature as int).len() ==> (int_str(p.temperature as int)[i]
                == '-' || crate::text::is_digit(int_str(p.temperature as int)[i])),
        forall|i: int|
            0 <= i < int_str(p.relative_humidity.value as int).len() ==> (int_str(
                p.relative_humidity.value as int,
            )[i] == '-' || crate::text::is_digit(int_str(p.relative_humidity.value as int)[i])),
{
    crate::text::lemma_int_str_shape(p.temperature as int);
    crate::text::lemma_int_str_shape(p.relative_humidity.value as int);
}

/// Simplifies every period, in order: the result has exactly one record per
/// period, and the record at each position simplifies the period there.
pub fn simplify(periods: &Vec<Period>) -> (r: Vec<SimplifiedForecastPeriod>)
    ensures
        r@.len() == periods@.len(),
        forall|k: int| 0 <= k < r@.len() ==> simplifies(periods@[k], #[trigger] r@[k]),
{
    let mut out: Vec<SimplifiedForecastPeriod> = Vec::new();
    let n = periods.len();
    let mut i: usize = 0;
    while i < n
        invariant
            i <= n == periods@.len(),
            out@.len() == i,
            forall|k: int| 0 <= k < i ==> simplifies(periods@[k], #[trigger] out@[k]),
        decreases n - i,
    {
        let s = simplify_one(&periods[i]);
        out.push(s);
        i = i + 1;
    }
    out
}

} // verus!
