//! The forecast locator's computations: building the points URL from
//! coordinates and reading the forecast-resource URL out of the response.

use vstd::prelude::*;
use vstd::string::StringExecFns;
use crate::json::{j_get, Json};
use crate::model::{Coordinates, LocatorError};
use crate::text::{dec_str, frac5_str, push_char, push_frac5, push_u64};

verus! {

// ---------------------------------------------------------------------------
// URL construction
// ---------------------------------------------------------------------------

/// Decimal image of a fixed-point value in hundred-thousandths, printed with
/// exactly five decimal places.
pub open spec fn fmt5(v: int) -> Seq<char> {
    if v < 0 {
        seq!['-'] + fmt5_mag(-v)
    } else {
        fmt5_mag(v)
    }
}

pub open spec fn fmt5_mag(u: int) -> Seq<char> {
    dec_str(u / 100000) + seq!['.'] + frac5_str(u % 100000)
}

fn push_fmt5_mag(s: &mut String, v: u64)
    ensures
        final(s)@ == old(s)@ + fmt5_mag(v as int),
{
    push_u64(s, v / 100000);
    push_char(s, '.');
    push_frac5(s, v % 100000);
    proof {
        assert(final(s)@ =~= old(s)@ + fmt5_mag(v as int));
    }
}

fn push_fmt5(s: &mut String, v: i64)
    ensures
        final(s)@ == old(s)@ + fmt5(v as int),
{
    if v < 0 {
        push_char(s, '-');
        let m: u64 = (-(v as i128)) as u64;
        push_fmt5_mag(s, m);
        proof {
            assert(final(s)@ =~= old(s)@ + fmt5(v as int));
        }
    } else {
        push_fmt5_mag(s, v as u64);
    }
}

/// The points lookup URL: latitude and longitude to five decimal places,
/// separated by a comma.
pub open spec fn point_url_text(c: Coordinates) -> Seq<char> {
    "https://api.weather.gov/points/"@ + fmt5(c.latitude as int) + seq![','] + fmt5(
        c.longitude as int,
    )
}

/// Builds the points lookup URL for a coordinate pair.
pub fn point_url(c: &Coordinates) -> (r: String)
    ensures
        r@ == point_url_text(*c),
{
    let mut u = String::from_str("https://api.weather.gov/points/");
    push_fmt5(&mut u, c.latitude);
    push_char(&mut u, ',');
    push_fmt5(&mut u, c.longitude);
    proof {
        assert(u@ =~= point_url_text(*c));
    }
    u
}

// ---------------------------------------------------------------------------
// Response reading
// ---------------------------------------------------------------------------

/// What the points response means: the non-empty `properties.forecast`
/// string, or `NotFound` when it is missing, not a string, or empty.
pub open spec fn forecast_url_of(j: Json) -> Result<String, LocatorError> {
    match j_get(j, "properties"@) {
        Some(p) => match j_get(p, "forecast"@) {
            Some(Json::Str(u)) => if u@.len() > 0 {
                Ok(u)
            } else {
                Err(LocatorError::NotFound)
            },
            _ => Err(LocatorError::NotFound),
        },
        None => Err(LocatorError::NotFound),
    }
}

/// Reads the forecast-resource URL out of a points response.
pub fn parse_points(j: &Json) -> (r: Result<String, LocatorError>)
    ensures
        r == forecast_url_of(*j),
{
    let p = match j.get("properties") {
        Some(x) => x,
        None => {
            return Err(LocatorError::NotFound);
        },
    };
    let f = match p.get("forecast") {
        Some(x) => x,
        None => {
            return Err(LocatorError::NotFound);
        },
    };
    let u = match f.as_str_node() {
        Some(s) => s,
        None => {
            return Err(LocatorError::NotFound);
        },
    };
    if u.as_str().is_empty() {
        return Err(LocatorError::NotFound);
    }
    Ok(u.clone())
}

} // verus!
