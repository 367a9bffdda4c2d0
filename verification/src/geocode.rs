//! The geocoder client's computations: building the lookup URL and reading
//! coordinates out of the geocoding response.

use vstd::prelude::*;
use vstd::string::{StringExecFns, StringSliceAdditionalSpecFns};
use crate::json::{j_dec5, j_get, Json};
use crate::model::{Coordinates, GeocodeError};

verus! {

// ---------------------------------------------------------------------------
// URL construction
// ---------------------------------------------------------------------------

/// ASCII alphanumerics and `-`, `.`, `_`, `~`: the bytes percent-encoding
/// leaves as they are.
pub open spec fn unreserved(b: u8) -> bool {
    (48 <= b <= 57) || (65 <= b <= 90) || (97 <= b <= 122) || b == 45 || b == 46 || b == 95 || b
        == 126
}

pub open spec fn hex_upper(d: int) -> char {
    if d < 10 {
        ((48 + d) as u8) as char
    } else {
        ((55 + d) as u8) as char
    }
}

pub open spec fn enc_byte(b: u8) -> Seq<char> {
    if unreserved(b) {
        seq![b as char]
    } else {
        seq!['%', hex_upper(b as int / 16), hex_upper(b as int % 16)]
    }
}

/// Percent-encoding of a byte string, byte for byte.
pub open spec fn url_enc(bs: Seq<u8>) -> Seq<char>
    decreases bs.len(),
{
    if bs.len() == 0 {
        Seq::empty()
    } else {
        url_enc(bs.drop_last()) + enc_byte(bs.last())
    }
}

/// Relies on `urlencoding::encode`: percent-encodes every byte of the UTF-8
/// form except ASCII alphanumerics and `-`, `.`, `_`, `~`, with uppercase
/// hexadecimal digits.
#[verifier::external_body]
fn url_encode(s: &str) -> (r: String)
    ensures
        r@ == url_enc(s.spec_bytes()),
{
    urlencoding::encode(s).into_owned()
}

/// The geocoding lookup URL for an address's UTF-8 bytes.
pub open spec fn geocode_url_text(addr_bytes: Seq<u8>) -> Seq<char> {
    "https://geocoding.geo.census.gov/geocoder/locations/onelineaddress?address="@ + url_enc(
        addr_bytes,
    ) + "&benchmark=2020&format=json"@
}

/// Builds the geocoding lookup URL, percent-encoding the address.
pub fn geocode_url(address: &str) -> (r: String)
    ensures
        r@ == geocode_url_text(address.spec_bytes()),
{
    let u = String::from_str(
        "https://geocoding.geo.census.gov/geocoder/locations/onelineaddress?address=",
    );
    let u = u.concat(url_encode(address).as_str());
    let u = u.concat("&benchmark=2020&format=json");
    proof {
        assert(u@ =~= geocode_url_text(address.spec_bytes()));
    }
    u
}

// ---------------------------------------------------------------------------
// Response reading
// ---------------------------------------------------------------------------

/// Member `k` of `j` as a five-place fixed-point number.
pub open spec fn req_dec5(j: Json, k: Seq<char>) -> Option<int> {
    match j_get(j, k) {
        Some(n) => j_dec5(n),
        None => None,
    }
}

fn get_dec5(j: &Json, k: &str) -> (r: Option<i64>)
    ensures
        match r {
            Some(v) => req_dec5(*j, k@) == Some(v as int),
            None => req_dec5(*j, k@) is None,
        },
{
    match j.get(k) {
        Some(node) => node.as_dec5_node(),
        None => None,
    }
}

/// What the geocoding response means: the coordinates of the first address
/// match, latitude from its `y` and longitude from its `x`, in
/// hundred-thousandths of a degree; `NoMatch` when the matches list is
/// absent, empty, or malformed.
pub open spec fn coords_of(j: Json) -> Result<Coordinates, GeocodeError> {
    match j_get(j, "result"@) {
        Some(res) => match j_get(res, "addressMatches"@) {
            Some(Json::Arr(ms)) => if ms@.len() == 0 {
                Err(GeocodeError::NoMatch)
            } else {
                match j_get(ms@[0], "coordinates"@) {
                    Some(c) => match (req_dec5(c, "y"@), req_dec5(c, "x"@)) {
                        (Some(lat), Some(lon)) => Ok(
                            Coordinates { latitude: lat as i64, longitude: lon as i64 },
                        ),
                        _ => Err(GeocodeError::NoMatch),
                    },
                    None => Err(GeocodeError::NoMatch),
                }
            },
            _ => Err(GeocodeError::NoMatch),
        },
        None => Err(GeocodeError::NoMatch),
    }
}

/// A response with exactly one address match geocodes to that match's
/// reported values: latitude from its `y`, longitude from its `x`.
pub proof fn lemma_single_match_coords(
    j: Json,
    res: Json,
    ms: Vec<Json>,
    c: Json,
    lat: int,
    lon: int,
)
    requires
        j_get(j, "result"@) == Some(res),
        j_get(res, "addressMatches"@) == Some(Json::Arr(ms)),
        ms@.len() == 1,
        j_get(ms@[0], "coordinates"@) == Some(c),
        req_dec5(c, "y"@) == Some(lat),
        req_dec5(c, "x"@) == Some(lon),
    ensures
        coords_of(j) == Ok::<Coordinates, GeocodeError>(
            (Coordinates { latitude: lat as i64, longitude: lon as i64 }),
        ),
{
}

/// An empty `addressMatches` array geocodes to no match: the pipeline then
/// answers with the geocoding failure before any forecast lookup.
pub proof fn lemma_empty_matches_fail(j: Json, res: Json, ms: Vec<Json>)
    requires
        j_get(j, "result"@) == Some(res),
        j_get(res, "addressMatches"@) == Some(Json::Arr(ms)),
        ms@.len() == 0,
    ensures
        coords_of(j) == Err::<Coordinates, GeocodeError>(GeocodeError::NoMatch),
{
}

/// Reads the first address match's coordinates out of a geocoding response.
pub fn parse_geocode(j: &Json) -> (r: Result<Coordinates, GeocodeError>)
    ensures
        r == coords_of(*j),
{
    let res = match j.get("result") {
        Some(x) => x,
        None => {
            return Err(GeocodeError::NoMatch);
        },
    };
    let ms = match res.get("addressMatches") {
        Some(x) => x,
        None => {
            return Err(GeocodeError::NoMatch);
        },
    };
    let arr = match ms.as_arr_node() {
        Some(a) => a,
        None => {
            return Err(GeocodeError::NoMatch);
        },
    };
    if arr.len() == 0 {
        return Err(GeocodeError::NoMatch);
    }
    let c = match arr[0].get("coordinates") {
        Some(x) => x,
        None => {
            return Err(GeocodeError::NoMatch);
        },
    };
    let lat = match get_dec5(c, "y") {
        Some(v) => v,
        None => {
            return Err(GeocodeError::NoMatch);
        },
    };
    let lon = match get_dec5(c, "x") {
        Some(v) => v,
        None => {
            return Err(GeocodeError::NoMatch);
        },
    };
    Ok(Coordinates { latitude: lat, longitude: lon })
}

} // verus!
