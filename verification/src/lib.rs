//! A verified core for a weather-forecast summarizing service.
//!
//! The library turns a postal address into the exact sequence of outside
//! requests a forecast summary needs: a geocoding lookup, a forecast-resource
//! lookup, the forecast itself, and finally a chat-completion request whose
//! prompt embeds the simplified forecast.  All data transformation between
//! those stages -- URL construction, response navigation, period
//! simplification, prompt construction, and error propagation -- is verified.
//! The surrounding process performs the actual I/O and feeds each response
//! back into the pipeline state machine.

pub mod config;
pub mod geocode;
pub mod json;
pub mod model;
pub mod payload;
pub mod periods;
pub mod pipeline;
pub mod points;
pub mod summarize;
pub mod text;

use vstd::prelude::*;

verus! {

/// Body served by the identification route at the root of the HTTP surface.
pub fn root_body() -> (r: &'static str)
    ensures
        r@ == "nws-forecast-summarizer"@,
{
    "nws-forecast-summarizer"
}

} // verus!
