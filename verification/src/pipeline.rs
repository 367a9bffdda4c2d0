//! The pipeline orchestrator: a state machine over one request.
//!
//! One request walks `AwaitingGeocode → AwaitingPoints → AwaitingPeriods →
//! AwaitingSummary → Responded`, short-circuiting to `Responded` on the
//! first failure.  The machine decides; its driver performs each returned
//! [`Action`] and feeds the observation back as an [`Event`].  The machine
//! itself holds only what outlives a request — the configured model name
//! and the call counter — while each request carries its own [`Stage`], so
//! requests can run concurrently and only `start` touches shared state.
//! The counter rises by exactly one per request, at entry, whatever the
//! outcome.

use vstd::prelude::*;
use vstd::string::StringExecFns;
use vstd::utf8::encode_utf8;
use crate::geocode::{coords_of, geocode_url, geocode_url_text, parse_geocode};
use crate::json::{json_parse, parse_json, Json};
use crate::model::{simplify, Coordinates, FetchError, GeocodeError, LocatorError, Period};
use crate::payload::{lemma_payload_of_simplified, periods_payload_json, simplified_to_json};
use crate::periods::{parse_periods, periods_of};
use crate::points::{forecast_url_of, parse_points, point_url, point_url_text};
use crate::summarize::{build_messages, four_messages, ChatMsg};

verus! {

/// Where one request stands.
#[derive(Clone, Copy, PartialEq, Eq, Structural, Debug)]
pub enum Stage {
    AwaitingGeocode,
    AwaitingPoints,
    AwaitingPeriods,
    AwaitingSummary,
    Responded,
}

/// What the pipeline asks its driver to do next.
pub enum Action {
    /// Issue a GET; `nws_headers` asks for the geojson content type and the
    /// descriptive user agent the weather service's usage policy requires.
    Get { url: String, nws_headers: bool },
    /// Send the conversation to the chat service; `json_format` asks the
    /// model for JSON-formatted output, and is asked on every request.
    Chat { model: String, messages: Vec<ChatMsg>, json_format: bool },
    /// Answer the caller: the summary, or a short plain-text reason.
    Respond { result: Result<String, String> },
}

/// What the driver observed.
pub enum Event {
    /// The response body of the last GET, or nothing on transport failure.
    Response(Option<String>),
    /// The chat service's message content, or nothing when the call failed
    /// or returned no message.
    Summary(Option<String>),
}

/// The body a GET handed back, parsed as JSON; transport failure and an
/// unparsable body come to the same nothing.
pub open spec fn parsed_body(body: Option<String>) -> Option<Json> {
    match body {
        Some(s) => json_parse(s@),
        None => None,
    }
}

/// What the geocoding stage concludes from what came back.
pub open spec fn geocode_outcome(body: Option<String>) -> Result<Coordinates, GeocodeError> {
    match parsed_body(body) {
        Some(j) => coords_of(j),
        None => Err(GeocodeError::Transport),
    }
}

/// What the locator stage concludes from what came back.
pub open spec fn points_outcome(body: Option<String>) -> Result<String, LocatorError> {
    match parsed_body(body) {
        Some(j) => forecast_url_of(j),
        None => Err(LocatorError::Transport),
    }
}

/// What the fetch stage concludes from what came back.
pub open spec fn periods_outcome(body: Option<String>) -> Result<Seq<Period>, FetchError> {
    match parsed_body(body) {
        Some(j) => periods_of(j),
        None => Err(FetchError::Transport),
    }
}

/// The forecast endpoint's shared state: the configured model name and the
/// process-wide call counter.  Nothing here is request-scoped.
pub struct ForecastPipeline {
    pub ollama_model: String,
    pub calls: u64,
}

impl ForecastPipeline {
    pub fn new(ollama_model: String) -> (r: ForecastPipeline)
        ensures
            r.ollama_model == ollama_model,
            r.calls == 0,
    {
        ForecastPipeline { ollama_model, calls: 0 }
    }

    /// Begins one request.  The counter rises by exactly one, failed
    /// requests included; no other step moves it.  A missing address
    /// answers at once, before any outside call; otherwise the first action
    /// is the geocoding GET.
    pub fn start(&mut self, address: Option<String>) -> (r: (Stage, Action))
        requires
            old(self).calls < u64::MAX,
        ensures
            final(self).calls == old(self).calls + 1,
            final(self).ollama_model == old(self).ollama_model,
            match address {
                None => ({
                    &&& r.1 matches Action::Respond { result } && result matches Err(m) && m@
                        == "address parameter is required"@
                    &&& r.0 == Stage::Responded
                }),
                Some(addr) => ({
                    &&& r.1 matches Action::Get { url, nws_headers } && url@ == geocode_url_text(
                        encode_utf8(addr@),
                    ) && nws_headers == false
                    &&& r.0 == Stage::AwaitingGeocode
                }),
            },
    {
        self.calls = self.calls + 1;
        match address {
            None => (
                Stage::Responded,
                Action::Respond { result: Err(String::from_str("address parameter is required")) },
            ),
            Some(addr) => (
                Stage::AwaitingGeocode,
                Action::Get { url: geocode_url(addr.as_str()), nws_headers: false },
            ),
        }
    }

    /// Advances one request by one stage on what the driver observed.
    /// Every failure responds at once with its stage's generic reason and
    /// ends the request; the shared state never changes here.
    pub fn on_event(&self, stage: Stage, ev: Event) -> (r: (Stage, Action))
        requires
            match stage {
                Stage::AwaitingGeocode | Stage::AwaitingPoints | Stage::AwaitingPeriods => ev
                    is Response,
                Stage::AwaitingSummary => ev is Summary,
                Stage::Responded => false,
            },
        ensures
            match stage {
                Stage::AwaitingGeocode => match ev {
                    Event::Response(body) => match geocode_outcome(body) {
                        Ok(c) => ({
                            &&& r.1 matches Action::Get { url, nws_headers } && url@
                                == point_url_text(c) && nws_headers == true
                            &&& r.0 == Stage::AwaitingPoints
                        }),
                        Err(_) => ({
                            &&& r.1 matches Action::Respond { result } && result matches Err(m)
                                && m@ == "error geocoding address"@
                            &&& r.0 == Stage::Responded
                        }),
                    },
                    _ => false,
                },
                Stage::AwaitingPoints => match ev {
                    Event::Response(body) => match points_outcome(body) {
                        Ok(u) => ({
                            &&& r.1 matches Action::Get { url, nws_headers } && url == u
                                && nws_headers == true
                            &&& r.0 == Stage::AwaitingPeriods
                        }),
                        Err(_) => ({
                            &&& r.1 matches Action::Respond { result } && result matches Err(m)
                                && m@ == "error getting forecast URL"@
                            &&& r.0 == Stage::Responded
                        }),
                    },
                    _ => false,
                },
                Stage::AwaitingPeriods => match ev {
                    Event::Response(body) => match periods_outcome(body) {
                        Ok(ps) => ({
                            &&& r.1 matches Action::Chat { model, messages, json_format } && model
                                == self.ollama_model && four_messages(
                                messages@,
                                periods_payload_json(ps),
                            ) && json_format == true
                            &&& r.0 == Stage::AwaitingSummary
                        }),
                        Err(_) => ({
                            &&& r.1 matches Action::Respond { result } && result matches Err(m)
                                && m@ == "error getting forecast periods"@
                            &&& r.0 == Stage::Responded
                        }),
                    },
                    _ => false,
                },
                Stage::AwaitingSummary => match ev {
                    Event::Summary(content) => match content {
                        Some(text) => ({
                            &&& r.1 matches Action::Respond { result } && result matches Ok(t)
                                && t == text
                            &&& r.0 == Stage::Responded
                        }),
                        None => ({
                            &&& r.1 matches Action::Respond { result } && result matches Err(m)
                                && m@ == "error summarizing forecast"@
                            &&& r.0 == Stage::Responded
                        }),
                    },
                    _ => false,
                },
                Stage::Responded => false,
            },
    {
        match stage {
            Stage::AwaitingGeocode => match ev {
                Event::Response(body) => {
                    let doc = match body {
                        Some(s) => parse_json(s.as_str()),
                        None => None,
                    };
                    let coords = match doc {
                        Some(j) => parse_geocode(&j),
                        None => Err(GeocodeError::Transport),
                    };
                    match coords {
                        Ok(c) => (
                            Stage::AwaitingPoints,
                            Action::Get { url: point_url(&c), nws_headers: true },
                        ),
                        Err(_) => (
                            Stage::Responded,
                            Action::Respond {
                                result: Err(String::from_str("error geocoding address")),
                            },
                        ),
                    }
                },
                Event::Summary(_) => {
                    proof {
                        assert(false);
                    }
                    (Stage::Responded, Action::Respond { result: Err(String::new()) })
                },
            },
            Stage::AwaitingPoints => match ev {
                Event::Response(body) => {
                    let doc = match body {
                        Some(s) => parse_json(s.as_str()),
                        None => None,
                    };
                    let found = match doc {
                        Some(j) => parse_points(&j),
                        None => Err(LocatorError::Transport),
                    };
                    match found {
                        Ok(u) => (
                            Stage::AwaitingPeriods,
                            Action::Get { url: u, nws_headers: true },
                        ),
                        Err(_) => (
                            Stage::Responded,
                            Action::Respond {
                                result: Err(String::from_str("error getting forecast URL")),
                            },
                        ),
                    }
                },
                Event::Summary(_) => {
                    proof {
                        assert(false);
                    }
                    (Stage::Responded, Action::Respond { result: Err(String::new()) })
                },
            },
            Stage::AwaitingPeriods => match ev {
                Event::Response(body) => {
                    let doc = match body {
                        Some(s) => parse_json(s.as_str()),
                        None => None,
                    };
                    let fetched = match doc {
                        Some(j) => parse_periods(&j),
                        None => Err(FetchError::Transport),
                    };
                    match fetched {
                        Ok(periods) => {
                            let simplified = simplify(&periods);
                            let payload = simplified_to_json(&simplified);
                            proof {
                                lemma_payload_of_simplified(periods@, simplified@);
                            }
                            let messages = build_messages(payload);
                            (
                                Stage::AwaitingSummary,
                                Action::Chat {
                                    model: self.ollama_model.clone(),
                                    messages,
                                    json_format: true,
                                },
                            )
                        },
                        Err(_) => (
                            Stage::Responded,
                            Action::Respond {
                                result: Err(String::from_str("error getting forecast periods")),
                            },
                        ),
                    }
                },
                Event::Summary(_) => {
                    proof {
                        assert(false);
                    }
                    (Stage::Responded, Action::Respond { result: Err(String::new()) })
                },
            },
            Stage::AwaitingSummary => match ev {
                Event::Summary(content) => match content {
                    Some(text) => (Stage::Responded, Action::Respond { result: Ok(text) }),
                    None => (
                        Stage::Responded,
                        Action::Respond {
                            result: Err(String::from_str("error summarizing forecast")),
                        },
                    ),
                },
                Event::Response(_) => {
                    proof {
                        assert(false);
                    }
                    (Stage::Responded, Action::Respond { result: Err(String::new()) })
                },
            },
            Stage::Responded => {
                proof {
                    assert(false);
                }
                (Stage::Responded, Action::Respond { result: Err(String::new()) })
            },
        }
    }
}

} // verus!
