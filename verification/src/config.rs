//! Process configuration: the raw values the environment supplies, checked
//! and parsed.  A missing or malformed value is a fatal startup condition;
//! the first one found, in declaration order, names the fault.

use vstd::prelude::*;
use vstd::string::StringExecFns;
use crate::text::{parse_u16_text, u16_of_text};

verus! {

#[derive(Debug)]
pub struct Config {
    pub log_level: String,
    pub api_host: String,
    pub api_port: u16,
    pub metrics_host: String,
    pub metrics_port: u16,
    pub ollama_host: String,
    pub ollama_port: u16,
    pub ollama_model: String,
}

impl Config {
    pub fn new(
        log_level: String,
        api_host: String,
        api_port: u16,
        metrics_host: String,
        metrics_port: u16,
        ollama_host: String,
        ollama_port: u16,
        ollama_model: String,
    ) -> (r: Config)
        ensures
            r.log_level == log_level,
            r.api_host == api_host,
            r.api_port == api_port,
            r.metrics_host == metrics_host,
            r.metrics_port == metrics_port,
            r.ollama_host == ollama_host,
            r.ollama_port == ollama_port,
            r.ollama_model == ollama_model,
    {
        Config {
            log_level,
            api_host,
            api_port,
            metrics_host,
            metrics_port,
            ollama_host,
            ollama_port,
            ollama_model,
        }
    }
}

/// What loading concludes from the eight raw values, in declaration order:
/// the first missing variable or unparsable port names the fault.
pub open spec fn load_spec(
    log_level: Option<String>,
    api_host: Option<String>,
    api_port: Option<String>,
    metrics_host: Option<String>,
    metrics_port: Option<String>,
    ollama_host: Option<String>,
    ollama_port: Option<String>,
    ollama_model: Option<String>,
) -> Result<Config, Seq<char>> {
    match log_level {
        None => Err("LOG_LEVEL is not set"@),
        Some(log_level) => match api_host {
            None => Err("API_HOST is not set"@),
            Some(api_host) => match api_port {
                None => Err("API_PORT is not set"@),
                Some(ap) => match u16_of_text(ap@) {
                    None => Err(ap@ + " is not a valid u16"@),
                    Some(api_port) => match metrics_host {
                        None => Err("METRICS_HOST is not set"@),
                        Some(metrics_host) => match metrics_port {
                            None => Err("METRICS_PORT is not set"@),
                            Some(mp) => match u16_of_text(mp@) {
                                None => Err(mp@ + " is not a valid u16"@),
                                Some(metrics_port) => match ollama_host {
                                    None => Err("OLLAMA_HOST is not set"@),
                                    Some(ollama_host) => match ollama_port {
                                        None => Err("OLLAMA_PORT is not set"@),
                                        Some(op) => match u16_of_text(op@) {
                                            None => Err(op@ + " is not a valid u16"@),
                                            Some(ollama_port) => match ollama_model {
                                                None => Err("OLLAMA_MODEL is not set"@),
                                                Some(ollama_model) => Ok(
                                                    Config {
                                                        log_level,
                                                        api_host,
                                                        api_port,
                                                        metrics_host,
                                                        metrics_port,
                                                        ollama_host,
                                                        ollama_port,
                                                        ollama_model,
                                                    },
                                                ),
                                            },
                                        },
                                    },
                                },
                            },
                        },
                    },
                },
            },
        },
    }
}

/// Checks and parses the eight raw configuration values.  Succeeds exactly
/// when every value is present and every port parses; otherwise the message
/// names the first fault.
pub fn load(
    log_level: Option<String>,
    api_host: Option<String>,
    api_port: Option<String>,
    metrics_host: Option<String>,
    metrics_port: Option<String>,
    ollama_host: Option<String>,
    ollama_port: Option<String>,
    ollama_model: Option<String>,
) -> (r: Result<Config, String>)
    ensures
        match r {
            Ok(c) => load_spec(
                log_level,
                api_host,
                api_port,
                metrics_host,
                metrics_port,
                ollama_host,
                ollama_port,
                ollama_model,
            ) == Ok::<Config, Seq<char>>(c),
            Err(m) => (match load_spec(
                log_level,
                api_host,
                api_port,
                metrics_host,
                metrics_port,
                ollama_host,
                ollama_port,
                ollama_model,
            ) {
                Err(t) => m@ == t,
                Ok(_) => false,
            }),
        },
{
    let log_level = match log_level {
        Some(v) => v,
        None => {
            return Err(String::from_str("LOG_LEVEL is not set"));
        },
    };
    let api_host = match api_host {
        Some(v) => v,
        None => {
            return Err(String::from_str("API_HOST is not set"));
        },
    };
    let ap = match api_port {
        Some(v) => v,
        None => {
            return Err(String::from_str("API_PORT is not set"));
        },
    };
    let api_port = match parse_u16_text(ap.as_str()) {
        Some(v) => v,
        None => {
            return Err(ap.concat(" is not a valid u16"));
        },
    };
    let metrics_host = match metrics_host {
        Some(v) => v,
        None => {
            return Err(String::from_str("METRICS_HOST is not set"));
        },
    };
    let mp = match metrics_port {
        Some(v) => v,
        None => {
            return Err(String::from_str("METRICS_PORT is not set"));
        },
    };
    let metrics_port = match parse_u16_text(mp.as_str()) {
        Some(v) => v,
        None => {
            return Err(mp.concat(" is not a valid u16"));
        },
    };
    let ollama_host = match ollama_host {
        Some(v) => v,
        None => {
            return Err(String::from_str("OLLAMA_HOST is not set"));
        },
    };
    let op = match ollama_port {
        Some(v) => v,
        None => {
            return Err(String::from_str("OLLAMA_PORT is not set"));
        },
    };
    let ollama_port = match parse_u16_text(op.as_str()) {
        Some(v) => v,
        None => {
            return Err(op.concat(" is not a valid u16"));
        },
    };
    let ollama_model = match ollama_model {
        Some(v) => v,
        None => {
            return Err(String::from_str("OLLAMA_MODEL is not set"));
        },
    };
    Ok(
        Config::new(
            log_level,
            api_host,
            api_port,
            metrics_host,
            metrics_port,
            ollama_host,
            ollama_port,
            ollama_model,
        ),
    )
}

} // verus!
