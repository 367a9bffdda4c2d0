//! Serializing the simplified periods into the JSON payload the prompt
//! embeds: compact, members in field order, strings escaped.

use vstd::prelude::*;
use vstd::string::StringExecFns;
use crate::model::{simplifies, Period, SimplifiedForecastPeriod};
use crate::text::{int_str, push_char};

verus! {

pub open spec fn hex_lower(d: int) -> char {
    if d < 10 {
        ((48 + d) as u8) as char
    } else {
        ((87 + d) as u8) as char
    }
}

/// The escape of one character inside a JSON string: quote and backslash
/// escaped, the five short control escapes, other control characters in
/// `\u00..` form, everything else as it is.
pub open spec fn esc_char(c: char) -> Seq<char> {
    if c == '"' {
        seq!['\\', '"']
    } else if c == '\\' {
        seq!['\\', '\\']
    } else if c == '\u{8}' {
        seq!['\\', 'b']
    } else if c == '\t' {
        seq!['\\', 't']
    } else if c == '\n' {
        seq!['\\', 'n']
    } else if c == '\u{c}' {
        seq!['\\', 'f']
    } else if c == '\r' {
        seq!['\\', 'r']
    } else if (c as u32) < 32 {
        seq!['\\', 'u', '0', '0', hex_lower(c as u32 as int / 16), hex_lower(c as u32 as int % 16)]
    } else {
        seq![c]
    }
}

pub open spec fn esc_str(s: Seq<char>) -> Seq<char>
    decreases s.len(),
{
    if s.len() == 0 {
        Seq::empty()
    } else {
        esc_str(s.drop_last()) + esc_char(s.last())
    }
}

/// Appends the escaped form of `s`.
fn push_escaped(out: &mut String, s: &str)
    ensures
        final(out)@ == old(out)@ + esc_str(s@),
{
    let n = s.unicode_len();
    let mut i: usize = 0;
    proof {
        assert(old(out)@ + esc_str(s@.take(0)) =~= old(out)@);
    }
    while i < n
        invariant
            i <= n == s@.len(),
            out@ == old(out)@ + esc_str(s@.take(i as int)),
        decreases n - i,
    {
        let c = s.get_char(i);
        if c == '"' {
            push_char(out, '\\');
            push_char(out, '"');
        } else if c == '\\' {
            push_char(out, '\\');
            push_char(out, '\\');
        } else if c == '\u{8}' {
            push_char(out, '\\');
            push_char(out, 'b');
        } else if c == '\t' {
            push_char(out, '\\');
            push_char(out, 't');
        } else if c == '\n' {
            push_char(out, '\\');
            push_char(out, 'n');
        } else if c == '\u{c}' {
            push_char(out, '\\');
            push_char(out, 'f');
        } else if c == '\r' {
            push_char(out, '\\');
            push_char(out, 'r');
        } else if (c as u32) < 32 {
            let v = c as u32;
            push_char(out, '\\');
            push_char(out, 'u');
            push_char(out, '0');
            push_char(out, '0');
            let hi = (v / 16) as u8;
            let lo = (v % 16) as u8;
            push_char(
                out,
                if hi < 10 {
                    (48 + hi) as char
                } else {
                    (87 + hi) as char
                },
            );
            push_char(
                out,
                if lo < 10 {
                    (48 + lo) as char
                } else {
                    (87 + lo) as char
                },
            );
        } else {
            push_char(out, c);
        }
        i = i + 1;
        proof {
            assert(s@.take(i as int).drop_last() =~= s@.take(i - 1));
            assert(s@.take(i as int).last() == s@[i - 1]);
            assert(out@ =~= old(out)@ + esc_str(s@.take(i as int)));
        }
    }
    proof {
        assert(s@.take(n as int) =~= s@);
    }
}

/// The JSON object text for seven member values, in field order, every
/// value an escaped string.
#[verifier::opaque]
pub open spec fn sfp_json_fields(
    detailed_forecast: Seq<char>,
    end_time: Seq<char>,
    name: Seq<char>,
    relative_humidity: Seq<char>,
    start_time: Seq<char>,
    temperature: Seq<char>,
    wind_speed: Seq<char>,
) -> Seq<char> {
    "{\"detailed_forecast\":\""@ + esc_str(detailed_forecast) + "\",\"end_time\":\""@ + esc_str(
        end_time,
    ) + "\",\"name\":\""@ + esc_str(name) + "\",\"relative_humidity\":\""@ + esc_str(
        relative_humidity,
    ) + "\",\"start_time\":\""@ + esc_str(start_time) + "\",\"temperature\":\""@ + esc_str(
        temperature,
    ) + "\",\"wind_speed\":\""@ + esc_str(wind_speed) + "\"}"@
}

/// The JSON object for one simplified period.
pub open spec fn sfp_json(p: SimplifiedForecastPeriod) -> Seq<char> {
    sfp_json_fields(
        p.detailed_forecast@,
        p.end_time@,
        p.name@,
        p.relative_humidity@,
        p.start_time@,
        p.temperature@,
        p.wind_speed@,
    )
}

fn push_sfp(out: &mut String, p: &SimplifiedForecastPeriod)
    ensures
        final(out)@ == old(out)@ + sfp_json(*p),
{
    out.append("{\"detailed_forecast\":\"");
    push_escaped(out, p.detailed_forecast.as_str());
    out.append("\",\"end_time\":\"");
    push_escaped(out, p.end_time.as_str());
    out.append("\",\"name\":\"");
    push_escaped(out, p.name.as_str());
    out.append("\",\"relative_humidity\":\"");
    push_escaped(out, p.relative_humidity.as_str());
    out.append("\",\"start_time\":\"");
    push_escaped(out, p.start_time.as_str());
    out.append("\",\"temperature\":\"");
    push_escaped(out, p.temperature.as_str());
    out.append("\",\"wind_speed\":\"");
    push_escaped(out, p.wind_speed.as_str());
    out.append("\"}");
    proof {
        reveal(sfp_json_fields);
        assert(final(out)@ =~= old(out)@ + sfp_json(*p));
    }
}

/// The JSON list body: objects separated by commas.
pub open spec fn sfp_list_json(s: Seq<SimplifiedForecastPeriod>) -> Seq<char>
    decreases s.len(),
{
    if s.len() == 0 {
        Seq::empty()
    } else if s.len() == 1 {
        sfp_json(s[0])
    } else {
        sfp_list_json(s.drop_last()) + seq![','] + sfp_json(s.last())
    }
}

/// The JSON array for a simplified period sequence.
pub open spec fn sfp_array_json(s: Seq<SimplifiedForecastPeriod>) -> Seq<char> {
    seq!['['] + sfp_list_json(s) + seq![']']
}

/// Serializes the simplified periods, in order, into the prompt payload.
pub fn simplified_to_json(v: &Vec<SimplifiedForecastPeriod>) -> (r: String)
    ensures
        r@ == sfp_array_json(v@),
{
    let mut out = String::from_str("[");
    proof {
        reveal_strlit("[");
        reveal_strlit("]");
        assert(out@ =~= seq!['['] + sfp_list_json(v@.take(0)));
    }
    let n = v.len();
    let mut i: usize = 0;
    while i < n
        invariant
            i <= n == v@.len(),
            out@ == seq!['['] + sfp_list_json(v@.take(i as int)),
        decreases n - i,
    {
        if i > 0 {
            push_char(&mut out, ',');
        }
        push_sfp(&mut out, &v[i]);
        i = i + 1;
        proof {
            assert(v@.take(i as int).drop_last() =~= v@.take(i - 1));
            assert(v@.take(i as int).last() == v@[i - 1]);
            if i == 1 {
                assert(v@.take(1)[0] == v@[0]);
            }
            assert(out@ =~= seq!['['] + sfp_list_json(v@.take(i as int)));
        }
    }
    push_char(&mut out, ']');
    proof {
        reveal_strlit("]");
        assert(v@.take(n as int) =~= v@);
        assert(out@ =~= sfp_array_json(v@));
    }
    out
}

// ---------------------------------------------------------------------------
// The payload, stated over the raw periods
// ---------------------------------------------------------------------------

/// The JSON object a period contributes to the payload: its simplified
/// fields, composed directly from the period.
pub open spec fn period_payload_json(p: Period) -> Seq<char> {
    sfp_json_fields(
        p.detailed_forecast@,
        p.end_time@,
        p.name@,
        int_str(p.relative_humidity.value as int) + "%"@,
        p.start_time@,
        int_str(p.temperature as int) + p.temperature_unit@,
        p.wind_speed@ + " "@ + p.wind_direction@,
    )
}

pub open spec fn period_payload_list_json(s: Seq<Period>) -> Seq<char>
    decreases s.len(),
{
    if s.len() == 0 {
        Seq::empty()
    } else if s.len() == 1 {
        period_payload_json(s[0])
    } else {
        period_payload_list_json(s.drop_last()) + seq![','] + period_payload_json(s.last())
    }
}

/// The whole prompt payload for a period sequence: the JSON array of the
/// simplified periods, in order.
pub open spec fn periods_payload_json(s: Seq<Period>) -> Seq<char> {
    seq!['['] + period_payload_list_json(s) + seq![']']
}

/// A record that simplifies a period serializes to exactly the object that
/// period contributes to the payload.
pub proof fn lemma_payload_of_one(p: Period, s: SimplifiedForecastPeriod)
    requires
        simplifies(p, s),
    ensures
        sfp_json(s) == period_payload_json(p),
{
}

proof fn lemma_payload_list(ps: Seq<Period>, ss: Seq<SimplifiedForecastPeriod>)
    requires
        ss.len() == ps.len(),
        forall|k: int| 0 <= k < ps.len() ==> simplifies(ps[k], #[trigger] ss[k]),
    ensures
        sfp_list_json(ss) == period_payload_list_json(ps),
    decreases ps.len(),
{
    if ps.len() > 0 {
        assert(forall|k: int|
            0 <= k < ps.len() - 1 ==> simplifies(ps.drop_last()[k], #[trigger] ss.drop_last()[k]));
        lemma_payload_list(ps.drop_last(), ss.drop_last());
        lemma_payload_of_one(ps.last(), ss.last());
        if ps.len() == 1 {
            lemma_payload_of_one(ps[0], ss[0]);
        }
    }
}

/// Serializing the simplified records of a period sequence gives exactly
/// the payload stated over the raw periods.
pub proof fn lemma_payload_of_simplified(ps: Seq<Period>, ss: Seq<SimplifiedForecastPeriod>)
    requires
        ss.len() == ps.len(),
        forall|k: int| 0 <= k < ps.len() ==> simplifies(ps[k], #[trigger] ss[k]),
    ensures
        sfp_array_json(ss) == periods_payload_json(ps),
{
    lemma_payload_list(ps, ss);
}

} // verus!
