//! The summarizer's fixed prompt material and the four-message
//! conversation sent to the chat service.

use vstd::prelude::*;
use vstd::string::StringExecFns;
use crate::model::NShotInOut;

verus! {

/// The fixed system instruction describing the summarization task.
pub const SYSTEM_PROMPT: &'static str = "
    You are a tool that can provide concise summaries of weather forecasts.
    Input is a JSON array with one entry per forecast period.
    Output is a JSON object with the key \"summary\" containing the overall forecast in at most four sentences.
    Each entry contains relavant weather information including a detailed text forecast.
    Do not include any information that is not present in the input.
    Do not comment twice on the same weather condition.
    Focus mainly on the daytime periods.
    Avoid editorializing or making assumptions.
    Make the output sound like a human wrote it, with concise but friendly language and complete sentences.
    ";

/// The fixed few-shot user message: a literal week of sample forecast data.
pub const FEW_SHOT_INPUT: &'static str = "[{\"name\": \"Tonight\", \"start_time\": \"2024-06-08T20:00:00-07:00\", \"end_time\": \"2024-06-09T06:00:00-07:00\", \"temperature\": \"54F\", \"detailed_forecast\": \"Mostly cloudy, with a low around 54. East wind around 2 mph.\", \"relative_humidity\": \"80%\", \"wind_speed\": \"2 mph E\"}, {\"name\": \"Sunday\", \"start_time\": \"2024-06-09T06:00:00-07:00\", \"end_time\": \"2024-06-09T18:00:00-07:00\", \"temperature\": \"74F\", \"detailed_forecast\": \"Mostly sunny. High near 74, with temperatures falling to around 72 in the afternoon. Southwest wind 1 to 6 mph.\", \"relative_humidity\": \"79%\", \"wind_speed\": \"1 to 6 mph SW\"}, {\"name\": \"Sunday Night\", \"start_time\": \"2024-06-09T18:00:00-07:00\", \"end_time\": \"2024-06-10T06:00:00-07:00\", \"temperature\": \"51F\", \"detailed_forecast\": \"Mostly cloudy, with a low around 51. West wind 2 to 6 mph.\", \"relative_humidity\": \"85%\", \"wind_speed\": \"2 to 6 mph W\"}, {\"name\": \"Monday\", \"start_time\": \"2024-06-10T06:00:00-07:00\", \"end_time\": \"2024-06-10T18:00:00-07:00\", \"temperature\": \"71F\", \"detailed_forecast\": \"Mostly sunny, with a high near 71. Southwest wind around 3 mph.\", \"relative_humidity\": \"84%\", \"wind_speed\": \"3 mph SW\"}, {\"name\": \"Monday Night\", \"start_time\": \"2024-06-10T18:00:00-07:00\", \"end_time\": \"2024-06-11T06:00:00-07:00\", \"temperature\": \"52F\", \"detailed_forecast\": \"Partly cloudy, with a low around 52. North wind around 3 mph.\", \"relative_humidity\": \"80%\", \"wind_speed\": \"3 mph N\"}, {\"name\": \"Tuesday\", \"start_time\": \"2024-06-11T06:00:00-07:00\", \"end_time\": \"2024-06-11T18:00:00-07:00\", \"temperature\": \"69F\", \"detailed_forecast\": \"Partly sunny, with a high near 69.\", \"relative_humidity\": \"79%\", \"wind_speed\": \"2 to 7 mph SSW\"}, {\"name\": \"Tuesday Night\", \"start_time\": \"2024-06-11T18:00:00-07:00\", \"end_time\": \"2024-06-12T06:00:00-07:00\", \"temperature\": \"50F\", \"detailed_forecast\": \"Mostly cloudy, with a low around 50.\", \"relative_humidity\": \"83%\", \"wind_speed\": \"2 to 7 mph N\"}, {\"name\": \"Wednesday\", \"start_time\": \"2024-06-12T06:00:00-07:00\", \"end_time\": \"2024-06-12T18:00:00-07:00\", \"temperature\": \"67F\", \"detailed_forecast\": \"Mostly sunny, with a high near 67.\", \"relative_humidity\": \"82%\", \"wind_speed\": \"2 to 7 mph NNW\"}, {\"name\": \"Wednesday Night\", \"start_time\": \"2024-06-12T18:00:00-07:00\", \"end_time\": \"2024-06-13T06:00:00-07:00\", \"temperature\": \"47F\", \"detailed_forecast\": \"Mostly clear, with a low around 47.\", \"relative_humidity\": \"86%\", \"wind_speed\": \"1 to 7 mph N\"}, {\"name\": \"Thursday\", \"start_time\": \"2024-06-13T06:00:00-07:00\", \"end_time\": \"2024-06-13T18:00:00-07:00\", \"temperature\": \"69F\", \"detailed_forecast\": \"Mostly sunny, with a high near 69.\", \"relative_humidity\": \"84%\", \"wind_speed\": \"1 to 7 mph N\"}, {\"name\": \"Thursday Night\", \"start_time\": \"2024-06-13T18:00:00-07:00\", \"end_time\": \"2024-06-14T06:00:00-07:00\", \"temperature\": \"49F\", \"detailed_forecast\": \"Partly cloudy, with a low around 49.\", \"relative_humidity\": \"82%\", \"wind_speed\": \"2 to 7 mph NE\"}, {\"name\": \"Friday\", \"start_time\": \"2024-06-14T06:00:00-07:00\", \"end_time\": \"2024-06-14T18:00:00-07:00\", \"temperature\": \"67F\", \"detailed_forecast\": \"A chance of rain after 11am. Partly sunny, with a high near 67.\", \"relative_humidity\": \"81%\", \"wind_speed\": \"2 to 7 mph SW\"}, {\"name\": \"Friday Night\", \"start_time\": \"2024-06-14T18:00:00-07:00\", \"end_time\": \"2024-06-15T06:00:00-07:00\", \"temperature\": \"48F\", \"detailed_forecast\": \"A chance of rain. Mostly cloudy, with a low around 48.\", \"relative_humidity\": \"89%\", \"wind_speed\": \"3 to 7 mph SSW\"}, {\"name\": \"Saturday\", \"start_time\": \"2024-06-15T06:00:00-07:00\", \"end_time\": \"2024-06-15T18:00:00-07:00\", \"temperature\": \"61F\", \"detailed_forecast\": \"A chance of rain. Partly sunny, with a high near 61.\", \"relative_humidity\": \"89%\", \"wind_speed\": \"6 mph SW\"}]";

/// The fixed few-shot assistant message: the expected summary for the sample.
pub const FEW_SHOT_OUTPUT: &'static str = "{\"summary\": \"This week will be mostly sunny and mild, with daytime high temperatures ranging from 61F to 74F. There might be some rain on Friday and Saturday, but it should be light. Humidity will be around 80% to 89%. Winds will be light, mostly from the south and west, up to 7mph.\"}";

/// The fixed calibration example, constant for the process lifetime and
/// independent of request data.
pub fn few_shot_example() -> (r: NShotInOut)
    ensures
        r.input@ == FEW_SHOT_INPUT@,
        r.output@ == FEW_SHOT_OUTPUT@,
{
    NShotInOut {
        input: String::from_str(FEW_SHOT_INPUT),
        output: String::from_str(FEW_SHOT_OUTPUT),
    }
}

/// Who speaks a chat message.
#[derive(Clone, Copy, PartialEq, Eq, Structural, Debug)]
pub enum Role {
    System,
    User,
    Assistant,
}

/// One role-tagged message of the conversation.
#[derive(Clone, Debug)]
pub struct ChatMsg {
    pub role: Role,
    pub content: String,
}

/// The whole conversation for one request: the system instruction, the
/// unmodified few-shot pair, and the request's own payload, in that order.
pub open spec fn four_messages(msgs: Seq<ChatMsg>, payload: Seq<char>) -> bool {
    &&& msgs.len() == 4
    &&& msgs[0].role == Role::System && msgs[0].content@ == SYSTEM_PROMPT@
    &&& msgs[1].role == Role::User && msgs[1].content@ == FEW_SHOT_INPUT@
    &&& msgs[2].role == Role::Assistant && msgs[2].content@ == FEW_SHOT_OUTPUT@
    &&& msgs[3].role == Role::User && msgs[3].content@ == payload
}

/// Builds the four-message conversation around a serialized payload.  The
/// second and third messages are the few-shot example's input and output,
/// unmodified, whatever the payload holds.
pub fn build_messages(payload_json: String) -> (r: Vec<ChatMsg>)
    ensures
        four_messages(r@, payload_json@),
{
    let example = few_shot_example();
    let mut msgs: Vec<ChatMsg> = Vec::new();
    msgs.push(ChatMsg { role: Role::System, content: String::from_str(SYSTEM_PROMPT) });
    msgs.push(ChatMsg { role: Role::User, content: example.input });
    msgs.push(ChatMsg { role: Role::Assistant, content: example.output });
    msgs.push(ChatMsg { role: Role::User, content: payload_json });
    msgs
}

} // verus!
