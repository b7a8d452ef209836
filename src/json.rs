use vstd::prelude::*;

use crate::doc::{is_str_array, member_at, str_array, str_of, Json};
use crate::types::{tone_name, tone_tokens, Tone};

verus! {

/// Feature tokens sent with every question, whatever the tone.
pub open spec fn base_tokens() -> Seq<Seq<char>> {
    seq![
        "nlu_direct_response_filter"@,
        "deepleo"@,
        "disable_emoji_spoken_text"@,
        "responsible_ai_policy_235"@,
        "enablemm"@,
        "dv3sugg"@,
        "iyxapbing"@,
        "iycapbing"@,
        "saharagenconv5"@,
        "eredirecturl"@,
    ]
}

/// Message categories the client accepts in a reply.
pub open spec fn allowed_message_types() -> Seq<Seq<char>> {
    seq![
        "Chat"@,
        "ActionRequest"@,
        "AdsQuery"@,
        "ConfirmationCard"@,
        "Context"@,
        "Disengaged"@,
        "InternalLoaderMessage"@,
        "InternalSearchQuery"@,
        "InternalSearchResult"@,
        "InvokeAction"@,
        "Progress"@,
        "RenderCardRequest"@,
        "RenderContentRequest"@,
        "SemanticSerp"@,
        "GenerateContentQuery"@,
        "SearchQuery"@,
    ]
}

/// Conversation-history tokens sent with every question.
pub open spec fn history_tokens() -> Seq<Seq<char>> {
    seq!["autosave"@, "savemem"@, "uprofupd"@, "uprofgen"@]
}

pub open spec fn digit_text(d: int) -> Seq<char> {
    if d == 0 {
        "0"@
    } else if d == 1 {
        "1"@
    } else if d == 2 {
        "2"@
    } else if d == 3 {
        "3"@
    } else if d == 4 {
        "4"@
    } else if d == 5 {
        "5"@
    } else if d == 6 {
        "6"@
    } else if d == 7 {
        "7"@
    } else if d == 8 {
        "8"@
    } else {
        "9"@
    }
}

/// Decimal digits of `n`, most significant first, without leading zeros.
pub open spec fn decimal(n: nat) -> Seq<char>
    decreases n,
{
    if n < 10 {
        digit_text(n as int)
    } else {
        decimal(n / 10) + digit_text((n % 10) as int)
    }
}

/// An integer in decimal, with a leading `-` when negative.
pub open spec fn int_text(n: int) -> Seq<char> {
    if n < 0 {
        "-"@ + decimal((-n) as nat)
    } else {
        decimal(n as nat)
    }
}

/// The string member `key` at position `i` of object `j`.
pub open spec fn str_member(j: Json, i: int, key: Seq<char>) -> Option<Seq<char>> {
    match member_at(j, i, key) {
        Some(v) => str_of(v),
        None => None,
    }
}

pub open spec fn member_count(j: Json) -> int {
    match j {
        Json::Object(es) => es@.len() as int,
        _ => -1,
    }
}

/// The question's message object.
pub open spec fn is_user_message(m: Json, prompt: Seq<char>) -> bool {
    &&& member_count(m) == 6
    &&& str_member(m, 0, "author"@) == Some("user"@)
    &&& str_member(m, 1, "inputMethod"@) == Some("Keyboard"@)
    &&& str_member(m, 2, "text"@) == Some(prompt)
    &&& str_member(m, 3, "messageType"@) == Some("Chat"@)
    &&& member_at(m, 4, "imageUrl"@) == Some(Json::Null)
    &&& member_at(m, 5, "originalImageUrl"@) == Some(Json::Null)
}

/// The single argument object of a question envelope.
pub open spec fn is_ask_arguments(
    a: Json,
    prompt: Seq<char>,
    invocation_id: int,
    tone: Tone,
    signature: Seq<char>,
    client_id: Seq<char>,
    conversation_id: Seq<char>,
) -> bool {
    &&& member_count(a) == 15
    &&& str_member(a, 0, "source"@) == Some("cib"@)
    &&& member_at(a, 1, "optionsSets"@) matches Some(o) && is_str_array(
        o,
        base_tokens() + tone_tokens(tone),
    )
    &&& member_at(a, 2, "allowedMessageTypes"@) matches Some(o) && is_str_array(
        o,
        allowed_message_types(),
    )
    &&& member_at(a, 3, "sliceIds"@) matches Some(o) && is_str_array(o, seq![])
    &&& str_member(a, 4, "verbosity"@) == Some("verbose"@)
    &&& str_member(a, 5, "scenario"@) == Some("SERP"@)
    &&& member_at(a, 6, "plugins"@) matches Some(o) && is_str_array(o, seq![])
    &&& member_at(a, 7, "conversationHistoryOptionsSets"@) matches Some(o) && is_str_array(
        o,
        history_tokens(),
    )
    &&& member_at(a, 8, "isStartOfSession"@) == Some(Json::Bool(invocation_id == 0))
    &&& member_at(a, 9, "message"@) matches Some(m) && is_user_message(m, prompt)
    &&& str_member(a, 10, "conversationSignature"@) == Some(signature)
    &&& member_at(a, 11, "participant"@) matches Some(p) && member_count(p) == 1 && str_member(
        p,
        0,
        "id"@,
    ) == Some(client_id)
    &&& str_member(a, 12, "tone"@) == Some(tone_name(tone))
    &&& str_member(a, 13, "spokenTextMode"@) == Some("None"@)
    &&& str_member(a, 14, "conversationId"@) == Some(conversation_id)
}

/// The question envelope: invocation type 4 aimed at the chat target, with
/// the invocation id in decimal and one argument object.
pub open spec fn is_ask_envelope(
    r: Json,
    prompt: Seq<char>,
    invocation_id: int,
    tone: Tone,
    signature: Seq<char>,
    client_id: Seq<char>,
    conversation_id: Seq<char>,
) -> bool {
    &&& member_count(r) == 4
    &&& member_at(r, 0, "arguments"@) matches Some(Json::Array(args)) && args@.len() == 1
        && is_ask_arguments(
        args@[0],
        prompt,
        invocation_id,
        tone,
        signature,
        client_id,
        conversation_id,
    )
    &&& str_member(r, 1, "invocationId"@) == Some(int_text(invocation_id))
    &&& str_member(r, 2, "target"@) == Some("chat"@)
    &&& member_at(r, 3, "type"@) == Some(Json::Int(4))
}

fn digit_str(d: u64) -> (r: &'static str)
    requires
        d < 10,
    ensures
        r@ == digit_text(d as int),
{
    if d == 0 {
        "0"
    } else if d == 1 {
        "1"
    } else if d == 2 {
        "2"
    } else if d == 3 {
        "3"
    } else if d == 4 {
        "4"
    } else if d == 5 {
        "5"
    } else if d == 6 {
        "6"
    } else if d == 7 {
        "7"
    } else if d == 8 {
        "8"
    } else {
        "9"
    }
}

fn decimal_string(n: u64) -> (r: String)
    ensures
        r@ == decimal(n as nat),
    decreases n,
{
    if n < 10 {
        String::from_str(digit_str(n))
    } else {
        let head = decimal_string(n / 10);
        head.concat(digit_str(n % 10))
    }
}

/// Renders an integer in decimal.
pub fn int_string(n: i64) -> (r: String)
    ensures
        r@ == int_text(n as int),
{
    if n < 0 {
        let m: u64 = if n == i64::MIN {
            9223372036854775808u64
        } else {
            (-n) as u64
        };
        let digits = decimal_string(m);
        String::from_str("-").concat(digits.as_str())
    } else {
        decimal_string(n as u64)
    }
}

fn base_options() -> (r: Vec<&'static str>)
    ensures
        r@.map_values(|s: &str| s@) == base_tokens(),
{
    let r = vec![
        "nlu_direct_response_filter",
        "deepleo",
        "disable_emoji_spoken_text",
        "responsible_ai_policy_235",
        "enablemm",
        "dv3sugg",
        "iyxapbing",
        "iycapbing",
        "saharagenconv5",
        "eredirecturl",
    ];
    assert(r@.map_values(|s: &str| s@) =~= base_tokens());
    r
}

fn message_types() -> (r: Vec<&'static str>)
    ensures
        r@.map_values(|s: &str| s@) == allowed_message_types(),
{
    let r = vec![
        "Chat",
        "ActionRequest",
        "AdsQuery",
        "ConfirmationCard",
        "Context",
        "Disengaged",
        "InternalLoaderMessage",
        "InternalSearchQuery",
        "InternalSearchResult",
        "InvokeAction",
        "Progress",
        "RenderCardRequest",
        "RenderContentRequest",
        "SemanticSerp",
        "GenerateContentQuery",
        "SearchQuery",
    ];
    assert(r@.map_values(|s: &str| s@) =~= allowed_message_types());
    r
}

fn history_options() -> (r: Vec<&'static str>)
    ensures
        r@.map_values(|s: &str| s@) == history_tokens(),
{
    let r = vec!["autosave", "savemem", "uprofupd", "uprofgen"];
    assert(r@.map_values(|s: &str| s@) =~= history_tokens());
    r
}

/// The feature tokens for a question: the base set followed by the tone's own.
fn options_for(tone: &Tone) -> (r: Vec<&str>)
    ensures
        r@.map_values(|s: &str| s@) == base_tokens() + tone_tokens(*tone),
{
    let mut r = base_options();
    let extra = tone.to_options_set();
    let mut i: usize = 0;
    while i < extra.len()
        invariant
            i <= extra@.len(),
            extra@.map_values(|s: &str| s@) == tone_tokens(*tone),
            r@.map_values(|s: &str| s@) == base_tokens() + tone_tokens(*tone).subrange(0, i as int),
        decreases extra@.len() - i,
    {
        let ghost prev = r@;
        r.push(extra[i]);
        assert(extra@[i as int]@ == tone_tokens(*tone)[i as int]);
        assert(r@.map_values(|s: &str| s@) =~= prev.map_values(|s: &str| s@).push(
            extra@[i as int]@,
        ));
        i = i + 1;
        assert(r@.map_values(|s: &str| s@) =~= base_tokens() + tone_tokens(*tone).subrange(
            0,
            i as int,
        ));
    }
    assert(tone_tokens(*tone).subrange(0, i as int) =~= tone_tokens(*tone));
    r
}

fn member(key: &str, value: Json) -> (r: (String, Json))
    ensures
        r.0@ == key@,
        r.1 == value,
{
    (String::from_str(key), value)
}

fn user_message(prompt: &str) -> (r: Json)
    ensures
        is_user_message(r, prompt@),
{
    let mut es: Vec<(String, Json)> = Vec::new();
    es.push(member("author", Json::string("user")));
    es.push(member("inputMethod", Json::string("Keyboard")));
    es.push(member("text", Json::string(prompt)));
    es.push(member("messageType", Json::string("Chat")));
    es.push(member("imageUrl", Json::Null));
    es.push(member("originalImageUrl", Json::Null));
    Json::Object(es)
}

/// Builds the envelope that carries one question.
pub fn ask_json(
    prompt: &str,
    invocation_id: i64,
    tone: &Tone,
    conversation_signature: &str,
    client_id: &str,
    conversation_id: &str,
) -> (r: Json)
    requires
        prompt@.len() > 0,
    ensures
        is_ask_envelope(
            r,
            prompt@,
            invocation_id as int,
            *tone,
            conversation_signature@,
            client_id@,
            conversation_id@,
        ),
{
    let mut participant: Vec<(String, Json)> = Vec::new();
    participant.push(member("id", Json::string(client_id)));

    let mut a: Vec<(String, Json)> = Vec::new();
    a.push(member("source", Json::string("cib")));
    a.push(member("optionsSets", str_array(&options_for(tone))));
    a.push(member("allowedMessageTypes", str_array(&message_types())));
    a.push(member("sliceIds", Json::Array(Vec::new())));
    a.push(member("verbosity", Json::string("verbose")));
    a.push(member("scenario", Json::string("SERP")));
    a.push(member("plugins", Json::Array(Vec::new())));
    a.push(member("conversationHistoryOptionsSets", str_array(&history_options())));
    a.push(member("isStartOfSession", Json::Bool(invocation_id == 0)));
    a.push(member("message", user_message(prompt)));
    a.push(member("conversationSignature", Json::string(conversation_signature)));
    a.push(member("participant", Json::Object(participant)));
    a.push(member("tone", Json::string(tone.to_str())));
    a.push(member("spokenTextMode", Json::string("None")));
    a.push(member("conversationId", Json::string(conversation_id)));
    let args = Json::Object(a);

    let mut list: Vec<Json> = Vec::new();
    list.push(args);

    let mut es: Vec<(String, Json)> = Vec::new();
    es.push(member("arguments", Json::Array(list)));
    es.push(member("invocationId", Json::Str(int_string(invocation_id))));
    es.push(member("target", Json::string("chat")));
    es.push(member("type", Json::Int(4)));
    Json::Object(es)
}

/// The first document sent on a new channel: `{"protocol":"json","version":1}`.
pub fn negotiation_document() -> (r: Json)
    ensures
        member_count(r) == 2,
        str_member(r, 0, "protocol"@) == Some("json"@),
        member_at(r, 1, "version"@) == Some(Json::Int(1)),
{
    let mut es: Vec<(String, Json)> = Vec::new();
    es.push(member("protocol", Json::string("json")));
    es.push(member("version", Json::Int(1)));
    Json::Object(es)
}

} // verus!
