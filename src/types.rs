use vstd::prelude::*;

use crate::doc::Json;
use crate::json::{ask_json, is_ask_envelope};

verus! {

/// Conversation style; each tone selects a fixed set of feature tokens.
#[derive(Clone, Copy, Debug, PartialEq, Eq, Structural)]
pub enum Tone {
    Precise,
    Creative,
    Balanced,
}

/// The feature tokens that a tone adds to the base set.
pub open spec fn tone_tokens(t: Tone) -> Seq<Seq<char>> {
    match t {
        Tone::Precise => seq!["h3precise"@, "clgalileo"@],
        Tone::Creative => seq!["h3imaginative"@, "clgalileo"@, "gencontentv3"@],
        Tone::Balanced => seq!["galileo"@],
    }
}

/// The name under which a tone travels on the wire.
pub open spec fn tone_name(t: Tone) -> Seq<char> {
    match t {
        Tone::Precise => "Precise"@,
        Tone::Creative => "Creative"@,
        Tone::Balanced => "Balanced"@,
    }
}

impl Tone {
    pub fn to_options_set(&self) -> (r: Vec<&str>)
        ensures
            r@.map_values(|s: &str| s@) == tone_tokens(*self),
    {
        let r = match self {
            Tone::Precise => vec!["h3precise", "clgalileo"],
            Tone::Creative => vec!["h3imaginative", "clgalileo", "gencontentv3"],
            Tone::Balanced => vec!["galileo"],
        };
        assert(r@.map_values(|s: &str| s@) =~= tone_tokens(*self));
        r
    }

    pub fn to_str(&self) -> (r: &str)
        ensures
            r@ == tone_name(*self),
    {
        match self {
            Tone::Precise => "Precise",
            Tone::Creative => "Creative",
            Tone::Balanced => "Balanced",
        }
    }
}

/// The body of a session-creation reply.
pub struct CreateRoot {
    pub conversation_id: Option<String>,
    pub client_id: Option<String>,
    pub result: Option<CreateResult>,
}

/// The outcome record of a session-creation reply.
pub struct CreateResult {
    pub value: Option<String>,
    pub message: Option<Json>,
}

/// Builds the envelope that carries one question; see [`ask_json`].
pub fn construct_ask_args(
    prompt: &str,
    invocation_id: i64,
    tone: Tone,
    conversation_signature: &str,
    client_id: &str,
    conversation_id: &str,
) -> (r: Json)
    requires
        prompt@.len() > 0,
    ensures
        is_ask_envelope(
            r,
            prompt@,
            invocation_id as int,
            tone,
            conversation_signature@,
            client_id@,
            conversation_id@,
        ),
{
    ask_json(prompt, invocation_id, &tone, conversation_signature, client_id, conversation_id)
}

} // verus!
