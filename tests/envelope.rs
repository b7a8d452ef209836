use sydney::frame::{frame_document, split_batch};
use sydney::json::{ask_json, int_string, negotiation_document};
use sydney::types::construct_ask_args;
use sydney::url::{channel_url, channel_url_with_token, create_url};
use sydney::{Json, Tone};

fn args(env: &Json) -> &Json {
    env.get("arguments").unwrap().at(0).unwrap()
}

fn strings(j: &Json) -> Vec<String> {
    match j {
        Json::Array(v) => v.iter().map(|x| x.as_str().unwrap().clone()).collect(),
        _ => panic!("not an array"),
    }
}

const BASE: [&str; 10] = [
    "nlu_direct_response_filter",
    "deepleo",
    "disable_emoji_spoken_text",
    "responsible_ai_policy_235",
    "enablemm",
    "dv3sugg",
    "iyxapbing",
    "iycapbing",
    "saharagenconv5",
    "eredirecturl",
];

#[test]
fn tone_options_sets() {
    assert_eq!(Tone::Precise.to_options_set(), vec!["h3precise", "clgalileo"]);
    assert_eq!(
        Tone::Creative.to_options_set(),
        vec!["h3imaginative", "clgalileo", "gencontentv3"]
    );
    assert_eq!(Tone::Balanced.to_options_set(), vec!["galileo"]);
}

#[test]
fn tone_names() {
    assert_eq!(Tone::Precise.to_str(), "Precise");
    assert_eq!(Tone::Creative.to_str(), "Creative");
    assert_eq!(Tone::Balanced.to_str(), "Balanced");
}

#[test]
fn options_sets_are_base_then_tone() {
    for tone in [Tone::Precise, Tone::Creative, Tone::Balanced] {
        let env = ask_json("question", 3, &tone, "sig", "client", "conv");
        let got = strings(args(&env).get("optionsSets").unwrap());
        let mut want: Vec<String> = BASE.iter().map(|s| s.to_string()).collect();
        want.extend(tone.to_options_set().iter().map(|s| s.to_string()));
        assert_eq!(got, want);
    }
}

#[test]
fn first_turn_envelope_balanced() {
    let env = ask_json("Hi", 0, &Tone::Balanced, "sig", "client", "conv");
    let a = args(&env);
    assert!(strings(a.get("optionsSets").unwrap()).contains(&"galileo".to_string()));
    assert!(matches!(a.get("isStartOfSession"), Some(Json::Bool(true))));
    assert_eq!(env.get("invocationId").unwrap().as_str().unwrap(), "0");
    assert_eq!(env.get("target").unwrap().as_str().unwrap(), "chat");
    assert_eq!(env.get("type").unwrap().as_i64(), Some(4));
    let m = a.get("message").unwrap();
    assert_eq!(m.get("text").unwrap().as_str().unwrap(), "Hi");
    assert_eq!(m.get("author").unwrap().as_str().unwrap(), "user");
    assert_eq!(a.get("tone").unwrap().as_str().unwrap(), "Balanced");
    assert_eq!(a.get("conversationSignature").unwrap().as_str().unwrap(), "sig");
    assert_eq!(a.get("conversationId").unwrap().as_str().unwrap(), "conv");
    let p = a.get("participant").unwrap();
    assert_eq!(p.get("id").unwrap().as_str().unwrap(), "client");
}

#[test]
fn later_turn_is_not_start_of_session() {
    let env = construct_ask_args("again", 12, Tone::Precise, "s", "c", "v");
    assert!(matches!(args(&env).get("isStartOfSession"), Some(Json::Bool(false))));
    assert_eq!(env.get("invocationId").unwrap().as_str().unwrap(), "12");
}

#[test]
fn integers_in_decimal() {
    assert_eq!(int_string(0), "0");
    assert_eq!(int_string(7), "7");
    assert_eq!(int_string(1234567890), "1234567890");
    assert_eq!(int_string(-45), "-45");
    assert_eq!(int_string(i64::MAX), "9223372036854775807");
    assert_eq!(int_string(i64::MIN), "-9223372036854775808");
}

#[test]
fn negotiation_frame_members() {
    let d = negotiation_document();
    assert_eq!(d.get("protocol").unwrap().as_str().unwrap(), "json");
    assert_eq!(d.get("version").unwrap().as_i64(), Some(1));
}

#[test]
fn split_two_documents() {
    assert_eq!(split_batch("A\u{1e}B\u{1e}"), vec!["A".to_string(), "B".to_string()]);
}

#[test]
fn split_only_delimiters() {
    assert!(split_batch("\u{1e}\u{1e}").is_empty());
    assert!(split_batch("").is_empty());
}

#[test]
fn split_keeps_unterminated_tail() {
    assert_eq!(
        split_batch("{\"a\":1}\u{1e}\u{1e}é\u{1e}tail"),
        vec!["{\"a\":1}".to_string(), "é".to_string(), "tail".to_string()]
    );
}

#[test]
fn frame_appends_delimiter() {
    assert_eq!(frame_document("{}"), "{}\u{1e}");
    assert_eq!(frame_document(""), "\u{1e}");
}

#[test]
fn channel_url_encodes_signature() {
    assert_eq!(
        channel_url("a b/c+d"),
        "wss://sydney.bing.com/sydney/ChatHub?sec_access_token=a%20b%2Fc%2Bd"
    );
    assert_eq!(
        channel_url("plain-Token_1.~"),
        "wss://sydney.bing.com/sydney/ChatHub?sec_access_token=plain-Token_1.~"
    );
    assert_eq!(
        channel_url_with_token("x%20y"),
        "wss://sydney.bing.com/sydney/ChatHub?sec_access_token=x%20y"
    );
}

#[test]
fn creation_address() {
    assert_eq!(
        create_url(),
        "https://www.bing.com/turing/conversation/create?bundleVersion=1.1586.1"
    );
}
