use sydney::classify::{answer_index_of, check_throttling, classify_docs, delta_text_of};
use sydney::sydney::{final_text, BingAIWs, ChannelState, SydneyError, SydneyResponse};
use sydney::types::{CreateResult, CreateRoot};
use sydney::{Json, Tone};

fn s(x: &str) -> Json {
    Json::Str(x.to_string())
}

fn obj(members: Vec<(&str, Json)>) -> Json {
    Json::Object(members.into_iter().map(|(k, v)| (k.to_string(), v)).collect())
}

fn arr(items: Vec<Json>) -> Json {
    Json::Array(items)
}

fn delta(text: &str) -> Json {
    obj(vec![
        ("type", Json::Int(1)),
        ("arguments", arr(vec![obj(vec![("messages", arr(vec![obj(vec![("text", s(text))])]))])])),
    ])
}

fn final_doc(messages: Vec<Json>) -> Json {
    obj(vec![("type", Json::Int(2)), ("item", obj(vec![("messages", arr(messages))]))])
}

fn citation_card() -> Json {
    obj(vec![("body", arr(vec![obj(vec![("inlines", arr(vec![]))])]))])
}

fn root(value: Option<&str>) -> CreateRoot {
    CreateRoot {
        conversation_id: Some("conv".to_string()),
        client_id: Some("client".to_string()),
        result: Some(CreateResult { value: value.map(|v| v.to_string()), message: None }),
    }
}

fn session() -> BingAIWs {
    BingAIWs::new(Tone::Balanced, root(Some("Success")), Some("enc".to_string()), Some("sig".to_string()))
        .unwrap()
}

fn texts(r: &[SydneyResponse]) -> Vec<String> {
    r.iter()
        .map(|x| match x {
            SydneyResponse::FinalText(t) => format!("final:{t}"),
            SydneyResponse::StreamText(t) => format!("stream:{t}"),
            SydneyResponse::SuggestedResponses(v) => format!("suggest:{}", v.join("|")),
        })
        .collect()
}

#[test]
fn bootstrap_accepts_complete_reply() {
    let ai = session();
    assert_eq!(ai.state(), ChannelState::Disconnected);
    assert_eq!(ai.turn_counter(), 0);
    assert!(ai.needs_channel());
    assert_eq!(ai.channel_url(), "wss://sydney.bing.com/sydney/ChatHub?sec_access_token=enc");
}

#[test]
fn bootstrap_rejects_incomplete_reply() {
    let fails = |r: Result<BingAIWs, SydneyError>| matches!(r, Err(SydneyError::BootstrapFailed));
    assert!(fails(BingAIWs::new(Tone::Precise, root(Some("Failure")), Some("e".into()), Some("s".into()))));
    assert!(fails(BingAIWs::new(Tone::Precise, root(None), Some("e".into()), Some("s".into()))));
    assert!(fails(BingAIWs::new(Tone::Precise, root(Some("Success")), None, Some("s".into()))));
    assert!(fails(BingAIWs::new(Tone::Precise, root(Some("Success")), Some("e".into()), None)));
    let mut r = root(Some("Success"));
    r.client_id = None;
    assert!(fails(BingAIWs::new(Tone::Precise, r, Some("e".into()), Some("s".into()))));
    let r = CreateRoot { conversation_id: Some("c".into()), client_id: Some("c".into()), result: None };
    assert!(fails(BingAIWs::new(Tone::Precise, r, Some("e".into()), Some("s".into()))));
}

#[test]
fn ask_needs_an_open_channel() {
    let mut ai = session();
    assert!(matches!(ai.ask("Hi"), Err(SydneyError::WebSocketNotConnected)));
    assert_eq!(ai.turn_counter(), 0);
}

#[test]
fn ask_twice_is_refused() {
    let mut ai = session();
    ai.channel_opened();
    let env = ai.ask("Hi").unwrap();
    assert_eq!(env.get("invocationId").unwrap().as_str().unwrap(), "0");
    assert_eq!(ai.turn_counter(), 1);
    assert_eq!(ai.state(), ChannelState::AwaitingResponse);
    assert!(matches!(ai.ask("Again"), Err(SydneyError::TurnAlreadyOutstanding)));
    assert_eq!(ai.turn_counter(), 1);
}

#[test]
fn reading_while_connected_ends() {
    let mut ai = session();
    assert!(matches!(ai.get_next_msgs(&vec![]), Err(SydneyError::EndOfResponse)));
    ai.channel_opened();
    assert!(matches!(ai.get_next_msgs(&vec![Some(delta("x"))]), Err(SydneyError::EndOfResponse)));
}

#[test]
fn delta_then_final_scenario() {
    let mut ai = session();
    ai.channel_opened();
    ai.ask("Hi").unwrap();
    let first = ai.get_next_msgs(&vec![Some(delta("Hel"))]).unwrap();
    assert_eq!(texts(&first), vec!["stream:Hel"]);
    assert_eq!(ai.state(), ChannelState::AwaitingResponse);
    let second = ai
        .get_next_msgs(&vec![Some(final_doc(vec![obj(vec![("text", s("Hello!"))])]))])
        .unwrap();
    assert_eq!(texts(&second), vec!["final:Hello!"]);
    assert_eq!(ai.state(), ChannelState::Connected);
    assert_eq!(final_text(&second), Some("Hello!".to_string()));
    let env = ai.ask("Next").unwrap();
    assert_eq!(env.get("invocationId").unwrap().as_str().unwrap(), "1");
}

#[test]
fn close_after_response_disconnects() {
    let mut ai = session();
    ai.set_close_ws_after(true);
    ai.channel_opened();
    ai.ask("Hi").unwrap();
    ai.get_next_msgs(&vec![Some(final_doc(vec![obj(vec![("text", s("done"))])]))]).unwrap();
    assert_eq!(ai.state(), ChannelState::Disconnected);
    assert!(ai.needs_channel());
}

#[test]
fn channel_closed_abandons_turn() {
    let mut ai = session();
    ai.channel_opened();
    ai.ask("Hi").unwrap();
    ai.channel_closed();
    assert_eq!(ai.state(), ChannelState::Disconnected);
    assert!(!ai.awaiting_response());
}

#[test]
fn captcha_without_messages() {
    let doc = obj(vec![
        ("type", Json::Int(2)),
        ("item", obj(vec![("result", obj(vec![("value", s("CaptchaChallenge"))]))])),
    ]);
    let mut ai = session();
    ai.channel_opened();
    ai.ask("Hi").unwrap();
    assert!(matches!(ai.get_next_msgs(&vec![Some(doc)]), Err(SydneyError::ChallengeRequired)));
    assert_eq!(ai.state(), ChannelState::Connected);
}

#[test]
fn throttled_without_messages() {
    let doc = obj(vec![
        ("type", Json::Int(2)),
        ("item", obj(vec![("result", obj(vec![("value", s("Throttled"))]))])),
    ]);
    assert!(matches!(classify_docs(&vec![Some(doc)], false, false), (Err(SydneyError::ThrottlingError), true)));
    let doc = obj(vec![("type", Json::Int(2)), ("item", obj(vec![]))]);
    assert!(matches!(classify_docs(&vec![Some(doc)], false, false), (Err(SydneyError::MalformedFrame), true)));
}

#[test]
fn limit_reached_wins_over_messages() {
    let throttling = obj(vec![
        ("numUserMessagesInConversation", Json::Int(5)),
        ("maxNumUserMessagesInConversation", Json::Int(5)),
    ]);
    let doc = obj(vec![
        ("type", Json::Int(2)),
        ("item", obj(vec![("throttling", throttling), ("messages", arr(vec![obj(vec![("text", s("x"))])]))])),
    ]);
    assert!(matches!(
        classify_docs(&vec![Some(delta("a")), Some(doc)], false, false),
        (Err(SydneyError::MaxMessagesCountLimitReached), true)
    ));
}

#[test]
fn throttling_record_below_limit() {
    let t = obj(vec![("throttling", obj(vec![
        ("numUserMessagesInConversation", Json::Int(1)),
        ("maxNumUserMessagesInConversation", Json::Int(5)),
    ]))]);
    assert_eq!(check_throttling(&t), Ok(()));
    let missing_count = obj(vec![("throttling", obj(vec![("maxNumUserMessagesInConversation", Json::Int(0))]))]);
    assert_eq!(check_throttling(&missing_count), Err(SydneyError::MaxMessagesCountLimitReached));
    let missing_max = obj(vec![("throttling", obj(vec![]))]);
    assert_eq!(check_throttling(&missing_max), Err(SydneyError::MalformedFrame));
}

#[test]
fn citation_card_selects_previous_message() {
    let ms = vec![
        obj(vec![("text", s("answer"))]),
        obj(vec![("text", s("sources")), ("adaptiveCards", arr(vec![citation_card()]))]),
    ];
    assert_eq!(answer_index_of(&ms), Ok(0));
    let (r, ended) = classify_docs(&vec![Some(final_doc(ms))], false, false);
    assert!(ended);
    assert_eq!(texts(&r.unwrap()), vec!["final:answer"]);
    let plain = vec![obj(vec![("text", s("a"))]), obj(vec![("text", s("b"))])];
    assert_eq!(answer_index_of(&plain), Ok(1));
    let lone = vec![obj(vec![("adaptiveCards", arr(vec![citation_card()]))])];
    assert_eq!(answer_index_of(&lone), Err(SydneyError::MalformedFrame));
}

#[test]
fn searching_notice_is_skipped() {
    let doc = obj(vec![
        ("type", Json::Int(1)),
        ("arguments", arr(vec![obj(vec![(
            "messages",
            arr(vec![obj(vec![("text", s("Searching")), ("adaptiveCards", arr(vec![citation_card()]))])]),
        )])])),
    ]);
    assert!(matches!(delta_text_of(&doc, false), Ok(None)));
    let ping = obj(vec![("type", Json::Int(1))]);
    assert!(matches!(delta_text_of(&ping, false), Ok(None)));
}

#[test]
fn citations_read_card_body() {
    let card = obj(vec![("body", arr(vec![obj(vec![("type", s("TextBlock"))]), obj(vec![("text", s("second"))])]))]);
    let msg = obj(vec![("text", s("plain")), ("adaptiveCards", arr(vec![card]))]);
    let doc = obj(vec![("type", Json::Int(1)), ("arguments", arr(vec![obj(vec![("messages", arr(vec![msg]))])]))]);
    assert_eq!(delta_text_of(&doc, true), Ok(Some("second".to_string())));
    assert_eq!(delta_text_of(&doc, false), Ok(Some("plain".to_string())));
}

#[test]
fn suggestions_precede_final_text() {
    let msg = obj(vec![
        ("text", s("answer")),
        ("suggestedResponses", arr(vec![obj(vec![("text", s("one"))]), obj(vec![]), obj(vec![("text", s("two"))])])),
    ]);
    let (r, _) = classify_docs(&vec![Some(final_doc(vec![msg]))], false, true);
    assert_eq!(texts(&r.unwrap()), vec!["suggest:one|two", "final:answer"]);
}

#[test]
fn malformed_inputs() {
    assert!(matches!(classify_docs(&vec![None], false, false), (Err(SydneyError::MalformedFrame), false)));
    let untyped = obj(vec![("x", Json::Int(1))]);
    assert!(matches!(classify_docs(&vec![Some(untyped)], false, false), (Err(SydneyError::MalformedFrame), false)));
    assert!(matches!(classify_docs(&vec![Some(final_doc(vec![]))], false, false), (Err(SydneyError::MalformedFrame), true)));
    let bad_text = obj(vec![
        ("type", Json::Int(1)),
        ("arguments", arr(vec![obj(vec![("messages", arr(vec![obj(vec![("text", Json::Int(3))])]))])])),
    ]);
    assert!(matches!(classify_docs(&vec![Some(bad_text)], false, false), (Err(SydneyError::MalformedFrame), false)));
}

#[test]
fn unknown_types_skipped_and_final_stops() {
    let other = obj(vec![("type", Json::Int(6))]);
    let docs = vec![
        Some(other),
        Some(delta("a")),
        Some(final_doc(vec![obj(vec![("text", s("b"))])])),
        None,
    ];
    let (r, ended) = classify_docs(&docs, false, false);
    assert!(ended);
    assert_eq!(texts(&r.unwrap()), vec!["stream:a", "final:b"]);
    let (r, ended) = classify_docs(&vec![Some(delta("a")), Some(delta("b"))], false, false);
    assert!(!ended);
    assert_eq!(texts(&r.unwrap()), vec!["stream:a", "stream:b"]);
}

#[test]
fn limit_keeps_channel_even_when_closing() {
    let throttling = obj(vec![
        ("numUserMessagesInConversation", Json::Int(2)),
        ("maxNumUserMessagesInConversation", Json::Int(2)),
    ]);
    let doc = obj(vec![("type", Json::Int(2)), ("item", obj(vec![("throttling", throttling)]))]);
    let mut ai = session();
    ai.set_close_ws_after(true);
    ai.channel_opened();
    ai.ask("Hi").unwrap();
    assert!(matches!(ai.get_next_msgs(&vec![Some(doc)]), Err(SydneyError::MaxMessagesCountLimitReached)));
    assert_eq!(ai.state(), ChannelState::Connected);
}

#[test]
fn malformed_delta_keeps_turn_open() {
    let mut ai = session();
    ai.channel_opened();
    ai.ask("Hi").unwrap();
    assert!(matches!(ai.get_next_msgs(&vec![None]), Err(SydneyError::MalformedFrame)));
    assert!(ai.awaiting_response());
}
