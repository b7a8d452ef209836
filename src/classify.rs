use vstd::prelude::*;

use crate::doc::{idx_at, idx_key, int_of, jget, str_of, Json};
use crate::sydney::{ResponseView, SydneyError, SydneyResponse};

verus! {

/// A value that has to be a string.
pub open spec fn text_value(j: Json) -> Result<Seq<char>, SydneyError> {
    match str_of(j) {
        Some(s) => Ok(s),
        None => Err(SydneyError::MalformedFrame),
    }
}

/// Text of a rich-card body: the first block's `text`, or else the second's.
pub open spec fn card_text(body: Json) -> Result<Seq<char>, SydneyError> {
    match jget(idx_at(body, 0), "text"@) {
        Some(t) => text_value(t),
        None => text_value(idx_key(idx_at(body, 1), "text"@)),
    }
}

/// The plain `text` member of a message, when present.
pub open spec fn plain_text(m: Json) -> Result<Option<Seq<char>>, SydneyError> {
    match jget(m, "text"@) {
        None => Ok(None),
        Some(t) => match str_of(t) {
            Some(s) => Ok(Some(s)),
            None => Err(SydneyError::MalformedFrame),
        },
    }
}

/// A card body whose first block carries inline citations: a transient
/// "searching" notice rather than answer text.
pub open spec fn is_citation_notice(body: Json) -> bool {
    jget(idx_at(body, 0), "inlines"@) is Some
}

/// What an incremental (type 1) document contributes: nothing, or one
/// piece of partial answer text.
pub open spec fn delta_text(doc: Json, citations: bool) -> Result<Option<Seq<char>>, SydneyError> {
    match jget(idx_at(idx_key(doc, "arguments"@), 0), "messages"@) {
        None => Ok(None),
        Some(ms) => {
            let m0 = idx_at(ms, 0);
            match jget(m0, "adaptiveCards"@) {
                Some(cards) => {
                    let body = idx_key(idx_at(cards, 0), "body"@);
                    if is_citation_notice(body) {
                        Ok(None)
                    } else if citations {
                        match card_text(body) {
                            Ok(t) => Ok(Some(t)),
                            Err(e) => Err(e),
                        }
                    } else {
                        plain_text(m0)
                    }
                },
                None => if citations {
                    Ok(None)
                } else {
                    plain_text(m0)
                },
            }
        },
    }
}

/// The throttling record of a final update: the limit is reached when the
/// message count (0 when unreadable) equals the maximum.
pub open spec fn throttle_check(item: Json) -> Result<(), SydneyError> {
    match jget(item, "throttling"@) {
        None => Ok(()),
        Some(t) => {
            let count = match jget(t, "numUserMessagesInConversation"@) {
                Some(c) => match int_of(c) {
                    Some(n) => n,
                    None => 0,
                },
                None => 0,
            };
            match int_of(idx_key(t, "maxNumUserMessagesInConversation"@)) {
                None => Err(SydneyError::MalformedFrame),
                Some(max) => if count == max {
                    Err(SydneyError::MaxMessagesCountLimitReached)
                } else {
                    Ok(())
                },
            }
        },
    }
}

/// The failure that a final update without messages reports.
pub open spec fn missing_messages_error(item: Json) -> SydneyError {
    match str_of(idx_key(idx_key(item, "result"@), "value"@)) {
        Some(v) => if v == "CaptchaChallenge"@ {
            SydneyError::ChallengeRequired
        } else if v == "Throttled"@ {
            SydneyError::ThrottlingError
        } else {
            SydneyError::MalformedFrame
        },
        None => SydneyError::MalformedFrame,
    }
}

/// Index of the answer among the messages of a final update: the last one,
/// unless the last card of the last message is a citations notice, in which
/// case the one before it (and no answer when there is none before it).
pub open spec fn answer_index(ms: Seq<Json>) -> Result<int, SydneyError> {
    match jget(ms.last(), "adaptiveCards"@) {
        None => Ok(ms.len() - 1),
        Some(Json::Array(cs)) => if cs@.len() == 0 {
            Err(SydneyError::MalformedFrame)
        } else if is_citation_notice(idx_key(cs@.last(), "body"@)) {
            if ms.len() >= 2 {
                Ok(ms.len() - 2)
            } else {
                Err(SydneyError::MalformedFrame)
            }
        } else {
            Ok(ms.len() - 1)
        },
        Some(_) => Err(SydneyError::MalformedFrame),
    }
}

/// The string `text` members of the suggestion objects, in order.
pub open spec fn suggestion_texts(v: Seq<Json>) -> Seq<Seq<char>>
    decreases v.len(),
{
    if v.len() == 0 {
        seq![]
    } else {
        let p = suggestion_texts(v.drop_last());
        match str_of(idx_key(v.last(), "text"@)) {
            Some(t) => p.push(t),
            None => p,
        }
    }
}

/// Suggested follow-ups attached to the answer message.
pub open spec fn suggestions_of(msg: Json, suggestions: bool) -> Result<Seq<ResponseView>, SydneyError> {
    if !suggestions {
        Ok(seq![])
    } else {
        match jget(msg, "suggestedResponses"@) {
            None => Ok(seq![]),
            Some(Json::Array(v)) => Ok(seq![ResponseView::SuggestedResponses(suggestion_texts(v@))]),
            Some(_) => Err(SydneyError::MalformedFrame),
        }
    }
}

/// The final text of the answer message.
pub open spec fn answer_text(msg: Json, citations: bool) -> Result<Option<Seq<char>>, SydneyError> {
    if citations {
        match card_text(idx_key(idx_at(idx_key(msg, "adaptiveCards"@), 0), "body"@)) {
            Ok(t) => Ok(Some(t)),
            Err(e) => Err(e),
        }
    } else {
        plain_text(msg)
    }
}

/// What the answer message yields: its suggestions, then its final text.
pub open spec fn answer_responses(msg: Json, citations: bool, suggestions: bool) -> Result<
    Seq<ResponseView>,
    SydneyError,
> {
    match suggestions_of(msg, suggestions) {
        Err(e) => Err(e),
        Ok(s) => match answer_text(msg, citations) {
            Err(e) => Err(e),
            Ok(None) => Ok(s),
            Ok(Some(t)) => Ok(s.push(ResponseView::FinalText(t))),
        },
    }
}

/// What a final (type 2) document yields.
pub open spec fn final_responses(doc: Json, citations: bool, suggestions: bool) -> Result<
    Seq<ResponseView>,
    SydneyError,
> {
    let item = idx_key(doc, "item"@);
    match throttle_check(item) {
        Err(e) => Err(e),
        Ok(_) => match jget(item, "messages"@) {
            None => Err(missing_messages_error(item)),
            Some(Json::Array(ms)) => if ms@.len() == 0 {
                Err(SydneyError::MalformedFrame)
            } else {
                match answer_index(ms@) {
                    Err(e) => Err(e),
                    Ok(i) => answer_responses(ms@[i], citations, suggestions),
                }
            },
            Some(_) => Err(SydneyError::MalformedFrame),
        },
    }
}

/// Classifying the documents of a batch from index `i` on, after `acc` has
/// been produced: the responses (or the failure) and whether the turn ended.
pub open spec fn batch_from(
    docs: Seq<Option<Json>>,
    citations: bool,
    suggestions: bool,
    i: int,
    acc: Seq<ResponseView>,
) -> (Result<Seq<ResponseView>, SydneyError>, bool)
    decreases docs.len() - i,
{
    if i < 0 || i >= docs.len() {
        (Ok(acc), false)
    } else {
        match docs[i] {
            None => (Err(SydneyError::MalformedFrame), false),
            Some(j) => match jget(j, "type"@) {
                None => (Err(SydneyError::MalformedFrame), false),
                Some(t) => if int_of(t) == Some(1i64) {
                    match delta_text(j, citations) {
                        Err(e) => (Err(e), false),
                        Ok(None) => batch_from(docs, citations, suggestions, i + 1, acc),
                        Ok(Some(x)) => batch_from(
                            docs,
                            citations,
                            suggestions,
                            i + 1,
                            acc.push(ResponseView::StreamText(x)),
                        ),
                    }
                } else if int_of(t) == Some(2i64) {
                    (
                        match final_responses(j, citations, suggestions) {
                            Ok(rs) => Ok(acc + rs),
                            Err(e) => Err(e),
                        },
                        true,
                    )
                } else {
                    batch_from(docs, citations, suggestions, i + 1, acc)
                },
            },
        }
    }
}

/// Classifying a whole batch of parsed documents (`None`: not parseable).
pub open spec fn classify_batch(docs: Seq<Option<Json>>, citations: bool, suggestions: bool) -> (
    Result<Seq<ResponseView>, SydneyError>,
    bool,
) {
    batch_from(docs, citations, suggestions, 0, seq![])
}

pub open spec fn text_view(r: Result<Option<String>, SydneyError>) -> Result<
    Option<Seq<char>>,
    SydneyError,
> {
    match r {
        Ok(Some(s)) => Ok(Some(s@)),
        Ok(None) => Ok(None),
        Err(e) => Err(e),
    }
}

pub open spec fn responses_view(v: Seq<SydneyResponse>) -> Seq<ResponseView> {
    v.map_values(|r: SydneyResponse| r@)
}

fn key_or_null<'a>(j: &'a Json, key: &str, null: &'a Json) -> (r: &'a Json)
    requires
        *null == Json::Null,
    ensures
        *r == idx_key(*j, key@),
{
    match j.get(key) {
        Some(v) => v,
        None => null,
    }
}

fn at_or_null<'a>(j: &'a Json, i: usize, null: &'a Json) -> (r: &'a Json)
    requires
        *null == Json::Null,
    ensures
        *r == idx_at(*j, i as int),
{
    match j.at(i) {
        Some(v) => v,
        None => null,
    }
}

fn text_of(j: &Json) -> (r: Result<String, SydneyError>)
    ensures
        match r {
            Ok(s) => text_value(*j) == Ok::<Seq<char>, SydneyError>(s@),
            Err(e) => text_value(*j) == Err::<Seq<char>, SydneyError>(e),
        },
{
    match j.as_str() {
        Some(s) => Ok(s.clone()),
        None => Err(SydneyError::MalformedFrame),
    }
}

fn card_text_of(body: &Json) -> (r: Result<String, SydneyError>)
    ensures
        match r {
            Ok(s) => card_text(*body) == Ok::<Seq<char>, SydneyError>(s@),
            Err(e) => card_text(*body) == Err::<Seq<char>, SydneyError>(e),
        },
{
    let null = Json::Null;
    match at_or_null(body, 0, &null).get("text") {
        Some(t) => text_of(t),
        None => text_of(key_or_null(at_or_null(body, 1, &null), "text", &null)),
    }
}

fn plain_text_of(m: &Json) -> (r: Result<Option<String>, SydneyError>)
    ensures
        text_view(r) == plain_text(*m),
{
    match m.get("text") {
        None => Ok(None),
        Some(t) => match t.as_str() {
            Some(s) => Ok(Some(s.clone())),
            None => Err(SydneyError::MalformedFrame),
        },
    }
}

fn citation_notice(body: &Json) -> (r: bool)
    ensures
        r == is_citation_notice(*body),
{
    let null = Json::Null;
    at_or_null(body, 0, &null).get("inlines").is_some()
}

/// The text that an incremental document contributes, if any.
pub fn delta_text_of(doc: &Json, citations: bool) -> (r: Result<Option<String>, SydneyError>)
    ensures
        text_view(r) == delta_text(*doc, citations),
{
    let null = Json::Null;
    let first_arg = at_or_null(key_or_null(doc, "arguments", &null), 0, &null);
    match first_arg.get("messages") {
        None => Ok(None),
        Some(ms) => {
            let m0 = at_or_null(ms, 0, &null);
            match m0.get("adaptiveCards") {
                Some(cards) => {
                    let body = key_or_null(at_or_null(cards, 0, &null), "body", &null);
                    if citation_notice(body) {
                        Ok(None)
                    } else if citations {
                        match card_text_of(body) {
                            Ok(t) => Ok(Some(t)),
                            Err(e) => Err(e),
                        }
                    } else {
                        plain_text_of(m0)
                    }
                },
                None => if citations {
                    Ok(None)
                } else {
                    plain_text_of(m0)
                },
            }
        },
    }
}

/// Checks the throttling record of a final update's item.
pub fn check_throttling(item: &Json) -> (r: Result<(), SydneyError>)
    ensures
        r == throttle_check(*item),
{
    let null = Json::Null;
    match item.get("throttling") {
        None => Ok(()),
        Some(t) => {
            let count: i64 = match t.get("numUserMessagesInConversation") {
                Some(c) => match c.as_i64() {
                    Some(n) => n,
                    None => 0,
                },
                None => 0,
            };
            match key_or_null(t, "maxNumUserMessagesInConversation", &null).as_i64() {
                None => Err(SydneyError::MalformedFrame),
                Some(max) => if count == max {
                    Err(SydneyError::MaxMessagesCountLimitReached)
                } else {
                    Ok(())
                },
            }
        },
    }
}

fn missing_messages(item: &Json) -> (r: SydneyError)
    ensures
        r == missing_messages_error(*item),
{
    let null = Json::Null;
    let value = key_or_null(key_or_null(item, "result", &null), "value", &null);
    match value.as_str() {
        Some(v) => {
            if *v == String::from_str("CaptchaChallenge") {
                SydneyError::ChallengeRequired
            } else if *v == String::from_str("Throttled") {
                SydneyError::ThrottlingError
            } else {
                SydneyError::MalformedFrame
            }
        },
        None => SydneyError::MalformedFrame,
    }
}

/// Picks the answer among the messages of a final update.
pub fn answer_index_of(ms: &Vec<Json>) -> (r: Result<usize, SydneyError>)
    requires
        ms@.len() > 0,
    ensures
        match r {
            Ok(i) => answer_index(ms@) == Ok::<int, SydneyError>(i as int),
            Err(e) => answer_index(ms@) == Err::<int, SydneyError>(e),
        },
{
    let null = Json::Null;
    let n = ms.len();
    match ms[n - 1].get("adaptiveCards") {
        None => Ok(n - 1),
        Some(cards) => match cards.as_array() {
            Some(cs) => {
                if cs.len() == 0 {
                    Err(SydneyError::MalformedFrame)
                } else if citation_notice(key_or_null(&cs[cs.len() - 1], "body", &null)) {
                    if n < 2 {
                        Err(SydneyError::MalformedFrame)
                    } else {
                        Ok(n - 2)
                    }
                } else {
                    Ok(n - 1)
                }
            },
            None => Err(SydneyError::MalformedFrame),
        },
    }
}

fn suggestion_list(v: &Vec<Json>) -> (r: Vec<String>)
    ensures
        r@.map_values(|s: String| s@) == suggestion_texts(v@),
{
    let null = Json::Null;
    let mut out: Vec<String> = Vec::new();
    let mut i: usize = 0;
    while i < v.len()
        invariant
            i <= v@.len(),
            null == Json::Null,
            out@.map_values(|s: String| s@) == suggestion_texts(v@.subrange(0, i as int)),
        decreases v@.len() - i,
    {
        let ghost prev = out@;
        assert(v@.subrange(0, i + 1).drop_last() =~= v@.subrange(0, i as int));
        match key_or_null(&v[i], "text", &null).as_str() {
            Some(t) => {
                out.push(t.clone());
                assert(out@.map_values(|s: String| s@) =~= prev.map_values(|s: String| s@).push(
                    t@,
                ));
            },
            None => {},
        }
        i = i + 1;
    }
    assert(v@.subrange(0, i as int) =~= v@);
    out
}

fn answer_responses_of(msg: &Json, citations: bool, suggestions: bool) -> (r: Result<
    Vec<SydneyResponse>,
    SydneyError,
>)
    ensures
        match r {
            Ok(v) => answer_responses(*msg, citations, suggestions) == Ok::<
                Seq<ResponseView>,
                SydneyError,
            >(responses_view(v@)),
            Err(e) => answer_responses(*msg, citations, suggestions) == Err::<
                Seq<ResponseView>,
                SydneyError,
            >(e),
        },
{
    let null = Json::Null;
    let mut out: Vec<SydneyResponse> = Vec::new();
    if suggestions {
        match msg.get("suggestedResponses") {
            None => {},
            Some(s) => match s.as_array() {
                Some(v) => {
                    out.push(SydneyResponse::SuggestedResponses(suggestion_list(v)));
                },
                None => {
                    return Err(SydneyError::MalformedFrame);
                },
            },
        }
    }
    assert(suggestions_of(*msg, suggestions) == Ok::<Seq<ResponseView>, SydneyError>(
        responses_view(out@),
    )) by {
        assert(responses_view(out@) =~= match suggestions_of(*msg, suggestions) {
            Ok(s) => s,
            Err(_) => seq![],
        });
    }
    let ghost prev = out@;
    let text: Result<Option<String>, SydneyError> = if citations {
        let body = key_or_null(
            at_or_null(key_or_null(msg, "adaptiveCards", &null), 0, &null),
            "body",
            &null,
        );
        match card_text_of(body) {
            Ok(t) => Ok(Some(t)),
            Err(e) => Err(e),
        }
    } else {
        plain_text_of(msg)
    };
    assert(text_view(text) == answer_text(*msg, citations));
    match text {
        Err(e) => Err(e),
        Ok(None) => Ok(out),
        Ok(Some(t)) => {
            out.push(SydneyResponse::FinalText(t));
            assert(responses_view(out@) =~= responses_view(prev).push(
                ResponseView::FinalText(t@),
            ));
            Ok(out)
        },
    }
}

/// What a final document yields.
pub fn final_responses_of(doc: &Json, citations: bool, suggestions: bool) -> (r: Result<
    Vec<SydneyResponse>,
    SydneyError,
>)
    ensures
        match r {
            Ok(v) => final_responses(*doc, citations, suggestions) == Ok::<
                Seq<ResponseView>,
                SydneyError,
            >(responses_view(v@)),
            Err(e) => final_responses(*doc, citations, suggestions) == Err::<
                Seq<ResponseView>,
                SydneyError,
            >(e),
        },
{
    let null = Json::Null;
    let item = key_or_null(doc, "item", &null);
    match check_throttling(item) {
        Err(e) => {
            return Err(e);
        },
        Ok(_) => {},
    }
    match item.get("messages") {
        None => Err(missing_messages(item)),
        Some(m) => match m.as_array() {
            None => Err(SydneyError::MalformedFrame),
            Some(ms) => {
                if ms.len() == 0 {
                    Err(SydneyError::MalformedFrame)
                } else {
                    match answer_index_of(ms) {
                        Err(e) => Err(e),
                        Ok(i) => answer_responses_of(&ms[i], citations, suggestions),
                    }
                }
            },
        },
    }
}

/// The last message's last card is a citations notice.
pub open spec fn ends_with_citation_card(ms: Seq<Json>) -> bool {
    jget(ms.last(), "adaptiveCards"@) matches Some(Json::Array(cs)) && cs@.len() > 0
        && is_citation_notice(idx_key(cs@.last(), "body"@))
}

/// A final update answers with its last message, or with the one before it
/// when the last message ends with a citations card.
pub proof fn lemma_answer_selection(doc: Json, citations: bool, suggestions: bool)
    requires
        jget(idx_key(doc, "item"@), "throttling"@) is None,
        jget(idx_key(doc, "item"@), "messages"@) matches Some(Json::Array(ms)) && ms@.len() >= 2 && (
        jget(ms@.last(), "adaptiveCards"@) matches Some(Json::Array(cs)) ==> cs@.len() > 0) && (
        jget(ms@.last(), "adaptiveCards"@) matches Some(c) ==> c is Array),
    ensures
        jget(idx_key(doc, "item"@), "messages"@) matches Some(Json::Array(ms)) && final_responses(
            doc,
            citations,
            suggestions,
        ) == answer_responses(
            ms@[if ends_with_citation_card(ms@) {
                ms@.len() - 2
            } else {
                ms@.len() - 1
            }],
            citations,
            suggestions,
        ),
{
}

/// A final update whose message count equals the maximum always reports the
/// limit, and no answer, whatever its messages hold; as the sole document of
/// a batch it ends the turn with that failure.
pub proof fn lemma_limit_reached(doc: Json, n: i64, citations: bool, suggestions: bool)
    requires
        jget(idx_key(doc, "item"@), "throttling"@) matches Some(t) && jget(
            t,
            "numUserMessagesInConversation"@,
        ) == Some(Json::Int(n)) && jget(t, "maxNumUserMessagesInConversation"@) == Some(
            Json::Int(n),
        ),
    ensures
        final_responses(doc, citations, suggestions) == Err::<Seq<ResponseView>, SydneyError>(
            SydneyError::MaxMessagesCountLimitReached,
        ),
        jget(doc, "type"@) == Some(Json::Int(2)) ==> classify_batch(
            seq![Some(doc)],
            citations,
            suggestions,
        ) == (Err::<Seq<ResponseView>, SydneyError>(SydneyError::MaxMessagesCountLimitReached), true),
{
}

pub open spec fn batch_view(r: Result<Vec<SydneyResponse>, SydneyError>) -> Result<
    Seq<ResponseView>,
    SydneyError,
> {
    match r {
        Ok(v) => Ok(responses_view(v@)),
        Err(e) => Err(e),
    }
}

/// Classifies the parsed documents of one batch, in order, stopping at the
/// first final document. Returns the responses, or the failure, and whether
/// the turn ended.
pub fn classify_docs(docs: &Vec<Option<Json>>, citations: bool, suggestions: bool) -> (r: (
    Result<Vec<SydneyResponse>, SydneyError>,
    bool,
))
    ensures
        batch_view(r.0) == classify_batch(docs@, citations, suggestions).0,
        r.1 == classify_batch(docs@, citations, suggestions).1,
{
    let mut acc: Vec<SydneyResponse> = Vec::new();
    let mut i: usize = 0;
    assert(responses_view(acc@) =~= seq![]);
    while i < docs.len()
        invariant
            i <= docs@.len(),
            classify_batch(docs@, citations, suggestions) == batch_from(
                docs@,
                citations,
                suggestions,
                i as int,
                responses_view(acc@),
            ),
        decreases docs@.len() - i,
    {
        match &docs[i] {
            None => {
                return (Err(SydneyError::MalformedFrame), false);
            },
            Some(j) => match j.get("type") {
                None => {
                    return (Err(SydneyError::MalformedFrame), false);
                },
                Some(t) => match t.as_i64() {
                    Some(1) => match delta_text_of(j, citations) {
                        Err(e) => {
                            return (Err(e), false);
                        },
                        Ok(None) => {},
                        Ok(Some(x)) => {
                            let ghost prev = acc@;
                            acc.push(SydneyResponse::StreamText(x));
                            assert(responses_view(acc@) =~= responses_view(prev).push(
                                ResponseView::StreamText(x@),
                            ));
                        },
                    },
                    Some(2) => {
                        return match final_responses_of(j, citations, suggestions) {
                            Ok(rs) => {
                                let ghost prev = acc@;
                                let ghost added = rs@;
                                let mut rs = rs;
                                acc.append(&mut rs);
                                assert(responses_view(acc@) =~= responses_view(prev)
                                    + responses_view(added));
                                (Ok(acc), true)
                            },
                            Err(e) => (Err(e), true),
                        };
                    },
                    _ => {},
                },
            },
        }
        i = i + 1;
    }
    (Ok(acc), false)
}

} // verus!
