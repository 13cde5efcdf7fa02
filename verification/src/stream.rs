//! The streaming ingestion pipeline's decoder, and the transcript
//! decoder: both walk JSON values through thin trusted wrappers over
//! serde_json and build the library's own records in verified code.
//!
//! A JSON value itself is opaque to the verifier, so its content is
//! named: `model_of` maps every `serde_json::Value` to a ghost JSON
//! tree, `parsed_json` names what `serde_json::from_str` yields for a
//! given text, and each wrapper's contract ties its call to those
//! names. Every decode result below is then pinned exactly.

use crate::actions::ActionV;
use crate::actions::AppAction;
use crate::state::ChatMessage;
use crate::state::ChatMessageV;
use crate::state::Role;
use crate::state::SearchSource;
use crate::state::SearchSourceV;
use crate::text::str_eq;
use vstd::prelude::*;

verus! {

/// Model of a JSON value. Numbers are never read by this library, so
/// they stay unmodelled.
#[verifier::ext_equal]
pub ghost enum JsonV {
    Null,
    Bool { b: bool },
    Num,
    Text { t: Seq<char> },
    List { es: Seq<JsonV> },
    Object { m: Map<Seq<char>, JsonV> },
}

/// The ghost JSON tree a `serde_json::Value` holds.
pub uninterp spec fn model_of(v: serde_json::Value) -> JsonV;

/// What `serde_json::from_str::<Value>` yields for this text: the
/// model of the parsed value, or `None` where the text is not valid
/// JSON.
pub uninterp spec fn parsed_json(s: Seq<char>) -> Option<JsonV>;

/// serde_json's JSON value; opaque to the verifier, carried through.
#[verifier::external_type_specification]
#[verifier::external_body]
pub struct ExValue(serde_json::Value);

/// Relies on serde_json::from_str::<Value>: parses JSON text, `None`
/// on text that is not valid JSON.
#[verifier::external_body]
fn json_parse(s: &str) -> (r: Option<serde_json::Value>)
    ensures
        r matches Some(v) ==> parsed_json(s@) == Some(model_of(v)),
        r is None ==> parsed_json(s@) is None,
{
    serde_json::from_str(s).ok()
}

/// Relies on serde_json::Value::get: the member under this key, if the
/// value is an object that has one.
#[verifier::external_body]
fn json_get<'a>(v: &'a serde_json::Value, key: &str) -> (r: Option<&'a serde_json::Value>)
    ensures
        r matches Some(f) ==> field_of(model_of(*v), key@) == Some(model_of(*f)),
        r is None ==> field_of(model_of(*v), key@) is None,
{
    v.get(key)
}

/// Relies on serde_json::Value::as_array: the elements, if the value
/// is an array.
#[verifier::external_body]
fn json_as_array<'a>(v: &'a serde_json::Value) -> (r: Option<&'a Vec<serde_json::Value>>)
    ensures
        r matches Some(a) ==> (model_of(*v) matches JsonV::List { es } && a@.len() == es.len()
            && (forall|i: int| 0 <= i < es.len() ==> model_of(a@[i]) == es[i])),
        r is None ==> !(model_of(*v) is List),
{
    v.as_array()
}

/// Relies on serde_json::Value::as_str: the text, if the value is a
/// string.
#[verifier::external_body]
fn json_as_str<'a>(v: &'a serde_json::Value) -> (r: Option<&'a str>)
    ensures
        r matches Some(s) ==> model_of(*v) == (JsonV::Text { t: s@ }),
        r is None ==> !(model_of(*v) is Text),
{
    v.as_str()
}

/// The member of an object under this key.
pub open spec fn field_of(j: JsonV, k: Seq<char>) -> Option<JsonV> {
    match j {
        JsonV::Object { m } => if m.dom().contains(k) {
            Some(m[k])
        } else {
            None
        },
        _ => None,
    }
}

/// The member under this key, when it is a string.
pub open spec fn text_field(j: JsonV, k: Seq<char>) -> Option<Seq<char>> {
    match field_of(j, k) {
        Some(f) => if f is Text {
            Some(f->t)
        } else {
            None
        },
        None => None,
    }
}

/// The source record a JSON element describes: all four fields must be
/// present as strings, as the search service sends them.
pub open spec fn source_of(j: JsonV) -> Option<SearchSourceV> {
    match (
        text_field(j, "title"@),
        text_field(j, "url"@),
        text_field(j, "content"@),
        text_field(j, "engine"@),
    ) {
        (Some(title), Some(url), Some(content), Some(engine)) => Some(
            SearchSourceV { title, url, content, engine },
        ),
        _ => None,
    }
}

/// The source records of a list of elements: all of them, or none if
/// any element is malformed.
pub open spec fn sources_of(es: Seq<JsonV>) -> Option<Seq<SearchSourceV>>
    decreases es.len(),
{
    if es.len() == 0 {
        Some(Seq::empty())
    } else {
        match (sources_of(es.drop_last()), source_of(es.last())) {
            (Some(pre), Some(s)) => Some(pre.push(s)),
            _ => None,
        }
    }
}

/// The source list a JSON value carries: it must be an array of
/// well-formed source records.
pub open spec fn sources_list_of(j: JsonV) -> Option<Seq<SearchSourceV>> {
    match j {
        JsonV::List { es } => sources_of(es),
        _ => None,
    }
}

/// What a `results` payload decodes to.
pub open spec fn results_of(data: Seq<char>) -> Option<Seq<SearchSourceV>> {
    match parsed_json(data) {
        Some(j) => sources_list_of(j),
        None => None,
    }
}

/// What a `summary-chunk` payload decodes to: its `text` field.
pub open spec fn chunk_text_of(data: Seq<char>) -> Option<Seq<char>> {
    match parsed_json(data) {
        Some(j) => text_field(j, "text"@),
        None => None,
    }
}

/// The role a transcript entry's role text names; anything but the two
/// the service uses reads as a system message.
pub open spec fn role_of(t: Option<Seq<char>>) -> Role {
    match t {
        Some(r) => if r == "user"@ {
            Role::User
        } else if r == "assistant"@ {
            Role::Assistant
        } else {
            Role::System
        },
        None => Role::System,
    }
}

/// The sources of one transcript entry: its `sources` field is a
/// string holding a serialized source array; anything else reads as no
/// sources.
pub open spec fn message_sources_of(j: JsonV) -> Seq<SearchSourceV> {
    match text_field(j, "sources"@) {
        Some(t) => match parsed_json(t) {
            Some(sj) => match sources_list_of(sj) {
                Some(ss) => ss,
                None => Seq::empty(),
            },
            None => Seq::empty(),
        },
        None => Seq::empty(),
    }
}

/// The transcript entry a JSON element describes.
pub open spec fn message_of(j: JsonV) -> ChatMessageV {
    ChatMessageV {
        role: role_of(text_field(j, "role"@)),
        content: match text_field(j, "content"@) {
            Some(c) => c,
            None => Seq::empty(),
        },
        sources: message_sources_of(j),
    }
}

/// The transcript a loaded conversation describes: one entry per
/// element of its `messages` array.
pub open spec fn transcript_of(j: JsonV) -> Seq<ChatMessageV> {
    match field_of(j, "messages"@) {
        Some(f) => match f {
            JsonV::List { es } => Seq::new(es.len(), |i: int| message_of(es[i])),
            _ => Seq::empty(),
        },
        None => Seq::empty(),
    }
}

/// One malformed element spoils the whole batch.
proof fn lemma_sources_of_fail(es: Seq<JsonV>, k: int)
    requires
        0 <= k < es.len(),
        source_of(es[k]) is None,
    ensures
        sources_of(es) is None,
    decreases es.len(),
{
    if k < es.len() - 1 {
        assert(es.drop_last()[k] == es[k]);
        lemma_sources_of_fail(es.drop_last(), k);
    }
}

/// One source record from a JSON element, exactly as [`source_of`]
/// reads its model.
fn source_from_value(v: &serde_json::Value) -> (r: Option<SearchSource>)
    ensures
        r.deep_view() == source_of(model_of(*v)),
{
    let title = match json_get(v, "title") {
        Some(f) => match json_as_str(f) {
            Some(s) => s.to_owned(),
            None => {
                return None;
            },
        },
        None => {
            return None;
        },
    };
    let url = match json_get(v, "url") {
        Some(f) => match json_as_str(f) {
            Some(s) => s.to_owned(),
            None => {
                return None;
            },
        },
        None => {
            return None;
        },
    };
    let content = match json_get(v, "content") {
        Some(f) => match json_as_str(f) {
            Some(s) => s.to_owned(),
            None => {
                return None;
            },
        },
        None => {
            return None;
        },
    };
    let engine = match json_get(v, "engine") {
        Some(f) => match json_as_str(f) {
            Some(s) => s.to_owned(),
            None => {
                return None;
            },
        },
        None => {
            return None;
        },
    };
    Some(SearchSource { title, url, content, engine })
}

/// The source list a JSON value carries, exactly as
/// [`sources_list_of`] reads its model.
fn sources_from_value(v: &serde_json::Value) -> (r: Option<Vec<SearchSource>>)
    ensures
        r.deep_view() == sources_list_of(model_of(*v)),
{
    let arr = match json_as_array(v) {
        Some(a) => a,
        None => {
            return None;
        },
    };
    let ghost es = model_of(*v)->es;
    let n = arr.len();
    let mut out: Vec<SearchSource> = Vec::new();
    let mut i: usize = 0;
    proof {
        assert(es.take(0) =~= Seq::<JsonV>::empty());
        assert(out.deep_view() =~= Seq::<SearchSourceV>::empty());
    }
    while i < n
        invariant
            i <= n,
            n == arr@.len(),
            n == es.len(),
            model_of(*v) == (JsonV::List { es }),
            forall|k: int| 0 <= k < es.len() ==> model_of(arr@[k]) == es[k],
            sources_of(es.take(i as int)) == Some(out.deep_view()),
        decreases n - i,
    {
        match source_from_value(&arr[i]) {
            Some(s) => {
                let ghost sv = s.deep_view();
                out.push(s);
                proof {
                    assert(es.take(i + 1).drop_last() =~= es.take(i as int));
                    assert(es.take(i + 1).last() == es[i as int]);
                    assert(out.deep_view() =~= out.deep_view().drop_last().push(sv));
                    assert(sources_of(es.take(i + 1)) == Some(out.deep_view()));
                }
            },
            None => {
                proof {
                    lemma_sources_of_fail(es, i as int);
                }
                return None;
            },
        }
        i += 1;
    }
    proof {
        assert(es.take(n as int) =~= es);
    }
    Some(out)
}

/// Decodes one server-sent event of the query stream into the actions
/// it means and whether the stream is finished. A `results` event
/// replaces the source list with exactly the decoded batch, a
/// `summary-chunk` appends exactly its text field, an `error` fails
/// the stream, `summary-done` completes it, and any other name — or a
/// payload that does not decode — yields nothing.
pub fn decode_stream_event(name: &str, data: &str) -> (r: (Vec<AppAction>, bool))
    ensures
        name@ == "results"@ ==> !r.1 && r.0.deep_view() == (match results_of(data@) {
            Some(ss) => seq![ActionV::SearchSourcesReceived(ss)],
            None => Seq::<ActionV>::empty(),
        }),
        name@ == "summary-chunk"@ ==> !r.1 && r.0.deep_view() == (match chunk_text_of(data@) {
            Some(t) => seq![ActionV::SearchStreamToken(t)],
            None => Seq::<ActionV>::empty(),
        }),
        name@ == "error"@ ==> r.1 && r.0.deep_view() =~= seq![ActionV::SearchError(data@)],
        name@ == "summary-done"@ ==> r.1 && r.0.deep_view() =~= seq![ActionV::SearchDone],
        name@ != "results"@ && name@ != "summary-chunk"@ && name@ != "error"@ && name@
            != "summary-done"@ ==> !r.1 && r.0.deep_view() =~= Seq::<ActionV>::empty(),
{
    proof {
        broadcast use vstd::string::group_string_axioms;

        reveal_strlit("results");
        reveal_strlit("summary-chunk");
        reveal_strlit("error");
        reveal_strlit("summary-done");
        assert("results"@.len() == 7);
        assert("summary-chunk"@.len() == 13);
        assert("error"@.len() == 5);
        assert("summary-done"@.len() == 12);
    }
    let mut acts: Vec<AppAction> = Vec::new();
    let mut stop = false;
    proof {
        assert(acts.deep_view() =~= Seq::<ActionV>::empty());
    }
    if str_eq(name, "results") {
        if let Some(v) = json_parse(data) {
            if let Some(sources) = sources_from_value(&v) {
                let ghost sv = sources.deep_view();
                acts.push(AppAction::SearchSourcesReceived(sources));
                proof {
                    assert(acts.deep_view() =~= seq![ActionV::SearchSourcesReceived(sv)]);
                }
            }
        }
    } else if str_eq(name, "summary-chunk") {
        if let Some(v) = json_parse(data) {
            if let Some(field) = json_get(&v, "text") {
                if let Some(text) = json_as_str(field) {
                    acts.push(AppAction::SearchStreamToken(text.to_owned()));
                    proof {
                        assert(acts.deep_view() =~= seq![ActionV::SearchStreamToken(text@)]);
                    }
                }
            }
        }
    } else if str_eq(name, "error") {
        acts.push(AppAction::SearchError(data.to_owned()));
        stop = true;
        proof {
            assert(acts.deep_view() =~= seq![ActionV::SearchError(data@)]);
        }
    } else if str_eq(name, "summary-done") {
        acts.push(AppAction::SearchDone);
        stop = true;
        proof {
            assert(acts.deep_view() =~= seq![ActionV::SearchDone]);
        }
    }
    (acts, stop)
}

/// The action a transport-level stream failure becomes: the same
/// failure the protocol's own error event carries.
pub fn transport_failure(msg: String) -> (r: AppAction)
    ensures
        r.deep_view() == ActionV::SearchError(msg@),
{
    AppAction::SearchError(msg)
}

/// The transcript entry these parts describe; a role other than the
/// two the service names reads as a system message.
pub fn message_from_parts(role: &str, content: String, sources: Vec<SearchSource>) -> (r:
    ChatMessage)
    ensures
        r.role == role_of(Some(role@)),
        r.content@ == content@,
        r.sources.deep_view() == sources.deep_view(),
{
    let who = if str_eq(role, "user") {
        Role::User
    } else if str_eq(role, "assistant") {
        Role::Assistant
    } else {
        Role::System
    };
    ChatMessage { role: who, content, sources }
}

/// The messages of a loaded conversation, exactly as [`transcript_of`]
/// reads the value's model: for each element of the `messages` array,
/// its role and text, and the embedded serialized source list where
/// one parses.
pub fn transcript_from_value(v: &serde_json::Value) -> (r: Vec<ChatMessage>)
    ensures
        r.deep_view() == transcript_of(model_of(*v)),
{
    let mut out: Vec<ChatMessage> = Vec::new();
    proof {
        assert(out.deep_view() =~= Seq::<ChatMessageV>::empty());
    }
    let msgs = match json_get(v, "messages") {
        Some(field) => match json_as_array(field) {
            Some(a) => a,
            None => {
                return out;
            },
        },
        None => {
            return out;
        },
    };
    let ghost jm = model_of(*v);
    let ghost es = (match field_of(jm, "messages"@) {
        Some(f) => f,
        None => JsonV::Null,
    })->es;
    proof {
        assert(transcript_of(jm) =~= Seq::new(es.len(), |i: int| message_of(es[i])));
    }
    let n = msgs.len();
    let mut i: usize = 0;
    while i < n
        invariant
            i <= n,
            n == msgs@.len(),
            n == es.len(),
            jm == model_of(*v),
            transcript_of(jm) == Seq::new(es.len(), |k: int| message_of(es[k])),
            forall|k: int| 0 <= k < es.len() ==> model_of(msgs@[k]) == es[k],
            out.deep_view() =~= transcript_of(jm).take(i as int),
        decreases n - i,
    {
        let m = &msgs[i];
        let role_txt = match json_get(m, "role") {
            Some(f) => match json_as_str(f) {
                Some(s) => s,
                None => "unknown",
            },
            None => "unknown",
        };
        let content = match json_get(m, "content") {
            Some(f) => match json_as_str(f) {
                Some(s) => s.to_owned(),
                None => String::new(),
            },
            None => String::new(),
        };
        let sources = match json_get(m, "sources") {
            Some(f) => match json_as_str(f) {
                Some(s) => match json_parse(s) {
                    Some(pv) => match sources_from_value(&pv) {
                        Some(list) => list,
                        None => Vec::new(),
                    },
                    None => Vec::new(),
                },
                None => Vec::new(),
            },
            None => Vec::new(),
        };
        proof {
            broadcast use vstd::string::group_string_axioms;

            reveal_strlit("unknown");
            reveal_strlit("user");
            reveal_strlit("assistant");
            assert("unknown"@.len() == 7);
            assert("user"@.len() == 4);
            assert("assistant"@.len() == 9);
            assert(model_of(msgs@[i as int]) == es[i as int]);
            assert(role_of(Some(role_txt@)) == role_of(text_field(es[i as int], "role"@)));
            assert(content@ == (match text_field(es[i as int], "content"@) {
                Some(c) => c,
                None => Seq::<char>::empty(),
            }));
            assert(sources.deep_view() =~= message_sources_of(es[i as int]));
        }
        let entry = message_from_parts(role_txt, content, sources);
        let ghost out_pre = out.deep_view();
        proof {
            assert(entry.deep_view() =~= message_of(es[i as int]));
        }
        out.push(entry);
        proof {
            assert(out.deep_view() =~= out_pre.push(message_of(es[i as int])));
            assert(transcript_of(jm)[i as int] == message_of(es[i as int]));
            assert(transcript_of(jm).take(i + 1) =~= transcript_of(jm).take(i as int).push(
                message_of(es[i as int]),
            ));
        }
        i += 1;
    }
    proof {
        assert(transcript_of(jm).take(n as int) =~= transcript_of(jm));
    }
    out
}

} // verus!
