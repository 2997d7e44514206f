//! What the hooks of a session report.

use super::record::PersistedHandoffRecord;
use crate::json::{get_field, json_as_text, json_get, json_view, Json};
use crate::text::{same_text, trim, trim_text};
use std::collections::hash_map::DefaultHasher;
use std::hash::Hasher;
use vstd::prelude::*;
use vstd::std_specs::hash::DefaultHasherAdditionalSpecFns;
use vstd::utf8::encode_utf8;

verus! {

/// A report of a hook. `permission_fingerprint` stands for what a permission was asked
/// for, without holding any of it.
#[derive(Debug)]
pub struct RemoteHookEvent {
    pub tab_id: String,
    pub source: String,
    pub event: String,
    pub cli_session_id: Option<String>,
    pub permission_fingerprint: Option<u64>,
}

/// A report of a hook as a value.
pub struct HookEvent {
    pub tab_id: Seq<char>,
    pub source: Seq<char>,
    pub event: Seq<char>,
    pub cli_session_id: Option<Seq<char>>,
    pub permission_fingerprint: Option<u64>,
}

/// The text of an optional string.
pub open spec fn optional_text(text: Option<String>) -> Option<Seq<char>> {
    match text {
        Some(t) => Some(t@),
        None => None,
    }
}

impl View for RemoteHookEvent {
    type V = HookEvent;

    open spec fn view(&self) -> HookEvent {
        HookEvent {
            tab_id: self.tab_id@,
            source: self.source@,
            event: self.event@,
            cli_session_id: optional_text(self.cli_session_id),
            permission_fingerprint: self.permission_fingerprint,
        }
    }
}

/// The text that `json` holds under `key`, without the white space around it; a text
/// that is only white space counts as none.
pub open spec fn trimmed_field(json: Json, key: Seq<char>) -> Option<Seq<char>> {
    match json_get(json, key) {
        Some(field) => match json_as_text(field) {
            Some(text) => if trim(text).len() > 0 {
                Some(trim(text))
            } else {
                None
            },
            None => None,
        },
        None => None,
    }
}

/// The text under the first of the keys under which there is one.
pub open spec fn text_field(json: Json, keys: Seq<Seq<char>>) -> Option<Seq<char>>
    decreases keys.len(),
{
    if keys.len() == 0 {
        None
    } else {
        match trimmed_field(json, keys[0]) {
            Some(text) => Some(text),
            None => text_field(json, keys.drop_first()),
        }
    }
}

/// What stands for a text: the standard library's hash of it.
pub open spec fn fingerprint_of(text: Seq<char>) -> u64 {
    DefaultHasher::spec_finish(seq![encode_utf8(text), seq![0xffu8]])
}

/// The report in `json`: it names the tab, the source and the event.
pub open spec fn event_in(json: Json) -> Option<HookEvent> {
    match (
        text_field(json, seq!["tabId"@, "tab_id"@]),
        text_field(json, seq!["source"@]),
        text_field(json, seq!["event"@]),
    ) {
        (Some(tab_id), Some(source), Some(event)) => Some(
            HookEvent {
                tab_id,
                source,
                event,
                cli_session_id: text_field(json, seq!["sessionId"@, "session_id"@]),
                permission_fingerprint: match text_field(
                    json,
                    seq!["toolUseId"@, "tool_use_id"@, "message"@],
                ) {
                    Some(text) => Some(fingerprint_of(text)),
                    None => None,
                },
            },
        ),
        _ => None,
    }
}

/// Whether a report is of the session that was handed off: it comes from Codex, in that
/// session's tab, and names no other session.
pub open spec fn is_of(event: HookEvent, record: PersistedHandoffRecord) -> bool {
    &&& event.source == "codex"@
    &&& event.tab_id == record.local_session_id@
    &&& event.cli_session_id matches Some(session) ==> session == record.cli_session_id@
}

/// The texts of some keys.
pub open spec fn key_texts(keys: Seq<&str>) -> Seq<Seq<char>> {
    keys.map_values(|key: &str| key@)
}

fn trimmed_text_field(value: &serde_json::Value, key: &str) -> (text: Option<String>)
    ensures
        optional_text(text) == trimmed_field(json_view(*value), key@),
{
    match get_field(value, key) {
        Some(field) => match field.as_str() {
            Some(text) => {
                let trimmed = trim_text(text);
                if trimmed.is_empty() {
                    None
                } else {
                    Some(trimmed.to_owned())
                }
            },
            None => None,
        },
        None => None,
    }
}

/// The text under the first of the keys under which there is one that is not blank,
/// without the white space around it.
pub fn string_field(value: &serde_json::Value, keys: &[&str]) -> (text: Option<String>)
    ensures
        optional_text(text) == text_field(json_view(*value), key_texts(keys@)),
{
    let ghost all = key_texts(keys@);
    let mut i: usize = 0;
    assert(all.skip(0) =~= all);
    while i < keys.len()
        invariant
            i <= keys@.len(),
            all == key_texts(keys@),
            text_field(json_view(*value), all) == text_field(
                json_view(*value),
                all.skip(i as int),
            ),
        decreases keys@.len() - i,
    {
        assert(all.skip(i as int)[0] == keys@[i as int]@);
        assert(all.skip(i as int).drop_first() =~= all.skip(i + 1));
        let text = trimmed_text_field(value, keys[i]);
        if text.is_some() {
            return text;
        }
        i = i + 1;
    }
    None
}

/// What stands for a text, without holding any of it.
pub fn fingerprint(text: &str) -> (fingerprint: u64)
    ensures
        fingerprint == fingerprint_of(text@),
{
    let mut hasher = DefaultHasher::new();
    let end: [u8; 1] = [0xff];
    hasher.write(text.as_bytes());
    hasher.write(end.as_slice());
    assert(end@ =~= seq![0xffu8]);
    assert(hasher@ =~= seq![encode_utf8(text@), seq![0xffu8]]);
    hasher.finish()
}

impl RemoteHookEvent {
    /// The report in a hook's payload.
    pub fn from_payload(payload: &serde_json::Value) -> (event: Option<Self>)
        ensures
            match event {
                Some(e) => event_in(json_view(*payload)) == Some(e@),
                None => event_in(json_view(*payload)) is None,
            },
    {
        let tab_keys: [&str; 2] = ["tabId", "tab_id"];
        let source_keys: [&str; 1] = ["source"];
        let event_keys: [&str; 1] = ["event"];
        let session_keys: [&str; 2] = ["sessionId", "session_id"];
        let permission_keys: [&str; 3] = ["toolUseId", "tool_use_id", "message"];
        assert(key_texts(tab_keys@) =~= seq!["tabId"@, "tab_id"@]);
        assert(key_texts(source_keys@) =~= seq!["source"@]);
        assert(key_texts(event_keys@) =~= seq!["event"@]);
        assert(key_texts(session_keys@) =~= seq!["sessionId"@, "session_id"@]);
        assert(key_texts(permission_keys@) =~= seq!["toolUseId"@, "tool_use_id"@, "message"@]);
        let tab_id = match string_field(payload, tab_keys.as_slice()) {
            Some(text) => text,
            None => {
                return None;
            },
        };
        let source = match string_field(payload, source_keys.as_slice()) {
            Some(text) => text,
            None => {
                return None;
            },
        };
        let event = match string_field(payload, event_keys.as_slice()) {
            Some(text) => text,
            None => {
                return None;
            },
        };
        let cli_session_id = string_field(payload, session_keys.as_slice());
        let permission_fingerprint = match string_field(payload, permission_keys.as_slice()) {
            Some(text) => Some(fingerprint(text.as_str())),
            None => None,
        };
        Some(
            RemoteHookEvent { tab_id, source, event, cli_session_id, permission_fingerprint },
        )
    }

    /// Whether this report is of the session that was handed off.
    pub fn belongs_to(&self, record: &PersistedHandoffRecord) -> (r: bool)
        ensures
            r == is_of(self@, *record),
    {
        let session_matches = match &self.cli_session_id {
            Some(session) => same_text(session.as_str(), record.cli_session_id.as_str()),
            None => true,
        };
        same_text(self.source.as_str(), "codex") && same_text(
            self.tab_id.as_str(),
            record.local_session_id.as_str(),
        ) && session_matches
    }
}

/// Whether `json` is an object whose field `key` holds the text `text`, past the white
/// space around it, and `text` is not empty.
pub open spec fn says(json: Json, key: Seq<char>, text: Seq<char>) -> bool {
    &&& json matches Json::Object(fields) && fields.dom().contains(key) && (fields[key]
        matches Json::Text(raw) && trim(raw) == text)
    &&& text.len() > 0
}

/// Whether `json` has no text under `key`: no such field, one that is no text, or a blank
/// one.
pub open spec fn says_nothing(json: Json, key: Seq<char>) -> bool {
    forall|text: Seq<char>| !#[trigger] says(json, key, text)
}

proof fn lemma_trimmed_field(json: Json, key: Seq<char>)
    ensures
        trimmed_field(json, key) matches Some(text) ==> says(json, key, text),
        trimmed_field(json, key) is None ==> says_nothing(json, key),
        forall|text: Seq<char>| #[trigger]
            says(json, key, text) ==> trimmed_field(json, key) == Some(text),
{
}

/// A text is looked for under several keys, and the first of them that has one counts;
/// there is none only where no key has one.
pub proof fn law_first_key_with_a_text_counts(
    value: &serde_json::Value,
    keys: &[&str],
    text: Option<String>,
)
    requires
        call_ensures(string_field, (value, keys), text),
    ensures
        text is None ==> forall|i: int|
            0 <= i < keys@.len() ==> says_nothing(json_view(*value), (#[trigger] keys@[i])@),
        text matches Some(t) ==> exists|i: int|
            {
                &&& 0 <= i < keys@.len()
                &&& says(json_view(*value), (#[trigger] keys@[i])@, t@)
                &&& forall|j: int|
                    0 <= j < i ==> says_nothing(json_view(*value), (#[trigger] keys@[j])@)
            },
{
    let all = key_texts(keys@);
    let found = lemma_text_field(json_view(*value), all);
    if text is Some {
        assert(all[found] == keys@[found]@);
        assert forall|j: int| 0 <= j < found implies says_nothing(
            json_view(*value),
            (#[trigger] keys@[j])@,
        ) by {
            assert(all[j] == keys@[j]@);
        }
        assert(says(json_view(*value), keys@[found]@, text->0@));
    } else {
        assert forall|i: int| 0 <= i < keys@.len() implies says_nothing(
            json_view(*value),
            (#[trigger] keys@[i])@,
        ) by {
            assert(all[i] == keys@[i]@);
        }
    }
}

proof fn lemma_text_field(json: Json, keys: Seq<Seq<char>>) -> (found: int)
    ensures
        text_field(json, keys) matches Some(text) ==> 0 <= found < keys.len() && says(
            json,
            keys[found],
            text,
        ) && forall|j: int| 0 <= j < found ==> says_nothing(json, #[trigger] keys[j]),
        text_field(json, keys) is None ==> forall|i: int|
            0 <= i < keys.len() ==> says_nothing(json, #[trigger] keys[i]),
    decreases keys.len(),
{
    if keys.len() == 0 {
        0
    } else {
        lemma_trimmed_field(json, keys[0]);
        if trimmed_field(json, keys[0]) is Some {
            0
        } else {
            let rest = keys.drop_first();
            let found = lemma_text_field(json, rest);
            assert forall|i: int| 0 <= i < rest.len() implies rest[i] == #[trigger] keys[i
                + 1] by {}
            if text_field(json, rest) is Some {
                assert forall|j: int| 0 <= j < found + 1 implies says_nothing(
                    json,
                    #[trigger] keys[j],
                ) by {
                    if j > 0 {
                        assert(rest[j - 1] == keys[j]);
                    }
                }
            } else {
                assert forall|i: int| 0 <= i < keys.len() implies says_nothing(
                    json,
                    #[trigger] keys[i],
                ) by {
                    if i > 0 {
                        assert(rest[i - 1] == keys[i]);
                    }
                }
            }
            found + 1
        }
    }
}

/// Whether `text` is what `json` says under the first of two keys, or else under the
/// second.
pub open spec fn says_under(
    json: Json,
    first: Seq<char>,
    second: Seq<char>,
    text: Seq<char>,
) -> bool {
    says(json, first, text) || (says_nothing(json, first) && says(json, second, text))
}

proof fn lemma_text_fields(json: Json, a: Seq<char>, b: Seq<char>, c: Seq<char>)
    ensures
        text_field(json, seq![a]) == trimmed_field(json, a),
        text_field(json, seq![a, b]) == if trimmed_field(json, a) is Some {
            trimmed_field(json, a)
        } else {
            trimmed_field(json, b)
        },
        text_field(json, seq![a, b, c]) == if trimmed_field(json, a) is Some {
            trimmed_field(json, a)
        } else if trimmed_field(json, b) is Some {
            trimmed_field(json, b)
        } else {
            trimmed_field(json, c)
        },
{
    reveal_with_fuel(text_field, 4);
    assert(seq![a].drop_first() =~= Seq::<Seq<char>>::empty());
    assert(seq![a, b].drop_first() =~= seq![b]);
    assert(seq![b].drop_first() =~= Seq::<Seq<char>>::empty());
    assert(seq![a, b, c].drop_first() =~= seq![b, c]);
    assert(seq![b, c].drop_first() =~= seq![c]);
    assert(seq![c].drop_first() =~= Seq::<Seq<char>>::empty());
}

/// A payload is a report exactly where it names a tab, a source and an event. The report
/// has these texts, without the white space around them; the session where one is named;
/// and a fingerprint of what a permission is asked for, where the payload tells that: by
/// the id of the tool's use, or else by the message.
pub proof fn law_report_holds_what_the_payload_says(
    payload: &serde_json::Value,
    event: Option<RemoteHookEvent>,
)
    requires
        call_ensures(RemoteHookEvent::from_payload, (payload,), event),
    ensures
        ({
            let json = json_view(*payload);
            &&& event is None <==> (says_nothing(json, "tabId"@) && says_nothing(json, "tab_id"@))
                || says_nothing(json, "source"@) || says_nothing(json, "event"@)
            &&& event matches Some(e) ==> {
                &&& says_under(json, "tabId"@, "tab_id"@, e.tab_id@)
                &&& says(json, "source"@, e.source@)
                &&& says(json, "event"@, e.event@)
                &&& e.cli_session_id is None <==> says_nothing(json, "sessionId"@)
                    && says_nothing(json, "session_id"@)
                &&& e.cli_session_id matches Some(session) ==> says_under(
                    json,
                    "sessionId"@,
                    "session_id"@,
                    session@,
                )
                &&& e.permission_fingerprint is None <==> says_nothing(json, "toolUseId"@)
                    && says_nothing(json, "tool_use_id"@) && says_nothing(json, "message"@)
                &&& forall|text: Seq<char>| #[trigger]
                    says_under(json, "toolUseId"@, "tool_use_id"@, text)
                        ==> e.permission_fingerprint == Some(fingerprint_of(text))
                &&& says_nothing(json, "toolUseId"@) && says_nothing(json, "tool_use_id"@)
                    ==> forall|text: Seq<char>| #[trigger]
                    says(json, "message"@, text) ==> e.permission_fingerprint == Some(
                        fingerprint_of(text),
                    )
            }
        }),
{
    let json = json_view(*payload);
    lemma_text_fields(json, "tabId"@, "tab_id"@, ""@);
    lemma_text_fields(json, "source"@, ""@, ""@);
    lemma_text_fields(json, "event"@, ""@, ""@);
    lemma_text_fields(json, "sessionId"@, "session_id"@, ""@);
    lemma_text_fields(json, "toolUseId"@, "tool_use_id"@, "message"@);
    lemma_trimmed_field(json, "tabId"@);
    lemma_trimmed_field(json, "tab_id"@);
    lemma_trimmed_field(json, "source"@);
    lemma_trimmed_field(json, "event"@);
    lemma_trimmed_field(json, "sessionId"@);
    lemma_trimmed_field(json, "session_id"@);
    lemma_trimmed_field(json, "toolUseId"@);
    lemma_trimmed_field(json, "tool_use_id"@);
    lemma_trimmed_field(json, "message"@);
}

/// A report is of the session that was handed off where it comes from Codex, in the tab of
/// that session, and names no other session.
pub proof fn law_report_is_of_its_session(
    event: RemoteHookEvent,
    record: PersistedHandoffRecord,
    r: bool,
)
    requires
        call_ensures(RemoteHookEvent::belongs_to, (&event, &record), r),
    ensures
        r <==> event.source@ == "codex"@ && event.tab_id@ == record.local_session_id@ && (
        event.cli_session_id is None || event.cli_session_id->0@ == record.cli_session_id@),
{
}

/// The same text always has the same fingerprint.
pub proof fn law_fingerprint_depends_on_the_text(a: &str, b: &str, x: u64, y: u64)
    requires
        call_ensures(fingerprint, (a,), x),
        call_ensures(fingerprint, (b,), y),
        a@ == b@,
    ensures
        x == y,
        x == DefaultHasher::spec_finish(seq![encode_utf8(a@), seq![0xffu8]]),
{
}

} // verus!
