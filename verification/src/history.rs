//! Message histories: the session history text and the rows of the local store.

use vstd::prelude::*;

use crate::events;
use crate::events::{decode_object, is_text, system_event_envelope, HistoryMessage, MessageView};
use crate::json;
use crate::json::{or_text, InvalidJson, Json, JsonView};
use crate::text;
use crate::text::{chars_of, i64_to_text};

verus! {

/// The most rows that are read from the local store.
pub const MAX_LOCAL_ROWS: i64 = 512;

/// The longest command text that is read from the local store, in bytes.
pub const MAX_COMMAND_JSON_BYTES: i64 = 131_072;

/// The longest key that is looked up in the local store.
pub const MAX_LOOKUP_KEY: usize = 256;

/// The value under a key, or null.
pub open spec fn member_or_null(object: JsonView, key: Seq<char>) -> JsonView {
    match json::member(object, key) {
        Some(value) => value,
        None => JsonView::Null,
    }
}

fn member_or_null_value(object: &Json, key: &str) -> (r: Json)
    ensures
        r@ == member_or_null(object@, key@),
{
    match object.get(key) {
        Some(value) => value.clone(),
        None => Json::Null,
    }
}

/// The message that a row of a session history states: an object with an id.
pub open spec fn row_message(row: JsonView) -> Option<MessageView> {
    match json::text_at(row, "id"@) {
        Some(id) => Some(
            MessageView {
                id,
                sender_inbox_id: json::text_at(row, "senderInboxId"@),
                content: member_or_null(row, "content"@),
                sent_at: json::text_at(row, "sentAt"@),
                delivery_status: json::text_at(row, "deliveryStatus"@),
            },
        ),
        None => None,
    }
}

/// The messages that the rows of a session history state, in their order.
pub open spec fn row_messages(rows: Seq<JsonView>) -> Seq<MessageView>
    decreases rows.len(),
{
    if rows.len() == 0 {
        Seq::empty()
    } else {
        match row_message(rows.last()) {
            Some(message) => row_messages(rows.drop_last()).push(message),
            None => row_messages(rows.drop_last()),
        }
    }
}

/// The messages of a session history: those of an array, none of any other value.
pub open spec fn session_messages(value: JsonView) -> Seq<MessageView> {
    match value {
        JsonView::Array(rows) => row_messages(rows),
        _ => Seq::empty(),
    }
}

fn message_from_row(row: &Json) -> (r: Option<HistoryMessage>)
    ensures
        match r {
            Some(message) => row_message(row@) == Some(message@),
            None => row_message(row@) is None,
        },
{
    match row.text_at("id") {
        Some(id) => Some(
            HistoryMessage {
                id,
                sender_inbox_id: row.text_at("senderInboxId"),
                content: member_or_null_value(row, "content"),
                sent_at: row.text_at("sentAt"),
                delivery_status: row.text_at("deliveryStatus"),
            },
        ),
        None => None,
    }
}

/// The messages of a decoded session history. Rows that are no objects or have
/// no id are passed over.
pub fn messages_from_value(value: &Json) -> (r: Vec<HistoryMessage>)
    ensures
        events::messages_view(r@) == session_messages(value@),
{
    let mut out: Vec<HistoryMessage> = Vec::new();
    let rows = match value.as_array() {
        Some(rows) => rows,
        None => {
            assert(events::messages_view(out@) =~= Seq::empty());
            return out;
        },
    };
    let ghost all = json::jsons_view(rows@);
    assert(events::messages_view(out@) =~= row_messages(all.take(0)));
    let mut i: usize = 0;
    while i < rows.len()
        invariant
            i <= rows.len(),
            all == json::jsons_view(rows@),
            events::messages_view(out@) == row_messages(all.take(i as int)),
        decreases rows.len() - i,
    {
        assert(all.take(i + 1).drop_last() =~= all.take(i as int));
        assert(all.take(i + 1).last() == rows@[i as int]@);
        if let Some(message) = message_from_row(&rows[i]) {
            out.push(message);
            assert(events::messages_view(out@) =~= row_messages(all.take(i + 1)));
        }
        i = i + 1;
    }
    assert(all.take(all.len() as int) =~= all);
    out
}

/// Reads the output of a session history. A text that is no JSON is an error;
/// anything in it that is not a message is passed over.
pub fn parse_history(raw: &str) -> (r: Result<Vec<HistoryMessage>, InvalidJson>)
    ensures
        match r {
            Ok(messages) => json::parsed_json(raw@) matches Some(value) && events::messages_view(
                messages@,
            ) == session_messages(value),
            Err(_) => json::parsed_json(raw@) is None,
        },
{
    match Json::parse(raw) {
        Ok(value) => Ok(messages_from_value(&value)),
        Err(error) => Err(error),
    }
}

/// A character that a lookup key may hold.
pub open spec fn is_key_char(c: char) -> bool {
    'a' <= c <= 'z' || 'A' <= c <= 'Z' || '0' <= c <= '9' || c == '-' || c == '_' || c == ':'
}

/// A lookup key for the local store: short, and of harmless characters only.
pub open spec fn is_lookup_key(value: Seq<char>) -> bool {
    0 < value.len() <= MAX_LOOKUP_KEY && forall|i: int|
        0 <= i < value.len() ==> is_key_char(#[trigger] value[i])
}

/// Whether a text may be looked up in the local store.
pub fn safe_lookup_key(value: &str) -> (r: bool)
    ensures
        r == is_lookup_key(value@),
{
    let chars = chars_of(value);
    if chars.len() == 0 || chars.len() > MAX_LOOKUP_KEY {
        return false;
    }
    let mut i: usize = 0;
    while i < chars.len()
        invariant
            i <= chars.len(),
            chars@ == value@,
            forall|k: int| 0 <= k < i ==> is_key_char(#[trigger] value@[k]),
        decreases chars.len() - i,
    {
        let c = chars[i];
        let allowed = ('a' <= c && c <= 'z') || ('A' <= c && c <= 'Z') || ('0' <= c && c <= '9')
            || c == '-' || c == '_' || c == ':';
        if !allowed {
            assert(!is_key_char(value@[i as int]));
            return false;
        }
        i = i + 1;
    }
    true
}

/// A row of the local command store.
#[derive(Debug, PartialEq, Eq)]
pub struct CommandRow {
    pub id: String,
    pub command_json: String,
    pub created_at_ms: Option<i64>,
}

/// The model of a row of the local command store.
#[verifier::ext_equal]
pub struct CommandRowView {
    pub id: Seq<char>,
    pub command_json: Seq<char>,
    pub created_at_ms: Option<i64>,
}

impl View for CommandRow {
    type V = CommandRowView;

    open spec fn view(&self) -> CommandRowView {
        CommandRowView {
            id: self.id@,
            command_json: self.command_json@,
            created_at_ms: self.created_at_ms,
        }
    }
}

/// The models of a list of rows.
pub open spec fn rows_view(rows: Seq<CommandRow>) -> Seq<CommandRowView> {
    Seq::new(rows.len(), |i: int| rows[i]@)
}

/// The text under a key of the command, or else of its content.
pub open spec fn command_text(
    command: JsonView,
    content: Option<JsonView>,
    key: Seq<char>,
) -> Option<Seq<char>> {
    text::or_else_view(
        json::text_at(command, key),
        match content {
            Some(object) => json::text_at(object, key),
            None => None,
        },
    )
}

/// Whether a command is the expected user's: by its client where it names one,
/// else by its agent.
pub open spec fn belongs_to(
    command: JsonView,
    content: Option<JsonView>,
    expected: Seq<char>,
) -> bool {
    match command_text(command, content, "clientAgentId"@) {
        Some(client) => client == expected,
        None => command_text(command, content, "agentId"@) == Some(expected),
    }
}

fn text_of_command(command: &Json, content: Option<&Json>, key: &str) -> (r: Option<String>)
    ensures
        text::opt_view(r) == command_text(command@, json::opt_json_ref(content), key@),
{
    let inner = match content {
        Some(object) => object.text_at(key),
        None => None,
    };
    or_text(command.text_at(key), inner)
}

/// Whether a command is the expected user's: by its client where it names one,
/// else by its agent.
pub fn local_row_belongs_to_user(command: &Json, content: Option<&Json>, expected: &str) -> (r:
    bool)
    ensures
        r == belongs_to(command@, json::opt_json_ref(content), expected@),
{
    let client = text_of_command(command, content, "clientAgentId");
    if client.is_some() {
        return is_text(&client, expected);
    }
    let agent = text_of_command(command, content, "agentId");
    is_text(&agent, expected)
}

/// Whether a command holds an official event of the job for the user.
pub open spec fn is_scoped(command: JsonView, job: Seq<char>, user: Seq<char>) -> bool {
    let content = member_or_null(command, "content"@);
    &&& belongs_to(command, events::decoded_object(content), user)
    &&& events::official_envelope(content) matches Some(envelope) && json::text_at(
        envelope,
        "jobId"@,
    ) == Some(job)
}

/// The message of a command row that is in scope.
pub open spec fn command_message(command: JsonView, row: CommandRowView) -> MessageView {
    MessageView {
        id: match json::text_at(command, "messageId"@) {
            Some(id) => id,
            None => row.id,
        },
        sender_inbox_id: None,
        content: member_or_null(command, "content"@),
        sent_at: text::or_else_view(
            json::text_at(command, "createdAt"@),
            match row.created_at_ms {
                Some(ms) => Some(text::decimal(ms as int)),
                None => None,
            },
        ),
        delivery_status: Some("local"@),
    }
}

/// The message that a command row contributes to a job and user: none unless
/// the row is JSON and in scope.
pub open spec fn local_message(row: CommandRowView, job: Seq<char>, user: Seq<char>) -> Option<
    MessageView,
> {
    match json::parsed_json(row.command_json) {
        Some(command) => if is_scoped(command, job, user) {
            Some(command_message(command, row))
        } else {
            None
        },
        None => None,
    }
}

/// The messages that command rows contribute, in their order.
pub open spec fn local_messages(
    rows: Seq<CommandRowView>,
    job: Seq<char>,
    user: Seq<char>,
) -> Seq<MessageView>
    decreases rows.len(),
{
    if rows.len() == 0 {
        Seq::empty()
    } else {
        match local_message(rows.last(), job, user) {
            Some(message) => local_messages(rows.drop_last(), job, user).push(message),
            None => local_messages(rows.drop_last(), job, user),
        }
    }
}

/// The message that a decoded command contributes to a job and user, if it is
/// in scope.
pub fn message_from_command(
    command: &Json,
    row: &CommandRow,
    job_id: &str,
    user_agent_id: &str,
) -> (r: Option<HistoryMessage>)
    ensures
        match r {
            Some(message) => is_scoped(command@, job_id@, user_agent_id@) && message@
                == command_message(command@, row@),
            None => !is_scoped(command@, job_id@, user_agent_id@),
        },
{
    let content = member_or_null_value(command, "content");
    let decoded = decode_object(&content);
    if !local_row_belongs_to_user(command, decoded.as_ref(), user_agent_id) {
        return None;
    }
    match system_event_envelope(&content) {
        None => {
            return None;
        },
        Some(envelope) => {
            let job = envelope.text_at("jobId");
            if !is_text(&job, job_id) {
                return None;
            }
        },
    }
    let id = match command.text_at("messageId") {
        Some(id) => id,
        None => row.id.clone(),
    };
    let stored = match row.created_at_ms {
        Some(ms) => Some(i64_to_text(ms)),
        None => None,
    };
    Some(
        HistoryMessage {
            id,
            sender_inbox_id: None,
            content,
            sent_at: or_text(command.text_at("createdAt"), stored),
            delivery_status: Some("local".to_string()),
        },
    )
}

/// The messages that command rows contribute to a job and user.
pub fn messages_from_rows(rows: &[CommandRow], job_id: &str, user_agent_id: &str) -> (r: Vec<
    HistoryMessage,
>)
    ensures
        events::messages_view(r@) == local_messages(rows_view(rows@), job_id@, user_agent_id@),
{
    let ghost all = rows_view(rows@);
    let mut out: Vec<HistoryMessage> = Vec::new();
    assert(events::messages_view(out@) =~= local_messages(all.take(0), job_id@, user_agent_id@));
    let mut i: usize = 0;
    while i < rows.len()
        invariant
            i <= rows@.len(),
            all == rows_view(rows@),
            events::messages_view(out@) == local_messages(
                all.take(i as int),
                job_id@,
                user_agent_id@,
            ),
        decreases rows@.len() - i,
    {
        let ghost next = all.take(i + 1);
        assert(next.drop_last() =~= all.take(i as int));
        assert(next.last() == rows@[i as int]@);
        if let Ok(command) = Json::parse(rows[i].command_json.as_str()) {
            if let Some(message) = message_from_command(&command, &rows[i], job_id, user_agent_id) {
                out.push(message);
                assert(events::messages_view(out@) =~= local_messages(
                    next,
                    job_id@,
                    user_agent_id@,
                ));
            }
        }
        i = i + 1;
    }
    assert(all.take(all.len() as int) =~= all);
    out
}

/// What a reading of the local store brought.
#[derive(Debug, PartialEq, Eq)]
pub struct LocalHistoryRead {
    pub messages: Vec<HistoryMessage>,
    pub read_succeeded: bool,
}

/// What a reading of the local store comes to: `rows` is what the store gave
/// for the job, if it could be read.
pub fn read_scoped_local_history(
    job_id: &str,
    user_agent_id: &str,
    rows: Option<&[CommandRow]>,
) -> (r: LocalHistoryRead)
    ensures
        r.read_succeeded == (is_lookup_key(job_id@) && is_lookup_key(user_agent_id@)
            && rows is Some),
        events::messages_view(r.messages@) == (if r.read_succeeded {
            local_messages(rows_view(rows->0@), job_id@, user_agent_id@)
        } else {
            Seq::empty()
        }),
{
    if safe_lookup_key(job_id) && safe_lookup_key(user_agent_id) {
        if let Some(found) = rows {
            return LocalHistoryRead {
                messages: messages_from_rows(found, job_id, user_agent_id),
                read_succeeded: true,
            };
        }
    }
    let messages: Vec<HistoryMessage> = Vec::new();
    assert(events::messages_view(messages@) =~= Seq::empty());
    LocalHistoryRead { messages, read_succeeded: false }
}

/// Every message read from the local store stems from a row that is JSON, is
/// the user's, and holds an official event of exactly this job.
pub proof fn local_messages_are_scoped(
    rows: Seq<CommandRowView>,
    job: Seq<char>,
    user: Seq<char>,
    i: int,
)
    requires
        0 <= i < local_messages(rows, job, user).len(),
    ensures
        exists|k: int|
            0 <= k < rows.len() && json::parsed_json((#[trigger] rows[k]).command_json) is Some
                && is_scoped(json::parsed_json(rows[k].command_json)->0, job, user)
                && local_messages(rows, job, user)[i] == command_message(
                json::parsed_json(rows[k].command_json)->0,
                rows[k],
            ),
    decreases rows.len(),
{
    let front = rows.drop_last();
    if i < local_messages(front, job, user).len() {
        local_messages_are_scoped(front, job, user, i);
        let k = choose|k: int|
            0 <= k < front.len() && json::parsed_json((#[trigger] front[k]).command_json) is Some
                && is_scoped(json::parsed_json(front[k].command_json)->0, job, user)
                && local_messages(front, job, user)[i] == command_message(
                json::parsed_json(front[k].command_json)->0,
                front[k],
            );
        assert(rows[k] == front[k]);
    } else {
        assert(rows[rows.len() - 1] == rows.last());
    }
}

/// A lookup key holds no character that ends a quoted text or a path segment.
pub proof fn lookup_keys_are_harmless(key: Seq<char>, c: char)
    requires
        is_lookup_key(key),
        c == '\'' || c == '"' || c == ';' || c == '/' || c == '\\' || c == '.' || c == ' ' || c
            == '%',
    ensures
        !key.contains(c),
{
    if key.contains(c) {
        let i = choose|i: int| 0 <= i < key.len() && key[i] == c;
        assert(is_key_char(key[i]));
    }
}

/// What the file system says of the paths to the local store. A field is
/// missing where the question could not be answered.
#[derive(Debug, PartialEq, Eq)]
pub struct DatabasePathFacts {
    pub root_is_symlink: Option<bool>,
    pub directory_is_symlink: Option<bool>,
    pub database_is_symlink: Option<bool>,
    pub database_is_file: Option<bool>,
    pub database_is_below_root: Option<bool>,
}

/// Whether the local store may be opened, by what the file system says of its path.
pub open spec fn may_be_opened(facts: DatabasePathFacts) -> bool {
    &&& facts.root_is_symlink == Some(false)
    &&& facts.directory_is_symlink == Some(false)
    &&& facts.database_is_symlink == Some(false)
    &&& facts.database_is_file == Some(true)
    &&& facts.database_is_below_root == Some(true)
}

/// Whether the local store may be opened: no part of its path is a symbolic
/// link, it is a file, and its resolved path lies below the resolved root.
pub fn database_path_is_valid(facts: &DatabasePathFacts) -> (r: bool)
    ensures
        r == may_be_opened(*facts),
{
    is_fact(facts.root_is_symlink, false) && is_fact(facts.directory_is_symlink, false) && is_fact(
        facts.database_is_symlink,
        false,
    ) && is_fact(facts.database_is_file, true) && is_fact(facts.database_is_below_root, true)
}

fn is_fact(answer: Option<bool>, expected: bool) -> (r: bool)
    ensures
        r == (answer == Some(expected)),
{
    match answer {
        Some(b) => b == expected,
        None => false,
    }
}

/// A part of a file path.
#[derive(Debug, Clone, Copy, PartialEq, Eq, Structural)]
pub enum PathPart {
    Prefix,
    Root,
    Current,
    Parent,
    Normal,
}

/// An entry of a deliverables manifest, with the parts of its file name.
#[derive(Debug, PartialEq, Eq)]
pub struct DeliverableEntry {
    pub filename: String,
    pub parts: Vec<PathPart>,
}

/// A manifest of stored deliverables.
#[derive(Debug, PartialEq, Eq)]
pub struct DeliverableManifest {
    pub job_id: String,
    pub role: String,
    pub entries: Vec<DeliverableEntry>,
}

/// The last entry of a manifest that is the user's for this job, if its file
/// name is a plain one.
pub open spec fn listed_deliverable(manifest: DeliverableManifest, job: Seq<char>) -> Option<
    Seq<char>,
> {
    if is_lookup_key(job) && manifest.job_id@ == job && manifest.role@ == "user"@
        && manifest.entries@.len() > 0
        && manifest.entries@.last().parts@ == seq![PathPart::Normal] {
        Some(manifest.entries@.last().filename@)
    } else {
        None
    }
}

/// The file name of the deliverable that a manifest lists for the user and job.
pub fn user_deliverable_name(manifest: &DeliverableManifest, job_id: &str) -> (r: Option<String>)
    ensures
        text::opt_view(r) == listed_deliverable(*manifest, job_id@),
{
    if !safe_lookup_key(job_id) || !text::text_eq(manifest.job_id.as_str(), job_id)
        || !text::text_eq(manifest.role.as_str(), "user") || manifest.entries.len() == 0 {
        return None;
    }
    let entry = &manifest.entries[manifest.entries.len() - 1];
    if entry.parts.len() == 1 && entry.parts[0] == PathPart::Normal {
        assert(entry.parts@ =~= seq![PathPart::Normal]);
        Some(entry.filename.clone())
    } else {
        assert(entry.parts@ != seq![PathPart::Normal]);
        None
    }
}

} // verus!
