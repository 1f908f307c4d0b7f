//! What is read from the local store, from a session and from a configuration.

use vstd::prelude::*;

use crate::endpoints;
use crate::endpoints::Endpoints;
use crate::events;
use crate::events::MessageView;
use crate::history;
use crate::history::{CommandRowView, DatabasePathFacts, DeliverableManifest, PathPart};
use crate::json;
use crate::json::JsonView;
use crate::text;

verus! {

/// A row of a session history is a message by its own keys, and none without an id.
pub proof fn session_rows_read_their_keys(row: JsonView, id: Seq<char>)
    ensures
        json::text_at(row, "id"@) is None ==> history::row_message(row) is None,
        json::text_at(row, "id"@) == Some(id) ==> history::row_message(row) == Some(
            MessageView {
                id,
                sender_inbox_id: json::text_at(row, "senderInboxId"@),
                content: match json::member(row, "content"@) {
                    Some(value) => value,
                    None => JsonView::Null,
                },
                sent_at: json::text_at(row, "sentAt"@),
                delivery_status: json::text_at(row, "deliveryStatus"@),
            },
        ),
{
}

/// The messages of a session stand in the order of its rows, and rows that are none
/// are passed over.
pub proof fn session_messages_keep_their_order(
    earlier: Seq<JsonView>,
    row: JsonView,
    value: JsonView,
)
    ensures
        history::row_message(row) is Some ==> history::session_messages(
            JsonView::Array(earlier.push(row)),
        ) == history::session_messages(JsonView::Array(earlier)).push(
            history::row_message(row)->0,
        ),
        history::row_message(row) is None ==> history::session_messages(
            JsonView::Array(earlier.push(row)),
        ) == history::session_messages(JsonView::Array(earlier)),
        history::session_messages(JsonView::Array(Seq::empty())).len() == 0,
        !(value is Array) ==> history::session_messages(value).len() == 0,
{
    assert(earlier.push(row).drop_last() =~= earlier);
}

/// The local store gives each row in scope as a message, in the order of the rows,
/// and no other row.
pub proof fn local_messages_keep_their_order(
    earlier: Seq<CommandRowView>,
    row: CommandRowView,
    job: Seq<char>,
    user: Seq<char>,
)
    ensures
        ({
            let before = history::local_messages(earlier, job, user);
            let after = history::local_messages(earlier.push(row), job, user);
            let command = json::parsed_json(row.command_json);
            &&& command is None ==> after == before
            &&& command is Some && !history::is_scoped(command->0, job, user) ==> after == before
            &&& command is Some && history::is_scoped(command->0, job, user) ==> after
                == before.push(history::command_message(command->0, row))
        }),
        history::local_messages(Seq::empty(), job, user).len() == 0,
{
    assert(earlier.push(row).drop_last() =~= earlier);
}

/// A command is in scope for the user that it names as its client, or as its agent
/// where it names no client, if it holds an official event of exactly the job.
pub proof fn commands_are_scoped_to_user_and_job(
    command: JsonView,
    content: JsonView,
    job: Seq<char>,
    user: Seq<char>,
)
    requires
        json::member(command, "content"@) == Some(content),
    ensures
        ({
            let client = json::text_at(command, "clientAgentId"@);
            let agent = json::text_at(command, "agentId"@);
            let event = events::official_envelope(content);
            let official = event is Some && json::text_at(event->0, "jobId"@) == Some(job);
            &&& client == Some(user) ==> (history::is_scoped(command, job, user) <==> official)
            &&& client is Some && client != Some(user) ==> !history::is_scoped(command, job, user)
            &&& client is None && events::decoded_object(content) is None && agent == Some(user)
                ==> (history::is_scoped(command, job, user) <==> official)
            &&& client is None && events::decoded_object(content) is None && agent != Some(user)
                ==> !history::is_scoped(command, job, user)
            &&& !official ==> !history::is_scoped(command, job, user)
        }),
{
}

/// Where a command names neither client nor agent, its content does: the client
/// first there too.
pub proof fn contents_name_the_user(
    command: JsonView,
    object: JsonView,
    user: Seq<char>,
)
    requires
        json::text_at(command, "clientAgentId"@) is None,
        json::text_at(command, "agentId"@) is None,
    ensures
        ({
            let client = json::text_at(object, "clientAgentId"@);
            let agent = json::text_at(object, "agentId"@);
            &&& client is Some ==> (history::belongs_to(command, Some(object), user) <==> client
                == Some(user))
            &&& client is None ==> (history::belongs_to(command, Some(object), user) <==> agent
                == Some(user))
            &&& !history::belongs_to(command, None, user)
        }),
{
}

/// The message of a command has its own id or that of its row, and its own time or
/// that at which the row was made.
pub proof fn command_messages_read_their_keys(command: JsonView, row: CommandRowView)
    ensures
        ({
            let message = history::command_message(command, row);
            let id = json::text_at(command, "messageId"@);
            let made = json::text_at(command, "createdAt"@);
            &&& id is Some ==> message.id == id->0
            &&& id is None ==> message.id == row.id
            &&& made is Some ==> message.sent_at == made
            &&& made is None && row.created_at_ms is Some ==> message.sent_at == Some(
                text::decimal(row.created_at_ms->0 as int),
            )
            &&& made is None && row.created_at_ms is None ==> message.sent_at is None
            &&& message.delivery_status == Some("local"@)
            &&& message.sender_inbox_id is None
            &&& json::member(command, "content"@) is Some ==> message.content == json::member(
                command,
                "content"@,
            )->0
            &&& json::member(command, "content"@) is None ==> message.content == JsonView::Null
        }),
{
}

/// A lookup key has from one to 256 characters: ASCII letters and digits, hyphens,
/// underscores and colons.
pub proof fn lookup_keys_are_short_and_plain(key: Seq<char>, i: int)
    ensures
        history::is_lookup_key(key) ==> 1 <= key.len() <= 256,
        history::is_lookup_key(key) && 0 <= i < key.len() ==> 'a' <= key[i] <= 'z' || 'A' <= key[i]
            <= 'Z' || '0' <= key[i] <= '9' || key[i] == '-' || key[i] == '_' || key[i] == ':',
        1 <= key.len() <= 256 && (forall|j: int|
            0 <= j < key.len() ==> 'a' <= #[trigger] key[j] <= 'z' || '0' <= key[j] <= '9' || key[j]
                == '-' || key[j] == '_') ==> history::is_lookup_key(key),
        history::MAX_LOCAL_ROWS == 512,
        history::MAX_COMMAND_JSON_BYTES == 128 * 1024,
{
}

/// The deliverable of a job is the last entry of the user's own manifest of that
/// job, under a plain file name.
pub proof fn deliverables_are_the_users_own(manifest: DeliverableManifest, job: Seq<char>)
    ensures
        history::listed_deliverable(manifest, job) is Some ==> history::is_lookup_key(job)
            && manifest.job_id@ == job && manifest.role@ == "user"@ && manifest.entries@.len() > 0
            && manifest.entries@.last().parts@ == seq![PathPart::Normal]
            && history::listed_deliverable(manifest, job)->0 == manifest.entries@.last().filename@,
        history::is_lookup_key(job) && manifest.job_id@ == job && manifest.role@ == "user"@
            && manifest.entries@.len() > 0 && manifest.entries@.last().parts@ == seq![
            PathPart::Normal,
        ] ==> history::listed_deliverable(manifest, job) is Some,
{
}

/// A line binds the text before its first equals sign to the text after it, white
/// space around both and quotation marks around the value aside; a comment or a
/// line without the sign binds nothing.
pub proof fn lines_bind_keys_to_values(line: Seq<char>, key: Seq<char>, value: Seq<char>)
    ensures
        ({
            let stated = text::trimmed(line);
            &&& stated == key + seq!['='] + value && !key.contains('=') && (key.len() == 0 || key[0]
                != '#') ==> endpoints::binding_of(line) == Some(
                (text::trimmed(key), endpoints::unquoted(text::trimmed(value))),
            )
            &&& stated.len() > 0 && stated[0] == '#' ==> endpoints::binding_of(line) is None
            &&& stated.len() == 0 ==> endpoints::binding_of(line) is None
            &&& !stated.contains('=') ==> endpoints::binding_of(line) is None
        }),
{
    let stated = text::trimmed(line);
    if stated == key + seq!['='] + value && !key.contains('=') {
        let at = key.len() as int;
        assert(stated[at] == '=');
        assert forall|i: int| 0 <= i < at implies stated[i] != '=' by {
            assert(stated[i] == key[i]);
            if stated[i] == '=' {
                assert(key.contains('='));
            }
        }
        lemma_index(stated, '=', at);
        assert(stated.subrange(0, at) =~= key);
        assert(stated.subrange(at + 1, stated.len() as int) =~= value);
        if key.len() > 0 {
            assert(stated[0] == key[0]);
        }
    }
    if !stated.contains('=') {
        assert forall|i: int| 0 <= i < stated.len() implies stated[i] != '=' by {
            if stated[i] == '=' {
                assert(stated.contains('='));
            }
        }
        lemma_index(stated, '=', stated.len() as int);
    }
}

proof fn lemma_index(s: Seq<char>, c: char, at: int)
    requires
        0 <= at <= s.len(),
        forall|i: int| 0 <= i < at ==> s[i] != c,
        at < s.len() ==> s[at] == c,
    ensures
        endpoints::first_index(s, c) == at,
    decreases at,
{
    if at > 0 {
        let rest = s.skip(1);
        assert forall|i: int| 0 <= i < at - 1 implies rest[i] != c by {
            assert(rest[i] == s[i + 1]);
        }
        lemma_index(rest, c, at - 1);
    }
}

/// Each line of a configuration binds for itself, in the order of the lines.
pub proof fn configurations_bind_line_by_line(line: Seq<char>, rest: Seq<char>)
    requires
        !line.contains('\n'),
    ensures
        endpoints::bindings_of(line + seq!['\n'] + rest) == (match endpoints::binding_of(line) {
            Some(binding) => seq![binding] + endpoints::bindings_of(rest),
            None => endpoints::bindings_of(rest),
        }),
        endpoints::bindings_of(line) == (match endpoints::binding_of(line) {
            Some(binding) => seq![binding],
            None => Seq::empty(),
        }),
{
    let content = line + seq!['\n'] + rest;
    let at = line.len() as int;
    assert(content[at] == '\n');
    assert forall|i: int| 0 <= i < at implies content[i] != '\n' && line[i] != '\n' by {
        assert(content[i] == line[i]);
        if line[i] == '\n' {
            assert(line.contains('\n'));
        }
    }
    lemma_index(content, '\n', at);
    lemma_index(line, '\n', at);
    assert(content.subrange(0, at) =~= line);
    assert(content.skip(at + 1) =~= rest);
    assert(Seq::<(Seq<char>, Seq<char>)>::empty() + endpoints::bindings_of(rest)
        =~= endpoints::bindings_of(rest));
}

/// Quotation marks are taken off both ends of a value, and nothing else is.
pub proof fn quotation_marks_are_taken_off(s: Seq<char>)
    ensures
        s.len() > 0 && s[0] != '"' && s[0] != '\'' && s.last() != '"' && s.last() != '\''
            ==> endpoints::unquoted(s) == s,
        s.len() > 0 && (s[0] == '"' || s[0] == '\'') ==> endpoints::unquoted(s)
            == endpoints::unquoted(s.skip(1)),
        s.len() > 0 && s[0] != '"' && s[0] != '\'' && (s.last() == '"' || s.last() == '\'')
            ==> endpoints::unquoted(s) == endpoints::unquoted(s.drop_last()),
        endpoints::unquoted(Seq::empty()).len() == 0,
{
}

/// A value that is configured replaces the one that stands for it; an empty one or
/// none at all does not.
pub proof fn configured_values_replace_their_defaults(
    content: Seq<char>,
    key: Seq<char>,
    without: Seq<char>,
)
    ensures
        ({
            let bound = endpoints::last_bound(endpoints::bindings_of(content), key);
            let value = endpoints::configured_or(Some(content), key, without);
            &&& bound is Some && bound->0.len() > 0 ==> value == bound->0
                && endpoints::configured(Some(content), key) is Some
            &&& bound is None || bound->0.len() == 0 ==> value == without && endpoints::configured(
                Some(content),
                key,
            ) is None
            &&& endpoints::configured_or(None, key, without) == without
        }),
{
}

/// Each endpoint is configured under its own key, or is its own default.
pub proof fn endpoints_have_their_own_keys(one: Endpoints, config: Option<Seq<char>>)
    requires
        endpoints::are_configured_by(one, config),
    ensures
        one.base_url@ == endpoints::configured_or(
            config,
            "OKX_BASE_URL"@,
            "https://web3.okx.com"@,
        ),
        one.base_url_configured <==> endpoints::configured(config, "OKX_BASE_URL"@) is Some,
        one.agent_identity_ws_url@ == endpoints::configured_or(
            config,
            "OKX_AGENTIC_WS_URL"@,
            "wss://wsdex.okx.com:8443/ws/v5/private"@,
        ),
        one.ws_url@ == endpoints::configured_or(
            config,
            "ONCHAINOS_WS_URL"@,
            "wss://wsdex.okx.com/ws/v6/dex"@,
        ),
        !one.dev_mode,
{
}

/// The local store may be opened only where no part of its path is known or
/// suspected to be a link, and it is a file below its root.
pub proof fn doubtful_stores_are_not_opened(facts: DatabasePathFacts)
    ensures
        facts.root_is_symlink != Some(false) || facts.directory_is_symlink != Some(false)
            || facts.database_is_symlink != Some(false) || facts.database_is_file != Some(true)
            || facts.database_is_below_root != Some(true) <==> !history::may_be_opened(facts),
{
}

/// Where nothing is configured, these are the endpoints.
pub proof fn defaults_are_the_production_endpoints()
    ensures
        endpoints::BASE_URL@ == "https://web3.okx.com"@,
        endpoints::DEV_BASE_URL@ == "https://beta.okex.org"@,
        endpoints::API_HOST@ == "web3.okx.com"@,
        endpoints::AGENT_IDENTITY_WS_URL@ == "wss://wsdex.okx.com:8443/ws/v5/private"@,
        endpoints::WS_URL@ == "wss://wsdex.okx.com/ws/v6/dex"@,
        endpoints::XLAYER_RPC_URL@ == "https://rpc.xlayer.tech"@,
{
}

/// The effective origin is the development one just while that is selected, and
/// failover is bypassed then or where an origin was configured.
pub proof fn origins_follow_the_switch(one: Endpoints)
    ensures
        one.dev_mode ==> endpoints::effective_origin(one) == "https://beta.okex.org"@
            && endpoints::bypasses_failover(one),
        !one.dev_mode ==> endpoints::effective_origin(one) == one.base_url@,
        !one.dev_mode ==> (endpoints::bypasses_failover(one) <==> one.base_url_configured),
        endpoints::switched(one, true).dev_mode,
        !endpoints::switched(one, false).dev_mode,
        endpoints::switched(one, true).base_url == one.base_url,
{
}

} // verus!
