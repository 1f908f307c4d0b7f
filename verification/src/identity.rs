//! Agent identities: which one a query speaks for.

use vstd::prelude::*;
use vstd::string::StringExecFns;

use crate::events;
use crate::events::is_text;
use crate::json;
use crate::json::{scalar_i64, Json, JsonView};
use crate::query;
use crate::query::role_label;
use crate::text;
use crate::text::{eq_ignore_ascii_case, trim, usize_to_text};

verus! {

/// The role code of a user agent.
pub const AGENT_ROLE_USER: i64 = 1;

/// Whether a role is that of a user: by its code, or by its name.
pub open spec fn is_user_role(role: JsonView) -> bool {
    json::scalar_int(role) == Some(AGENT_ROLE_USER) || (json::text_value(role) matches Some(name)
        && events::same_ignoring_case(name, "user"@))
}

/// Whether an entry of a wallet is a user agent.
pub open spec fn has_user_role(agent: JsonView) -> bool {
    json::member(agent, "role"@) matches Some(role) && is_user_role(role)
}

/// Whether an entry of a wallet is the user agent with an id.
pub open spec fn is_user_agent(agent: JsonView, id: Seq<char>) -> bool {
    json::text_at(agent, "agentId"@) == Some(id) && has_user_role(agent)
}

/// Whether a wallet has the user agent with an id.
pub open spec fn owns_user_agent(agents: Seq<JsonView>, id: Seq<char>) -> bool {
    exists|i: int| 0 <= i < agents.len() && is_user_agent(#[trigger] agents[i], id)
}

/// The id of the first user agent of a wallet that has one.
pub open spec fn first_user_agent(agents: Seq<JsonView>) -> Option<Seq<char>>
    decreases agents.len(),
{
    if agents.len() == 0 {
        None
    } else if has_user_role(agents[0]) && json::text_at(agents[0], "agentId"@) is Some {
        json::text_at(agents[0], "agentId"@)
    } else {
        first_user_agent(agents.skip(1))
    }
}

/// The user agent of a wallet that a query speaks for: the requested one if it
/// is the wallet's, or else the first where none is requested.
pub open spec fn selected_user_agent(agents: Seq<JsonView>, requested: Seq<char>) -> Option<
    Seq<char>,
> {
    let wanted = text::trimmed(requested);
    if wanted.len() == 0 {
        first_user_agent(agents)
    } else if owns_user_agent(agents, wanted) {
        Some(wanted)
    } else {
        None
    }
}

fn has_user_role_field(agent: &Json) -> (r: bool)
    ensures
        r == has_user_role(agent@),
{
    match agent.get("role") {
        Some(role) => {
            let by_code = match scalar_i64(role) {
                Some(code) => code == AGENT_ROLE_USER,
                None => false,
            };
            by_code || match role.as_str() {
                Some(name) => eq_ignore_ascii_case(name, "user"),
                None => false,
            }
        },
        None => false,
    }
}

/// Whether a wallet has the user agent with an id.
pub fn wallet_has_user_agent(agents: &[Json], expected: &str) -> (r: bool)
    ensures
        r == owns_user_agent(json::jsons_view(agents@), expected@),
{
    let ghost all = json::jsons_view(agents@);
    let mut i: usize = 0;
    while i < agents.len()
        invariant
            i <= agents@.len(),
            all == json::jsons_view(agents@),
            forall|k: int| 0 <= k < i ==> !is_user_agent(#[trigger] all[k], expected@),
        decreases agents@.len() - i,
    {
        let id = agents[i].text_at("agentId");
        if is_text(&id, expected) && has_user_role_field(&agents[i]) {
            assert(is_user_agent(all[i as int], expected@));
            return true;
        }
        i = i + 1;
    }
    false
}

/// The user agent of the current wallet that a query speaks for, if it can be
/// confirmed.
pub fn select_current_wallet_user_agent(agents: &[Json], requested: &str) -> (r: Option<String>)
    ensures
        text::opt_view(r) == selected_user_agent(json::jsons_view(agents@), requested@),
{
    let wanted = trim(requested);
    if !wanted.is_empty() {
        if wallet_has_user_agent(agents, wanted) {
            return Some(wanted.to_string());
        }
        return None;
    }
    let ghost all = json::jsons_view(agents@);
    assert(all.skip(0) =~= all);
    let mut i: usize = 0;
    while i < agents.len()
        invariant
            i <= agents@.len(),
            all == json::jsons_view(agents@),
            text::trimmed(requested@).len() == 0,
            first_user_agent(all) == first_user_agent(all.skip(i as int)),
        decreases agents@.len() - i,
    {
        assert(all.skip(i as int)[0] == agents@[i as int]@);
        if has_user_role_field(&agents[i]) {
            let id = agents[i].text_at("agentId");
            if id.is_some() {
                return id;
            }
        }
        assert(all.skip(i as int).skip(1) =~= all.skip(i + 1));
        i = i + 1;
    }
    None
}

/// A selected agent is always a user agent of the wallet.
pub proof fn selected_agents_are_owned(agents: Seq<JsonView>, requested: Seq<char>)
    requires
        selected_user_agent(agents, requested) is Some,
    ensures
        owns_user_agent(agents, selected_user_agent(agents, requested)->0),
{
    if text::trimmed(requested).len() == 0 {
        lemma_first_is_owned(agents);
    }
}

proof fn lemma_first_is_owned(agents: Seq<JsonView>)
    requires
        first_user_agent(agents) is Some,
    ensures
        owns_user_agent(agents, first_user_agent(agents)->0),
    decreases agents.len(),
{
    let id = first_user_agent(agents)->0;
    if has_user_role(agents[0]) && json::text_at(agents[0], "agentId"@) is Some {
        assert(is_user_agent(agents[0], id));
    } else {
        lemma_first_is_owned(agents.skip(1));
        let rest = agents.skip(1);
        let i = choose|i: int| 0 <= i < rest.len() && is_user_agent(#[trigger] rest[i], id);
        assert(is_user_agent(agents[i + 1], id));
    }
}

/// The usable id of an identity: a text under `agentId`, white space around it
/// aside, if anything is left of it.
pub open spec fn usable_id(agent: JsonView) -> Option<Seq<char>> {
    match json::str_at(agent, "agentId"@) {
        Some(id) => if text::trimmed(id).len() > 0 {
            Some(text::trimmed(id))
        } else {
            None
        },
        None => None,
    }
}

/// The usable id of an identity.
pub fn well_formed_agent_id(agent: &Json) -> (r: Option<String>)
    ensures
        text::opt_view(r) == usable_id(agent@),
{
    match agent.str_at("agentId") {
        Some(raw) => {
            let id = trim(raw);
            if id.is_empty() {
                None
            } else {
                Some(id.to_string())
            }
        },
        None => None,
    }
}

/// The identities of a list that have a usable id.
pub open spec fn usable(agents: Seq<JsonView>) -> Seq<JsonView>
    decreases agents.len(),
{
    if agents.len() == 0 {
        Seq::empty()
    } else if usable_id(agents.last()) is Some {
        usable(agents.drop_last()).push(agents.last())
    } else {
        usable(agents.drop_last())
    }
}

/// How many identities of an account are usable.
#[derive(Debug, PartialEq, Eq)]
pub enum Classification {
    /// No entry has a usable id.
    Empty,
    /// Exactly one entry has a usable id.
    One(String),
    /// Two or more entries have a usable id.
    Many,
    /// The only entry has no usable id.
    MalformedSingle,
}

/// The model of a classification.
#[verifier::ext_equal]
pub enum ClassificationView {
    Empty,
    One(Seq<char>),
    Many,
    MalformedSingle,
}

impl View for Classification {
    type V = ClassificationView;

    open spec fn view(&self) -> ClassificationView {
        match self {
            Classification::Empty => ClassificationView::Empty,
            Classification::One(id) => ClassificationView::One(id@),
            Classification::Many => ClassificationView::Many,
            Classification::MalformedSingle => ClassificationView::MalformedSingle,
        }
    }
}

/// How many identities of a list are usable.
pub open spec fn classified(agents: Seq<JsonView>) -> ClassificationView {
    let found = usable(agents);
    if found.len() >= 2 {
        ClassificationView::Many
    } else if found.len() == 1 {
        ClassificationView::One(usable_id(found[0])->0)
    } else if agents.len() == 1 {
        ClassificationView::MalformedSingle
    } else {
        ClassificationView::Empty
    }
}

proof fn lemma_usable_grows(agents: Seq<JsonView>, n: int)
    requires
        0 <= n <= agents.len(),
    ensures
        usable(agents.take(n)).len() <= usable(agents).len(),
        usable(agents).take(usable(agents.take(n)).len() as int) =~= usable(agents.take(n)),
    decreases agents.len() - n,
{
    if n == agents.len() {
        assert(agents.take(n) =~= agents);
    } else {
        lemma_usable_grows(agents, n + 1);
        assert(agents.take(n + 1).drop_last() =~= agents.take(n));
    }
}

/// Classifies how many identities of an account are usable.
pub fn classify_identities(agents: &[Json]) -> (r: Classification)
    ensures
        r@ == classified(json::jsons_view(agents@)),
{
    let ghost all = json::jsons_view(agents@);
    let mut first: Option<String> = None;
    let mut i: usize = 0;
    assert(usable(all.take(0)) =~= Seq::empty());
    while i < agents.len()
        invariant
            i <= agents@.len(),
            all == json::jsons_view(agents@),
            match first {
                Some(id) => usable(all.take(i as int)).len() == 1 && usable_id(
                    usable(all.take(i as int))[0],
                ) == Some(id@),
                None => usable(all.take(i as int)).len() == 0,
            },
        decreases agents@.len() - i,
    {
        assert(all.take(i + 1).drop_last() =~= all.take(i as int));
        assert(all.take(i + 1).last() == agents@[i as int]@);
        if let Some(id) = well_formed_agent_id(&agents[i]) {
            if first.is_some() {
                proof {
                    lemma_usable_grows(all, i + 1);
                }
                return Classification::Many;
            }
            first = Some(id);
        }
        i = i + 1;
    }
    assert(all.take(all.len() as int) =~= all);
    match first {
        Some(id) => Classification::One(id),
        None => if agents.len() == 1 {
            Classification::MalformedSingle
        } else {
            Classification::Empty
        },
    }
}

/// The role code of an identity.
pub open spec fn role_code(agent: JsonView) -> i64 {
    match json::member(agent, "role"@) {
        Some(role) => match json::int_value(role) {
            Some(code) => code,
            None => 0,
        },
        None => 0,
    }
}

/// The role code of an identity; zero where it has none.
pub fn role_code_field(agent: &Json) -> (r: i64)
    ensures
        r == role_code(agent@),
{
    match agent.get("role") {
        Some(role) => match role.as_i64() {
            Some(code) => code,
            None => 0,
        },
        None => 0,
    }
}

/// How a usable identity is listed.
pub open spec fn candidate(agent: JsonView) -> Seq<char> {
    "[agentId="@ + usable_id(agent)->0 + " role="@ + query::role_key(role_code(agent)) + "]"@
}

/// Identities as a list, in their order.
pub open spec fn candidate_list(agents: Seq<JsonView>) -> Seq<char>
    decreases agents.len(),
{
    if agents.len() == 0 {
        Seq::empty()
    } else if agents.len() == 1 {
        candidate(agents[0])
    } else {
        candidate_list(agents.drop_last()) + ", "@ + candidate(agents.last())
    }
}

/// What is said where several identities could be meant.
pub open spec fn ambiguity(agents: Seq<JsonView>) -> Seq<char> {
    let found = usable(agents);
    "This account has "@ + text::decimal(found.len() as int) + " identities: "@ + candidate_list(
        found,
    ) + ". Pass --agent-id to choose the identity to query."@
}

fn candidate_text(agent: &Json) -> (r: Option<String>)
    ensures
        match r {
            Some(item) => usable_id(agent@) is Some && item@ == candidate(agent@),
            None => usable_id(agent@) is None,
        },
{
    match well_formed_agent_id(agent) {
        Some(id) => {
            let role = role_label(role_code_field(agent));
            let head = "[agentId=".to_string().concat(id.as_str());
            Some(head.concat(" role=").concat(role).concat("]"))
        },
        None => None,
    }
}

fn list_candidates(agents: &[Json]) -> (r: (usize, String))
    ensures
        r.0 == usable(json::jsons_view(agents@)).len(),
        r.1@ == candidate_list(usable(json::jsons_view(agents@))),
{
    let ghost all = json::jsons_view(agents@);
    let mut count: usize = 0;
    let mut list = String::new();
    let mut i: usize = 0;
    assert(usable(all.take(0)) =~= Seq::empty());
    assert(list@ =~= Seq::empty());
    while i < agents.len()
        invariant
            i <= agents@.len(),
            all == json::jsons_view(agents@),
            count <= i,
            count == usable(all.take(i as int)).len(),
            list@ == candidate_list(usable(all.take(i as int))),
        decreases agents@.len() - i,
    {
        let ghost before = usable(all.take(i as int));
        assert(all.take(i + 1).drop_last() =~= all.take(i as int));
        assert(all.take(i + 1).last() == agents@[i as int]@);
        if let Some(item) = candidate_text(&agents[i]) {
            let ghost after = usable(all.take(i + 1));
            assert(after.drop_last() =~= before);
            list = if count == 0 {
                item
            } else {
                list.concat(", ").concat(item.as_str())
            };
            count = count + 1;
        }
        i = i + 1;
    }
    assert(all.take(all.len() as int) =~= all);
    (count, list)
}

/// What is said where several identities could be meant: how many there are, and
/// each with its id and role.
pub fn format_ambiguous_identities(agents: &[Json]) -> (r: String)
    ensures
        r@ == ambiguity(json::jsons_view(agents@)),
{
    let (count, list) = list_candidates(agents);
    let digits = usize_to_text(count);
    "This account has ".to_string().concat(digits.as_str()).concat(" identities: ").concat(
        list.as_str(),
    ).concat(". Pass --agent-id to choose the identity to query.")
}

/// Said where an account has no usable identity.
pub const NO_IDENTITY_MESSAGE: &'static str =
    "no agent identity found on this account. Register an identity (route to okx-ai) or pass --agent-id <id> to choose one.";

/// Why no identity could be settled on.
#[derive(Debug, PartialEq, Eq)]
pub enum IdentityError {
    /// Several identities could be meant; the text lists them.
    Ambiguous(String),
    /// The account has no usable identity.
    Missing,
}

impl IdentityError {
    /// What is said of this error.
    pub open spec fn words(&self) -> Seq<char> {
        match self {
            IdentityError::Ambiguous(listing) => listing@,
            IdentityError::Missing => NO_IDENTITY_MESSAGE@,
        }
    }

    /// What is said of this error.
    pub fn message(&self) -> (r: String)
        ensures
            r@ == self.words(),
    {
        match self {
            IdentityError::Ambiguous(listing) => listing.clone(),
            IdentityError::Missing => NO_IDENTITY_MESSAGE.to_string(),
        }
    }
}

/// The agent id that an earlier lookup by role brought, if it is not blank.
pub open spec fn found_id(found: Option<Seq<char>>) -> Option<Seq<char>> {
    match found {
        Some(id) => if text::trimmed(id).len() > 0 {
            Some(text::trimmed(id))
        } else {
            None
        },
        None => None,
    }
}

/// The agent id that a query uses: the explicit one, else the one found by role,
/// else the only usable identity of the account.
pub open spec fn resolved_id(
    explicit: Seq<char>,
    by_role: Option<Seq<char>>,
    agents: Seq<JsonView>,
) -> Option<Seq<char>> {
    text::or_else_view(
        found_id(Some(explicit)),
        text::or_else_view(
            found_id(by_role),
            match classified(agents) {
                ClassificationView::One(id) => Some(id),
                _ => None,
            },
        ),
    )
}

/// What the resolution of an agent id needs next.
#[derive(Debug, PartialEq, Eq)]
pub enum ResolveStep {
    /// The id is settled.
    Resolved(String),
    /// The first local agent of the role has to be looked up.
    LookUpRole,
    /// The identities of the account have to be listed.
    ListIdentities,
}

/// The explicit agent id settles the matter, if there is one.
pub fn resolve_explicit(explicit_agent_id: &str) -> (r: ResolveStep)
    ensures
        match r {
            ResolveStep::Resolved(id) => found_id(Some(explicit_agent_id@)) == Some(id@),
            ResolveStep::LookUpRole => found_id(Some(explicit_agent_id@)) is None,
            ResolveStep::ListIdentities => false,
        },
{
    let id = trim(explicit_agent_id);
    if id.is_empty() {
        ResolveStep::LookUpRole
    } else {
        ResolveStep::Resolved(id.to_string())
    }
}

/// What a lookup by role brought settles the matter, unless it is blank.
pub fn resolve_by_role(found: Option<&str>) -> (r: ResolveStep)
    ensures
        match r {
            ResolveStep::Resolved(id) => found_id(text::opt_str_view(found)) == Some(id@),
            ResolveStep::ListIdentities => found_id(text::opt_str_view(found)) is None,
            ResolveStep::LookUpRole => false,
        },
{
    match found {
        Some(raw) => {
            let id = trim(raw);
            if id.is_empty() {
                ResolveStep::ListIdentities
            } else {
                ResolveStep::Resolved(id.to_string())
            }
        },
        None => ResolveStep::ListIdentities,
    }
}

/// The identities of the account settle the matter, if exactly one is usable.
pub fn resolve_from_identities(agents: &[Json]) -> (r: Result<String, IdentityError>)
    ensures
        match r {
            Ok(id) => classified(json::jsons_view(agents@)) == ClassificationView::One(id@),
            Err(IdentityError::Ambiguous(listing)) => classified(json::jsons_view(agents@))
                == ClassificationView::Many && listing@ == ambiguity(json::jsons_view(agents@)),
            Err(IdentityError::Missing) => classified(json::jsons_view(agents@))
                == ClassificationView::Empty || classified(json::jsons_view(agents@))
                == ClassificationView::MalformedSingle,
        },
{
    match classify_identities(agents) {
        Classification::One(id) => Ok(id),
        Classification::Many => Err(
            IdentityError::Ambiguous(format_ambiguous_identities(agents)),
        ),
        Classification::Empty => Err(IdentityError::Missing),
        Classification::MalformedSingle => Err(IdentityError::Missing),
    }
}

/// The agent id that a query uses: the explicit one, else the one found by role,
/// else the only usable identity of the account. It is never blank.
pub fn resolve_agent_id_or_error(
    explicit_agent_id: &str,
    found_by_role: Option<&str>,
    agents: &[Json],
) -> (r: Result<String, IdentityError>)
    ensures
        match r {
            Ok(id) => resolved_id(
                explicit_agent_id@,
                text::opt_str_view(found_by_role),
                json::jsons_view(agents@),
            ) == Some(id@) && id@.len() > 0,
            Err(error) => resolved_id(
                explicit_agent_id@,
                text::opt_str_view(found_by_role),
                json::jsons_view(agents@),
            ) is None && error.words() == (if classified(json::jsons_view(agents@))
                == ClassificationView::Many {
                ambiguity(json::jsons_view(agents@))
            } else {
                NO_IDENTITY_MESSAGE@
            }),
        },
{
    proof {
        lemma_one_is_not_blank(json::jsons_view(agents@));
    }
    if let ResolveStep::Resolved(id) = resolve_explicit(explicit_agent_id) {
        return Ok(id);
    }
    if let ResolveStep::Resolved(id) = resolve_by_role(found_by_role) {
        return Ok(id);
    }
    resolve_from_identities(agents)
}

proof fn lemma_usable_have_ids(agents: Seq<JsonView>)
    ensures
        forall|i: int| 0 <= i < usable(agents).len() ==> usable_id(#[trigger] usable(agents)[i])
            is Some,
    decreases agents.len(),
{
    if agents.len() > 0 {
        lemma_usable_have_ids(agents.drop_last());
    }
}

proof fn lemma_one_is_not_blank(agents: Seq<JsonView>)
    ensures
        classified(agents) matches ClassificationView::One(id) ==> id.len() > 0,
{
    lemma_usable_have_ids(agents);
}

/// A resolved agent id is never blank, whatever the lookups bring.
pub proof fn resolved_ids_are_not_blank(
    explicit: Seq<char>,
    by_role: Option<Seq<char>>,
    agents: Seq<JsonView>,
)
    ensures
        resolved_id(explicit, by_role, agents) matches Some(id) ==> id.len() > 0,
{
    lemma_one_is_not_blank(agents);
}

/// An explicit agent id wins over every lookup.
pub proof fn explicit_ids_win(
    explicit: Seq<char>,
    by_role: Option<Seq<char>>,
    agents: Seq<JsonView>,
)
    requires
        text::trimmed(explicit).len() > 0,
    ensures
        resolved_id(explicit, by_role, agents) == Some(text::trimmed(explicit)),
{
}

/// The agent id of a command: the given id as it is, else what a lookup by role
/// brought, else none.
pub open spec fn command_id(given: Seq<char>, found: Option<Seq<char>>) -> Seq<char> {
    if given.len() > 0 {
        given
    } else {
        match found {
            Some(id) => id,
            None => Seq::empty(),
        }
    }
}

/// The agent id of a command that does without one: the given id, else what a
/// lookup by role brought, else none.
pub fn resolve_agent_id(agent_id: &str, found_by_role: Option<&str>) -> (r: String)
    ensures
        r@ == command_id(agent_id@, text::opt_str_view(found_by_role)),
{
    if !agent_id.is_empty() {
        return agent_id.to_string();
    }
    match found_by_role {
        Some(found) => found.to_string(),
        None => {
            let empty = String::new();
            assert(empty@ =~= Seq::empty());
            empty
        },
    }
}

} // verus!
