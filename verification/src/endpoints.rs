//! Service endpoints and the development switch of the HTTP origin.

use vstd::prelude::*;

use crate::text;
use crate::text::{chars_of, text_eq, trim};

verus! {

/// Primary HTTP API origin where none is configured.
pub const BASE_URL: &'static str = "https://web3.okx.com";

/// Internal development HTTP origin selected by the hidden `--dev` switch.
pub const DEV_BASE_URL: &'static str = "https://beta.okex.org";

/// Production hostname used by failover when the HTTP endpoint is not customized.
pub const API_HOST: &'static str = "web3.okx.com";

/// Agent identity push endpoint where none is configured.
pub const AGENT_IDENTITY_WS_URL: &'static str = "wss://wsdex.okx.com:8443/ws/v5/private";

/// DEX WebSocket endpoint where none is configured.
pub const WS_URL: &'static str = "wss://wsdex.okx.com/ws/v6/dex";

/// X Layer mainnet JSON-RPC endpoint.
pub const XLAYER_RPC_URL: &'static str = "https://rpc.xlayer.tech";

/// The endpoints of a process: those configured when it was built, and the
/// development switch.
#[derive(Debug, PartialEq, Eq)]
pub struct Endpoints {
    pub base_url: String,
    pub base_url_configured: bool,
    pub agent_identity_ws_url: String,
    pub ws_url: String,
    pub dev_mode: bool,
}

/// The place of the first occurrence of a character; the length of the text
/// where it does not occur.
pub open spec fn first_index(s: Seq<char>, c: char) -> int
    decreases s.len(),
{
    if s.len() == 0 || s[0] == c {
        0
    } else {
        1 + first_index(s.skip(1), c)
    }
}

proof fn lemma_first_index(s: Seq<char>, c: char, i: int)
    requires
        0 <= i <= s.len(),
        forall|k: int| 0 <= k < i ==> s[k] != c,
        i < s.len() ==> s[i] == c,
    ensures
        first_index(s, c) == i,
    decreases i,
{
    if i > 0 {
        assert forall|k: int| 0 <= k < i - 1 implies s.skip(1)[k] != c by {
            assert(s[k + 1] != c);
        }
        lemma_first_index(s.skip(1), c, i - 1);
    }
}

fn find_char(chars: &Vec<char>, from: usize, c: char) -> (r: usize)
    requires
        from <= chars.len(),
    ensures
        from <= r <= chars.len(),
        r - from == first_index(chars@.skip(from as int), c),
        r < chars.len() ==> chars@[r as int] == c,
{
    let ghost rest = chars@.skip(from as int);
    let mut i: usize = from;
    while i < chars.len() && chars[i] != c
        invariant
            from <= i <= chars.len(),
            rest == chars@.skip(from as int),
            forall|k: int| 0 <= k < i - from ==> rest[k] != c,
        decreases chars.len() - i,
    {
        assert(rest[i - from] == chars@[i as int]);
        i = i + 1;
    }
    proof {
        lemma_first_index(rest, c, i - from);
    }
    i
}

/// A quotation mark.
pub open spec fn is_quote(c: char) -> bool {
    c == '"' || c == '\''
}

/// A text without the quotation marks at its ends.
pub open spec fn unquoted(s: Seq<char>) -> Seq<char>
    decreases s.len(),
{
    if s.len() == 0 {
        s
    } else if is_quote(s[0]) {
        unquoted(s.skip(1))
    } else if is_quote(s.last()) {
        unquoted(s.drop_last())
    } else {
        s
    }
}

fn trim_quotes(s: &str) -> (r: &str)
    ensures
        r@ == unquoted(s@),
{
    let chars = chars_of(s);
    let mut start: usize = 0;
    let mut end: usize = chars.len();
    assert(s@.subrange(0, end as int) =~= s@);
    while start < end && (chars[start] == '"' || chars[start] == '\'')
        invariant
            start <= end,
            end == chars.len(),
            chars@ == s@,
            unquoted(s@) == unquoted(s@.subrange(start as int, end as int)),
        decreases end - start,
    {
        assert(s@.subrange(start as int, end as int).skip(1) =~= s@.subrange(
            start + 1,
            end as int,
        ));
        start = start + 1;
    }
    while start < end && (chars[end - 1] == '"' || chars[end - 1] == '\'')
        invariant
            start <= end,
            end <= chars.len(),
            chars@ == s@,
            start < end ==> !is_quote(s@[start as int]),
            unquoted(s@) == unquoted(s@.subrange(start as int, end as int)),
        decreases end - start,
    {
        assert(s@.subrange(start as int, end as int).drop_last() =~= s@.subrange(
            start as int,
            end - 1,
        ));
        end = end - 1;
    }
    s.substring_char(start, end)
}

/// The binding that a line of a configuration states: a key and a value around
/// an equals sign. Blank lines and comments state none.
pub open spec fn binding_of(line: Seq<char>) -> Option<(Seq<char>, Seq<char>)> {
    let stated = text::trimmed(line);
    let at = first_index(stated, '=');
    if stated.len() == 0 || stated[0] == '#' || at >= stated.len() {
        None
    } else {
        Some(
            (
                text::trimmed(stated.subrange(0, at)),
                unquoted(text::trimmed(stated.subrange(at + 1, stated.len() as int))),
            ),
        )
    }
}

/// A binding as a list of none or one.
pub open spec fn as_list(binding: Option<(Seq<char>, Seq<char>)>) -> Seq<(Seq<char>, Seq<char>)> {
    match binding {
        Some(b) => seq![b],
        None => Seq::empty(),
    }
}

/// The bindings of a configuration, line by line.
pub open spec fn bindings_of(content: Seq<char>) -> Seq<(Seq<char>, Seq<char>)>
    decreases content.len(),
{
    let end = first_index(content, '\n');
    if 0 <= end < content.len() {
        as_list(binding_of(content.subrange(0, end))) + bindings_of(content.skip(end + 1))
    } else {
        as_list(binding_of(content))
    }
}

fn binding_in(line: &str) -> (r: Option<(String, String)>)
    ensures
        match r {
            Some(b) => binding_of(line@) == Some((b.0@, b.1@)),
            None => binding_of(line@) is None,
        },
{
    let stated = trim(line);
    let chars = chars_of(stated);
    if chars.len() == 0 || chars[0] == '#' {
        return None;
    }
    assert(chars@.skip(0) =~= stated@);
    let at = find_char(&chars, 0, '=');
    if at >= chars.len() {
        return None;
    }
    let key = trim(stated.substring_char(0, at));
    let value = trim_quotes(trim(stated.substring_char(at + 1, chars.len())));
    Some((key.to_string(), value.to_string()))
}

/// The models of a list of bindings.
pub open spec fn pairs_view(pairs: Seq<(String, String)>) -> Seq<(Seq<char>, Seq<char>)> {
    Seq::new(pairs.len(), |i: int| (pairs[i].0@, pairs[i].1@))
}

/// Reads the bindings of a configuration, line by line.
pub fn parse_dotenv(content: &str) -> (r: Vec<(String, String)>)
    ensures
        pairs_view(r@) == bindings_of(content@),
{
    let chars = chars_of(content);
    let mut out: Vec<(String, String)> = Vec::new();
    let mut start: usize = 0;
    assert(content@.skip(0) =~= content@);
    assert(pairs_view(out@) + bindings_of(content@) =~= bindings_of(content@));
    loop
        invariant
            start <= chars.len(),
            chars@ == content@,
            pairs_view(out@) + bindings_of(content@.skip(start as int)) == bindings_of(content@),
        decreases chars.len() - start,
    {
        let ghost rest = content@.skip(start as int);
        let ghost before = pairs_view(out@);
        let end = find_char(&chars, start, '\n');
        let line = content.substring_char(start, end);
        assert(line@ =~= rest.subrange(0, end - start));
        let found = binding_in(line);
        let ghost stated = binding_of(line@);
        if let Some(binding) = found {
            out.push(binding);
        }
        assert(pairs_view(out@) =~= before + as_list(stated));
        if end >= chars.len() {
            assert(rest.subrange(0, end - start) =~= rest);
            return out;
        }
        proof {
            assert(rest.skip(end - start + 1) =~= content@.skip(end + 1));
            assert(before + (as_list(stated) + bindings_of(content@.skip(end + 1)))
                =~= pairs_view(out@) + bindings_of(content@.skip(end + 1)));
        }
        start = end + 1;
    }
}

/// The last value that is bound to a key.
pub open spec fn last_bound(bindings: Seq<(Seq<char>, Seq<char>)>, key: Seq<char>) -> Option<
    Seq<char>,
>
    decreases bindings.len(),
{
    if bindings.len() == 0 {
        None
    } else if bindings.last().0 == key {
        Some(bindings.last().1)
    } else {
        last_bound(bindings.drop_last(), key)
    }
}

/// The value configured for a key: the last that is bound to it, unless empty.
pub open spec fn configured(content: Option<Seq<char>>, key: Seq<char>) -> Option<Seq<char>> {
    match content {
        Some(c) => match last_bound(bindings_of(c), key) {
            Some(value) => if value.len() > 0 {
                Some(value)
            } else {
                None
            },
            None => None,
        },
        None => None,
    }
}

fn configured_value(bindings: &Vec<(String, String)>, key: &str) -> (r: Option<String>)
    ensures
        match last_bound(pairs_view(bindings@), key@) {
            Some(value) => text::opt_view(r) == (if value.len() > 0 {
                Some(value)
            } else {
                None
            }),
            None => r is None,
        },
{
    let ghost all = pairs_view(bindings@);
    let mut n: usize = bindings.len();
    assert(all.take(n as int) =~= all);
    while n > 0
        invariant
            n <= bindings.len(),
            all == pairs_view(bindings@),
            last_bound(all, key@) == last_bound(all.take(n as int), key@),
        decreases n,
    {
        assert(all.take(n as int).last() == (bindings@[n - 1].0@, bindings@[n - 1].1@));
        if text_eq(bindings[n - 1].0.as_str(), key) {
            if bindings[n - 1].1.as_str().is_empty() {
                return None;
            }
            return Some(bindings[n - 1].1.clone());
        }
        assert(all.take(n as int).drop_last() =~= all.take(n - 1));
        n = n - 1;
    }
    None
}

/// A configured value, or the one that stands for it.
pub open spec fn configured_or(
    content: Option<Seq<char>>,
    key: Seq<char>,
    without: Seq<char>,
) -> Seq<char> {
    match configured(content, key) {
        Some(value) => value,
        None => without,
    }
}

fn value_or(value: Option<String>, without: &str) -> (r: String)
    ensures
        r@ == match value {
            Some(v) => v@,
            None => without@,
        },
{
    match value {
        Some(v) => v,
        None => without.to_string(),
    }
}

/// Whether endpoints are those of a configuration, or the defaults where it says
/// nothing of them. The development switch is off.
pub open spec fn are_configured_by(endpoints: Endpoints, config: Option<Seq<char>>) -> bool {
    &&& endpoints.base_url@ == configured_or(config, "OKX_BASE_URL"@, BASE_URL@)
    &&& endpoints.base_url_configured == (configured(config, "OKX_BASE_URL"@) is Some)
    &&& endpoints.agent_identity_ws_url@ == configured_or(
        config,
        "OKX_AGENTIC_WS_URL"@,
        AGENT_IDENTITY_WS_URL@,
    )
    &&& endpoints.ws_url@ == configured_or(config, "ONCHAINOS_WS_URL"@, WS_URL@)
    &&& !endpoints.dev_mode
}

/// The endpoints of a process, by its configuration if it has one. Three keys
/// are read from it, and no other.
pub fn configured_endpoints(content: Option<&str>) -> (r: Endpoints)
    ensures
        are_configured_by(r, text::opt_str_view(content)),
{
    let bindings = match content {
        Some(c) => parse_dotenv(c),
        None => Vec::new(),
    };
    let base_url = configured_value(&bindings, "OKX_BASE_URL");
    let agent_identity_ws_url = configured_value(&bindings, "OKX_AGENTIC_WS_URL");
    let ws_url = configured_value(&bindings, "ONCHAINOS_WS_URL");
    let base_url_configured = base_url.is_some();
    Endpoints {
        base_url: value_or(base_url, BASE_URL),
        base_url_configured,
        agent_identity_ws_url: value_or(agent_identity_ws_url, AGENT_IDENTITY_WS_URL),
        ws_url: value_or(ws_url, WS_URL),
        dev_mode: false,
    }
}

/// The endpoints with the development switch set.
pub open spec fn switched(endpoints: Endpoints, enabled: bool) -> Endpoints {
    Endpoints { dev_mode: enabled, ..endpoints }
}

/// The effective HTTP origin: the development one while it is selected.
pub open spec fn effective_origin(endpoints: Endpoints) -> Seq<char> {
    if endpoints.dev_mode {
        DEV_BASE_URL@
    } else {
        endpoints.base_url@
    }
}

/// Whether the effective HTTP origin bypasses production failover: it is the
/// development one, or was configured.
pub open spec fn bypasses_failover(endpoints: Endpoints) -> bool {
    endpoints.dev_mode || endpoints.base_url_configured
}

/// Selects or leaves the internal development HTTP origin.
pub fn set_dev_mode(endpoints: &mut Endpoints, enabled: bool)
    ensures
        *final(endpoints) == switched(*old(endpoints), enabled),
{
    endpoints.dev_mode = enabled;
}

/// Effective HTTP origin.
pub fn base_url(endpoints: &Endpoints) -> (r: &str)
    ensures
        r@ == effective_origin(*endpoints),
{
    if endpoints.dev_mode {
        DEV_BASE_URL
    } else {
        endpoints.base_url.as_str()
    }
}

/// Whether the effective HTTP origin bypasses production failover.
pub fn base_url_is_custom(endpoints: &Endpoints) -> (r: bool)
    ensures
        r == bypasses_failover(*endpoints),
{
    endpoints.dev_mode || endpoints.base_url_configured
}

/// While the development switch is on, its origin is the effective one and
/// bypasses failover; switched off, everything is as it was configured.
pub proof fn development_switch_is_undone(endpoints: Endpoints)
    ensures
        effective_origin(switched(endpoints, true)) == DEV_BASE_URL@,
        bypasses_failover(switched(endpoints, true)),
        effective_origin(switched(switched(endpoints, true), false)) == endpoints.base_url@,
        bypasses_failover(switched(switched(endpoints, true), false))
            == endpoints.base_url_configured,
        switched(switched(endpoints, true), endpoints.dev_mode) == endpoints,
{
}

/// Only the last binding of a key counts, and it does not touch other keys.
pub proof fn last_binding_wins(
    bindings: Seq<(Seq<char>, Seq<char>)>,
    key: Seq<char>,
    value: Seq<char>,
    other: Seq<char>,
)
    ensures
        last_bound(bindings.push((key, value)), key) == Some(value),
        other != key ==> last_bound(bindings.push((key, value)), other) == last_bound(
            bindings,
            other,
        ),
{
    assert(bindings.push((key, value)).drop_last() =~= bindings);
}

} // verus!
