use crate::json::{json_document, member, parse_json, spec_member, JsonValue};
use crate::config::ForwardingConfig;
use crate::server_state::{spec_forwarding_mode_of, ForwardingMode, ServerState};
use crate::text::{contains_char, spec_split, split_char, str_eq};
use vstd::prelude::*;

verus! {

/// Why a BungeeGuard handshake could not be checked.
#[derive(Clone, Copy, Debug, PartialEq, Eq, Structural)]
pub enum BungeeGuardError {
    /// The forwarded properties are not valid JSON.
    InvalidJson,
    /// The server has no BungeeGuard tokens to check against.
    MissingTokens,
}

impl BungeeGuardError {
    pub open spec fn spec_message(self) -> Seq<char> {
        match self {
            BungeeGuardError::InvalidJson => "invalid json"@,
            BungeeGuardError::MissingTokens => "misconfigured forwarding"@,
        }
    }

    /// The text the error is shown with.
    pub fn message(&self) -> (s: &'static str)
        ensures
            s@ == self.spec_message(),
    {
        match self {
            BungeeGuardError::InvalidJson => "invalid json",
            BungeeGuardError::MissingTokens => "misconfigured forwarding",
        }
    }
}

/// A forwarded player property read from JSON, as a name and a value: an
/// object with string members `name` and `value`, or an array of exactly those
/// two strings.
pub open spec fn spec_property(item: JsonValue) -> Option<(Seq<char>, Seq<char>)> {
    match item {
        JsonValue::Object(k, v) => match spec_member(k@, v@, "name"@) {
            Some(JsonValue::Str(name)) => match spec_member(k@, v@, "value"@) {
                Some(JsonValue::Str(value)) => Some((name@, value@)),
                _ => None,
            },
            _ => None,
        },
        JsonValue::Array(xs) => if xs@.len() == 2 {
            match xs@[0] {
                JsonValue::Str(name) => match xs@[1] {
                    JsonValue::Str(value) => Some((name@, value@)),
                    _ => None,
                },
                _ => None,
            }
        } else {
            None
        },
        _ => None,
    }
}

/// The first `n` properties of a list, or `None` when one of them is malformed.
pub open spec fn spec_properties_in(items: Seq<JsonValue>, n: int) -> Option<Seq<(Seq<char>, Seq<char>)>>
    decreases n,
{
    if n <= 0 {
        Some(Seq::empty())
    } else {
        match spec_properties_in(items, n - 1) {
            None => None,
            Some(ps) => match spec_property(items[n - 1]) {
                Some(p) => Some(ps.push(p)),
                None => None,
            },
        }
    }
}

/// The properties a JSON array lists, or `None` when it is not such a list.
pub open spec fn spec_properties(doc: JsonValue) -> Option<Seq<(Seq<char>, Seq<char>)>> {
    match doc {
        JsonValue::Array(items) => spec_properties_in(items@, items@.len() as int),
        _ => None,
    }
}

/// The value of the first property named `name`.
pub open spec fn spec_first_property(props: Seq<(Seq<char>, Seq<char>)>, name: Seq<char>) -> Option<Seq<char>>
    decreases props.len(),
{
    if props.len() == 0 {
        None
    } else if props[0].0 == name {
        Some(props[0].1)
    } else {
        spec_first_property(props.drop_first(), name)
    }
}

/// The outcome of checking a BungeeGuard handshake hostname against the
/// tokens: the hostname must split at NUL characters into exactly four parts,
/// the fourth a JSON list of properties; the handshake is valid when the first
/// property named `bungeeguard-token` holds one of the tokens.
pub open spec fn spec_check_bungee_guard(tokens: Option<Seq<String>>, hostname: Seq<char>) -> Result<bool, BungeeGuardError> {
    let parts = spec_split(hostname, '\0');
    if parts.len() != 4 {
        Ok(false)
    } else {
        spec_check_bungee_guard_document(tokens, json_document(parts[3]))
    }
}

/// The tokens of a BungeeGuard forwarding mode.
pub open spec fn spec_tokens(mode: ForwardingMode) -> Option<Seq<String>> {
    match mode {
        ForwardingMode::BungeeGuard { tokens } => Some(tokens@),
        _ => None,
    }
}

/// The outcome of checking a handshake hostname against the forwarding mode:
/// plain BungeeCord forwarding needs the forwarded data (a NUL character),
/// BungeeGuard needs a valid token, and without forwarding every hostname goes.
pub open spec fn spec_check_bungee_cord(mode: ForwardingMode, hostname: Seq<char>) -> Result<bool, BungeeGuardError> {
    match mode {
        ForwardingMode::Legacy => Ok(hostname.contains('\0')),
        ForwardingMode::BungeeGuard { tokens } => spec_check_bungee_guard(Some(tokens@), hostname),
        _ => Ok(true),
    }
}

/// The forwarding mode follows the configuration: Velocity's modern
/// forwarding when it is enabled; otherwise, with BungeeCord enabled,
/// BungeeGuard with the configured tokens exactly when `bungee_guard` is on,
/// and plain BungeeCord forwarding when it is off, under which a handshake is
/// let in exactly when its hostname carries forwarded data (a NUL
/// character); with neither enabled there is no forwarding and every
/// handshake is let in.
pub proof fn lemma_forwarding_mode_choice(config: ForwardingConfig, mode: ForwardingMode, hostname: Seq<char>)
    requires
        spec_forwarding_mode_of(config, mode),
    ensures
        mode is Modern <==> config.velocity.enabled,
        mode is BungeeGuard <==> (!config.velocity.enabled && config.bungee_cord.enabled && config.bungee_cord.bungee_guard),
        mode is Legacy <==> (!config.velocity.enabled && config.bungee_cord.enabled && !config.bungee_cord.bungee_guard),
        mode is Disabled <==> (!config.velocity.enabled && !config.bungee_cord.enabled),
        mode matches ForwardingMode::BungeeGuard { tokens } ==> tokens == config.bungee_cord.tokens,
        !config.velocity.enabled && config.bungee_cord.enabled && !config.bungee_cord.bungee_guard
            ==> spec_check_bungee_cord(mode, hostname) == Ok::<bool, BungeeGuardError>(hostname.contains('\0')),
        !config.velocity.enabled && !config.bungee_cord.enabled
            ==> spec_check_bungee_cord(mode, hostname) == Ok::<bool, BungeeGuardError>(true),
{
}

/// Reads one forwarded property.
fn read_property(item: &JsonValue) -> (p: Option<(String, String)>)
    ensures
        match spec_property(*item) {
            Some(q) => p matches Some(r) && r.0@ == q.0 && r.1@ == q.1,
            None => p is None,
        },
{
    match item {
        JsonValue::Object(k, v) => match member(k, v, "name") {
            Some(JsonValue::Str(name)) => match member(k, v, "value") {
                Some(JsonValue::Str(value)) => Some((name.clone(), value.clone())),
                _ => None,
            },
            _ => None,
        },
        JsonValue::Array(xs) => {
            if xs.len() == 2 {
                match &xs[0] {
                    JsonValue::Str(name) => match &xs[1] {
                        JsonValue::Str(value) => Some((name.clone(), value.clone())),
                        _ => None,
                    },
                    _ => None,
                }
            } else {
                None
            }
        },
        _ => None,
    }
}

pub proof fn lemma_properties_none_stays(items: Seq<JsonValue>, m: int, n: int)
    requires
        0 <= m <= n,
        spec_properties_in(items, m) is None,
    ensures
        spec_properties_in(items, n) is None,
    decreases n - m,
{
    if m < n {
        lemma_properties_none_stays(items, m, n - 1);
    }
}

/// Reads the forwarded properties of a BungeeGuard handshake, and returns the
/// value of the first one named `bungeeguard-token`, if any.
pub fn read_token(doc: &JsonValue) -> (r: Option<Option<String>>)
    ensures
        match spec_properties(*doc) {
            None => r is None,
            Some(props) => match spec_first_property(props, "bungeeguard-token"@) {
                None => r == Some(None::<String>),
                Some(v) => r matches Some(Some(s)) && s@ == v,
            },
        },
{
    match doc {
        JsonValue::Array(items) => {
            let n = items.len();
            let mut found: Option<String> = None;
            let mut i: usize = 0;
            let ghost mut props: Seq<(Seq<char>, Seq<char>)> = Seq::empty();
            while i < n
                invariant
                    *doc == JsonValue::Array(*items),
                    n == items@.len(),
                    i <= n,
                    spec_properties_in(items@, i as int) == Some(props),
                    match spec_first_property(props, "bungeeguard-token"@) {
                        None => found is None,
                        Some(v) => found matches Some(s) && s@ == v,
                    },
                decreases n - i,
            {
                match read_property(&items[i]) {
                    Some((name, value)) => {
                        let ghost p = (name@, value@);
                        proof { lemma_first_property_push(props, p, "bungeeguard-token"@); }
                        if found.is_none() && str_eq(name.as_str(), "bungeeguard-token") {
                            found = Some(value);
                        }
                        proof { props = props.push(p); }
                    },
                    None => {
                        proof { lemma_properties_none_stays(items@, i + 1, n as int); }
                        return None;
                    },
                }
                i = i + 1;
            }
            Some(found)
        },
        _ => None,
    }
}

/// Adding a property at the end changes the first one of a name only when
/// there was none.
pub proof fn lemma_first_property_push(props: Seq<(Seq<char>, Seq<char>)>, p: (Seq<char>, Seq<char>), name: Seq<char>)
    ensures
        spec_first_property(props.push(p), name) == match spec_first_property(props, name) {
            Some(v) => Some(v),
            None => if p.0 == name { Some(p.1) } else { None },
        },
    decreases props.len(),
{
    if props.len() > 0 {
        assert(props.push(p).drop_first() =~= props.drop_first().push(p));
        lemma_first_property_push(props.drop_first(), p, name);
    } else {
        assert(props.push(p).drop_first() =~= props);
    }
}

/// What checking the forwarded properties of a BungeeGuard handshake gives,
/// once the JSON text was parsed (`None` when it is not JSON).
pub open spec fn spec_check_bungee_guard_document(tokens: Option<Seq<String>>, doc: Option<JsonValue>) -> Result<bool, BungeeGuardError> {
    match doc {
        None => Err(BungeeGuardError::InvalidJson),
        Some(doc) => match spec_properties(doc) {
            None => Err(BungeeGuardError::InvalidJson),
            Some(props) => match spec_first_property(props, "bungeeguard-token"@) {
                None => Ok(false),
                Some(value) => match tokens {
                    Some(ts) => Ok(exists|i: int| 0 <= i < ts.len() && #[trigger] ts[i]@ == value),
                    None => Err(BungeeGuardError::MissingTokens),
                },
            },
        },
    }
}

/// Whether property `i` is the first one named `name`.
pub open spec fn is_first_named(props: Seq<(Seq<char>, Seq<char>)>, name: Seq<char>, i: int) -> bool {
    &&& 0 <= i < props.len()
    &&& props[i].0 == name
    &&& forall|j: int| 0 <= j < i ==> (#[trigger] props[j]).0 != name
}

proof fn lemma_first_property_index(props: Seq<(Seq<char>, Seq<char>)>, name: Seq<char>)
    ensures
        spec_first_property(props, name) matches Some(v) ==> exists|i: int| #[trigger] is_first_named(props, name, i) && props[i].1 == v,
        spec_first_property(props, name) is None ==> forall|i: int| 0 <= i < props.len() ==> (#[trigger] props[i]).0 != name,
        forall|i: int| #[trigger] is_first_named(props, name, i) ==> spec_first_property(props, name) == Some(props[i].1),
    decreases props.len(),
{
    if props.len() > 0 {
        let rest = props.drop_first();
        lemma_first_property_index(rest, name);
        if props[0].0 != name {
            match spec_first_property(rest, name) {
                Some(v) => {
                    let i = choose|i: int| #[trigger] is_first_named(rest, name, i) && rest[i].1 == v;
                    assert forall|j: int| 0 <= j < i + 1 implies (#[trigger] props[j]).0 != name by {
                        if j > 0 {
                            assert(props[j] == rest[j - 1]);
                        }
                    }
                    assert(is_first_named(props, name, i + 1));
                },
                None => {
                    assert forall|i: int| 0 <= i < props.len() implies (#[trigger] props[i]).0 != name by {
                        if i > 0 {
                            assert(props[i] == rest[i - 1]);
                        }
                    }
                },
            }
            assert forall|i: int| #[trigger] is_first_named(props, name, i) implies spec_first_property(props, name) == Some(props[i].1) by {
                assert(i > 0);
                assert forall|j: int| 0 <= j < i - 1 implies (#[trigger] rest[j]).0 != name by {
                    assert(rest[j] == props[j + 1]);
                }
                assert(is_first_named(rest, name, i - 1));
            }
        } else {
            assert(is_first_named(props, name, 0));
            assert forall|i: int| #[trigger] is_first_named(props, name, i) implies spec_first_property(props, name) == Some(props[i].1) by {
                if i > 0 {
                    assert(props[0].0 != name);
                }
            }
        }
    }
}

/// A BungeeGuard handshake is let in exactly when its forwarded properties
/// are a valid list and the first property named `bungeeguard-token` holds
/// one of the server's tokens; properties that are not valid JSON, or not a
/// list of properties, are refused as invalid JSON, and a list without such a
/// property is refused.
pub proof fn lemma_bungee_guard_accepts(tokens: Seq<String>, doc: Option<JsonValue>)
    ensures
        spec_check_bungee_guard_document(Some(tokens), doc) == Ok::<bool, BungeeGuardError>(true) <==> (doc matches Some(d)
            && (spec_properties(d) matches Some(props) && exists|i: int| #[trigger] is_first_named(props, "bungeeguard-token"@, i)
                && exists|k: int| 0 <= k < tokens.len() && #[trigger] tokens[k]@ == props[i].1)),
        (doc matches Some(d) && spec_properties(d) is Some) || spec_check_bungee_guard_document(Some(tokens), doc)
            == Err::<bool, BungeeGuardError>(BungeeGuardError::InvalidJson),
        doc matches Some(d) && (spec_properties(d) matches Some(props) && forall|i: int| 0 <= i < props.len()
            ==> (#[trigger] props[i]).0 != "bungeeguard-token"@) ==> spec_check_bungee_guard_document(Some(tokens), doc)
            == Ok::<bool, BungeeGuardError>(false),
{
    match doc {
        Some(d) => match spec_properties(d) {
            Some(props) => {
                lemma_first_property_index(props, "bungeeguard-token"@);
                let name = "bungeeguard-token"@;
                match spec_first_property(props, name) {
                    Some(v) => {
                        let i = choose|i: int| #[trigger] is_first_named(props, name, i) && props[i].1 == v;
                        assert forall|i2: int| #[trigger] is_first_named(props, name, i2) implies props[i2].1 == v by {}
                        if exists|k: int| 0 <= k < tokens.len() && #[trigger] tokens[k]@ == v {
                            let k = choose|k: int| 0 <= k < tokens.len() && #[trigger] tokens[k]@ == v;
                            assert(is_first_named(props, name, i) && tokens[k]@ == props[i].1);
                            let ts = Some(tokens)->Some_0;
                            assert(ts[k]@ == v);
                        } else {
                            assert(spec_check_bungee_guard_document(Some(tokens), doc) == Ok::<bool, BungeeGuardError>(false));
                            assert forall|i2: int, k: int| #[trigger] is_first_named(props, name, i2) && 0 <= k < tokens.len()
                                implies #[trigger] tokens[k]@ != props[i2].1 by {}
                        }
                    },
                    None => {
                        assert forall|i2: int| !#[trigger] is_first_named(props, name, i2) by {
                            if 0 <= i2 < props.len() {
                                assert(props[i2].0 != name);
                            }
                        }
                    },
                }
            },
            None => {},
        },
        None => {},
    }
}

/// Checks the forwarded properties of a BungeeGuard handshake, as parsed
/// from its JSON text: the first property named `bungeeguard-token` must hold
/// one of the server's tokens.
pub fn check_bungee_guard_document(state: &ServerState, doc: Option<JsonValue>) -> (r: Result<bool, BungeeGuardError>)
    ensures
        r == spec_check_bungee_guard_document(spec_tokens(state@.forwarding_mode), doc),
{
    let doc = match doc {
        Some(d) => d,
        None => return Err(BungeeGuardError::InvalidJson),
    };
    match read_token(&doc) {
        None => Err(BungeeGuardError::InvalidJson),
        Some(None) => Ok(false),
        Some(Some(value)) => {
            let ghost props = spec_properties(doc).unwrap();
            assert(spec_first_property(props, "bungeeguard-token"@) == Some(value@));
            match state.has_token(value.as_str()) {
                Ok(found) => {
                    assert(spec_tokens(state@.forwarding_mode) is Some);
                    let ghost ts = spec_tokens(state@.forwarding_mode).unwrap();
                    assert(found == exists|i: int| 0 <= i < ts.len() && #[trigger] ts[i]@ == value@);
                    Ok(found)
                },
                Err(_) => Err(BungeeGuardError::MissingTokens),
            }
        },
    }
}

/// Checks the BungeeGuard token that a handshake hostname carries.
pub fn check_bungee_guard_token(state: &ServerState, hostname: &str) -> (r: Result<bool, BungeeGuardError>)
    ensures
        r == spec_check_bungee_guard(spec_tokens(state@.forwarding_mode), hostname@),
{
    let parts = split_char(hostname, '\0');
    if parts.len() != 4 {
        return Ok(false);
    }
    assert(parts@[3]@ == spec_split(hostname@, '\0')[3]);
    let doc = parse_json(parts[3].as_str());
    check_bungee_guard_document(state, doc)
}

/// Checks a handshake hostname against the forwarding mode of the server.
pub fn check_bungee_cord(state: &ServerState, hostname: &str) -> (r: Result<bool, BungeeGuardError>)
    ensures
        r == spec_check_bungee_cord(state@.forwarding_mode, hostname@),
{
    if state.is_legacy_forwarding() {
        Ok(contains_char(hostname, '\0'))
    } else if state.is_bungee_guard_forwarding() {
        check_bungee_guard_token(state, hostname)
    } else {
        Ok(true)
    }
}

} // verus!
