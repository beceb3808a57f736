//! Obtaining the password of the CONNECT handshake: the static one, or a
//! token fetched over HTTP with a bounded number of attempts.

use vstd::prelude::*;
use vstd::string::*;
use crate::config::{Config, things_map};
use crate::random::{random_index, shuffle_delay};
use crate::connection::ConfigError;
use crate::template::{filled_template, is_renderable, render_template, renderable};

verus! {

/// Attempts made to fetch a token before giving up.
pub const MAX_TOKEN_ATTEMPTS: u32 = 10;

/// Upper bound, in milliseconds, of the pause between two attempts.
pub const MAX_BACKOFF_MILLIS: u64 = 5000;

/// An HTTP token request, ready to send.
pub struct TokenRequest {
    pub url: String,
    pub method: String,
    pub body: String,
    pub extractor: String,
}

/// How a session obtains its password.
pub enum CredentialPlan {
    /// No token service is configured: this password is used as it is.
    Static(String),
    /// The password is a token fetched with this request.
    Remote(TokenRequest),
}

/// What to do after one token attempt.
#[derive(PartialEq, Eq, Debug)]
pub enum RetryDecision {
    /// The attempt produced this token, which may be empty.
    Resolved(String),
    /// The attempt failed; wait and try again.
    Retry,
    /// The attempt failed and no attempt is left.
    Exhausted,
}

/// Shape of a `RetryDecision`, for statements about runs.
#[derive(PartialEq, Eq, Structural, Clone, Copy, Debug)]
pub enum DecisionKind {
    Resolved,
    Retry,
    Exhausted,
}

/// Failed token attempts of one resolution so far.
pub struct TokenRetry {
    pub failures: u32,
}

pub open spec fn opt_view(o: Option<String>) -> Option<Seq<char>> {
    match o {
        Some(s) => Some(s@),
        None => None,
    }
}

/// A JSONPath expression made only of `$`, `.`, ASCII letters and digits,
/// `_` and `-`: a chain of field names. jsonpath-rust handles these without
/// panicking (bracket indexes and slices can make it panic).
pub open spec fn simple_path(path: Seq<char>) -> bool {
    forall|i: int| 0 <= i < path.len() ==> is_path_char(#[trigger] path[i])
}

pub open spec fn is_path_char(c: char) -> bool {
    ||| ('a' <= c && c <= 'z')
    ||| ('A' <= c && c <= 'Z')
    ||| ('0' <= c && c <= '9')
    ||| c == '_'
    ||| c == '-'
    ||| c == '.'
    ||| c == '$'
}

/// Whether `path` is a chain of field names.
pub fn is_simple_path(path: &str) -> (r: bool)
    ensures
        r == simple_path(path@),
{
    let n = path.unicode_len();
    let mut i: usize = 0;
    while i < n
        invariant
            n == path@.len(),
            i <= n,
            forall|j: int| 0 <= j < i ==> is_path_char(#[trigger] path@[j]),
        decreases n - i,
    {
        let c = path.get_char(i);
        let ok = ('a' <= c && c <= 'z') || ('A' <= c && c <= 'Z') || ('0' <= c && c <= '9') || c
            == '_' || c == '-' || c == '.' || c == '$';
        if !ok {
            return false;
        }
        i = i + 1;
    }
    true
}

/// What jsonpath-rust's `JsonPathFinder` finds for a path in a JSON text:
/// none where the text or the path does not parse, otherwise every match in
/// order, each as its string where it is a JSON string.
pub uninterp spec fn json_path_matches(body: Seq<char>, path: Seq<char>) -> Option<Seq<Option<Seq<char>>>>;

pub open spec fn matches_view(v: Seq<Option<String>>) -> Seq<Option<Seq<char>>> {
    v.map_values(|o: Option<String>| opt_view(o))
}

/// Relies on jsonpath_rust::JsonPathFinder::from_str and `find`, which
/// returns an array of the matches (null where there is none).
#[verifier::external_body]
fn find_matches(body: &str, path: &str) -> (r: Option<Vec<Option<String>>>)
    requires
        simple_path(path@),
    ensures
        r matches Some(v) ==> json_path_matches(body@, path@) == Some(matches_view(v@)),
        r is None ==> json_path_matches(body@, path@) is None,
{
    let finder = jsonpath_rust::JsonPathFinder::from_str(body, path).ok()?;
    let found = match finder.find() {
        serde_json::Value::Array(items) => items,
        _ => Vec::new(),
    };
    Some(found.iter().map(|v| v.as_str().map(|t| t.to_string())).collect())
}

/// The token a response yields: the first match, where it is a string.
pub open spec fn first_string(m: Option<Seq<Option<Seq<char>>>>) -> Option<Seq<char>> {
    match m {
        Some(v) => if v.len() > 0 { v[0] } else { None },
        None => None,
    }
}

/// The token in a response body; `None` where extraction fails (the path
/// is not a chain of field names, the body does not parse, nothing matches,
/// or the first match is not a string), which counts as a failed attempt.
pub fn extract_token(content: &str, token_extractor: &str) -> (r: Option<String>)
    ensures
        !simple_path(token_extractor@) ==> r is None,
        simple_path(token_extractor@) ==> opt_view(r) == first_string(
            json_path_matches(content@, token_extractor@),
        ),
{
    if !is_simple_path(token_extractor) {
        return None;
    }
    match find_matches(content, token_extractor) {
        None => None,
        Some(found) => {
            if found.len() == 0 {
                None
            } else {
                match &found[0] {
                    Some(t) => Some(t.clone()),
                    None => None,
                }
            }
        },
    }
}

pub open spec fn decision_kind(failures: u32, succeeded: bool) -> DecisionKind {
    if succeeded {
        DecisionKind::Resolved
    } else if failures + 1 >= MAX_TOKEN_ATTEMPTS {
        DecisionKind::Exhausted
    } else {
        DecisionKind::Retry
    }
}

pub open spec fn kind_of(d: RetryDecision) -> DecisionKind {
    match d {
        RetryDecision::Resolved(_) => DecisionKind::Resolved,
        RetryDecision::Retry => DecisionKind::Retry,
        RetryDecision::Exhausted => DecisionKind::Exhausted,
    }
}

/// Attempts made, and how a resolution ends, when attempt `i` succeeds
/// exactly where `outcomes[i]`; `Retry` means it is still going when the
/// outcomes run out.
pub open spec fn resolution(failures: u32, outcomes: Seq<bool>) -> (nat, DecisionKind)
    decreases outcomes.len(),
{
    if outcomes.len() == 0 || failures >= MAX_TOKEN_ATTEMPTS {
        (0, DecisionKind::Retry)
    } else {
        match decision_kind(failures, outcomes[0]) {
            DecisionKind::Retry => {
                let r = resolution((failures + 1) as u32, outcomes.drop_first());
                (r.0 + 1, r.1)
            },
            k => (1, k),
        }
    }
}

proof fn lemma_failures_exhaust(f: u32, outcomes: Seq<bool>)
    requires
        f < MAX_TOKEN_ATTEMPTS,
        outcomes.len() >= MAX_TOKEN_ATTEMPTS - f,
        forall|i: int| 0 <= i < MAX_TOKEN_ATTEMPTS - f ==> !#[trigger] outcomes[i],
    ensures
        resolution(f, outcomes) == (
            (MAX_TOKEN_ATTEMPTS - f) as nat,
            DecisionKind::Exhausted,
        ),
    decreases MAX_TOKEN_ATTEMPTS - f,
{
    assert(!outcomes[0]);
    if f + 1 < MAX_TOKEN_ATTEMPTS {
        let rest = outcomes.drop_first();
        assert forall|i: int| 0 <= i < MAX_TOKEN_ATTEMPTS - (f + 1) implies !#[trigger] rest[i] by {
            assert(rest[i] == outcomes[i + 1]);
        }
        lemma_failures_exhaust((f + 1) as u32, rest);
    }
}

/// Ten failed attempts in a row end the resolution as `Exhausted` after
/// exactly ten attempts: no eleventh is made.
pub proof fn lemma_ten_failures_exhaust(outcomes: Seq<bool>)
    requires
        outcomes.len() >= 10,
        forall|i: int| 0 <= i < 10 ==> !#[trigger] outcomes[i],
    ensures
        resolution(0, outcomes) == (10nat, DecisionKind::Exhausted),
{
    lemma_failures_exhaust(0, outcomes);
}

/// An attempt that yields a token, even an empty one, resolves at once and
/// is never taken for exhaustion.
pub proof fn lemma_success_resolves(f: u32, outcomes: Seq<bool>)
    requires
        f < MAX_TOKEN_ATTEMPTS,
        outcomes.len() > 0,
        outcomes[0],
    ensures
        resolution(f, outcomes) == (1nat, DecisionKind::Resolved),
{
}

impl TokenRetry {
    pub fn new() -> (r: TokenRetry)
        ensures
            r.failures == 0,
    {
        TokenRetry { failures: 0 }
    }

    /// Records the result of one attempt (`None` for a failed one) and says
    /// what to do next.
    pub fn record(&mut self, attempt: Option<String>) -> (r: RetryDecision)
        requires
            old(self).failures < MAX_TOKEN_ATTEMPTS,
        ensures
            kind_of(r) == decision_kind(old(self).failures, attempt is Some),
            attempt matches Some(t) ==> (r == RetryDecision::Resolved(t) && final(self).failures
                == old(self).failures),
            attempt is None ==> final(self).failures == old(self).failures + 1,
    {
        match attempt {
            Some(t) => RetryDecision::Resolved(t),
            None => {
                self.failures = self.failures + 1;
                if self.failures >= MAX_TOKEN_ATTEMPTS {
                    RetryDecision::Exhausted
                } else {
                    RetryDecision::Retry
                }
            },
        }
    }
}

/// The pause before the next attempt, in milliseconds, within
/// `[1, MAX_BACKOFF_MILLIS]`.
pub fn backoff_delay() -> (r: u64)
    ensures
        1 <= r <= MAX_BACKOFF_MILLIS,
{
    shuffle_delay(MAX_BACKOFF_MILLIS + 1)
}

/// The token service address: the chosen server followed by the path.
pub open spec fn token_url(cfg: Config, server: int) -> Seq<char> {
    if cfg.dynamic_token.servers@.len() == 0 {
        cfg.dynamic_token.url@
    } else {
        cfg.dynamic_token.servers@[server]@ + cfg.dynamic_token.url@
    }
}

/// The password plan of a device for a given server choice.
pub open spec fn credential_plan_ok(cfg: Config, idx: int, server: int, r: CredentialPlan) -> bool {
    if cfg.dynamic_token.url@.len() == 0 {
        r matches CredentialPlan::Static(p) && p@ == cfg.things_info@[idx].password@
    } else {
        r matches CredentialPlan::Remote(req) && {
            &&& req.url@ == token_url(cfg, server)
            &&& req.method@ == cfg.dynamic_token.method@
            &&& req.body@ == filled_template(
                cfg.dynamic_token.payload@,
                things_map(cfg.things_info@[idx]),
            )
            &&& req.extractor@ == cfg.dynamic_token.token_extractor@
        }
    }
}

/// Why no password plan can be made: the request template cannot be
/// rendered, or the token extractor is not a chain of field names.
pub open spec fn plan_config_error(cfg: Config) -> Option<ConfigError> {
    if cfg.dynamic_token.url@.len() == 0 {
        None
    } else if !renderable(cfg.dynamic_token.payload@) {
        Some(ConfigError::InvalidTemplate)
    } else if !simple_path(cfg.dynamic_token.token_extractor@) {
        Some(ConfigError::InvalidTokenExtractor)
    } else {
        None
    }
}

/// A server index that can be chosen: below the number of servers, and 0
/// where none is listed.
pub open spec fn server_in_range(cfg: Config, server: int) -> bool {
    if cfg.dynamic_token.servers@.len() == 0 {
        server == 0
    } else {
        0 <= server < cfg.dynamic_token.servers@.len()
    }
}

impl Config {
    /// How device `things_idx` gets its password when token server
    /// `server` is chosen (ignored where no server is listed).
    pub fn credential_plan(&self, things_idx: usize, server: usize) -> (r: Result<CredentialPlan, ConfigError>)
        requires
            things_idx < self.things_info@.len(),
            self.dynamic_token.servers@.len() > 0 ==> server < self.dynamic_token.servers@.len(),
        ensures
            r matches Err(e) ==> plan_config_error(*self) == Some(e),
            r matches Ok(p) ==> plan_config_error(*self) is None && credential_plan_ok(
                *self,
                things_idx as int,
                server as int,
                p,
            ),
            plan_config_error(*self) is None ==> r is Ok,
    {
        let dt = &self.dynamic_token;
        if dt.url.unicode_len() == 0 {
            return Ok(CredentialPlan::Static(self.things_info[things_idx].password.clone()));
        }
        if !is_renderable(dt.payload.as_str()) {
            return Err(ConfigError::InvalidTemplate);
        }
        if !is_simple_path(dt.token_extractor.as_str()) {
            return Err(ConfigError::InvalidTokenExtractor);
        }
        let context = self.things_info[things_idx].to_map();
        let body = render_template(dt.payload.as_str(), &context);
        let url = if dt.servers.len() == 0 {
            dt.url.clone()
        } else {
            dt.servers[server].clone().concat(dt.url.as_str())
        };
        Ok(
            CredentialPlan::Remote(
                TokenRequest {
                    url,
                    method: dt.method.clone(),
                    body,
                    extractor: dt.token_extractor.clone(),
                },
            ),
        )
    }

    /// How device `things_idx` gets its password. Where a token service is
    /// configured, the server is drawn here, once, so all attempts of the
    /// session go to the same server; with no service nothing is drawn.
    pub fn get_things_password(&self, things_idx: usize) -> (r: Result<CredentialPlan, ConfigError>)
        requires
            things_idx < self.things_info@.len(),
        ensures
            r matches Err(e) ==> plan_config_error(*self) == Some(e),
            r matches Ok(p) ==> plan_config_error(*self) is None && exists|server: int|
                server_in_range(*self, server) && credential_plan_ok(
                    *self,
                    things_idx as int,
                    server,
                    p,
                ),
            plan_config_error(*self) is None ==> r is Ok,
            self.dynamic_token.url@.len() == 0 ==> (r matches Ok(CredentialPlan::Static(p)) && p@
                == self.things_info@[things_idx as int].password@),
    {
        let n = self.dynamic_token.servers.len();
        let server = if self.dynamic_token.url.unicode_len() > 0 && n > 0 {
            random_index(n)
        } else {
            0
        };
        let r = self.credential_plan(things_idx, server);
        proof {
            if self.dynamic_token.url@.len() > 0 {
                assert(server_in_range(*self, server as int));
            } else {
                assert(credential_plan_ok(*self, things_idx as int, 0, r->Ok_0));
                assert(server_in_range(*self, 0));
            }
        }
        r
    }
}

/// How device `things_idx` of `config` gets its password.
pub fn get_things_password(config: &Config, things_idx: usize) -> (r: Result<CredentialPlan, ConfigError>)
    requires
        things_idx < config.things_info@.len(),
    ensures
        r matches Err(e) ==> plan_config_error(*config) == Some(e),
        r matches Ok(p) ==> plan_config_error(*config) is None && exists|server: int|
            server_in_range(*config, server) && credential_plan_ok(
                *config,
                things_idx as int,
                server,
                p,
            ),
        plan_config_error(*config) is None ==> r is Ok,
        config.dynamic_token.url@.len() == 0 ==> (r matches Ok(CredentialPlan::Static(p)) && p@
            == config.things_info@[things_idx as int].password@),
{
    config.get_things_password(things_idx)
}

} // verus!
