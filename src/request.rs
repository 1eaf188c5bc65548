//! Request descriptors and the transport's decisions: which credential to
//! attach, and whether a response calls for the single auth-triggered retry.
use vstd::prelude::*;
use vstd::string::*;
use crate::json::str_eq;
use crate::token::AccessTokenType;

verus! {

#[derive(Clone, Copy, Debug, PartialEq, Eq, Structural)]
pub enum HttpMethod {
    Get,
    Post,
    Put,
    Patch,
    Delete,
    Head,
    Options,
}

/// A request as endpoint code describes it, before the transport resolves a
/// credential. Query parameter names are unique.
#[derive(Debug)]
pub struct ApiRequest {
    pub http_method: HttpMethod,
    pub api_path: String,
    pub body: Vec<u8>,
    pub query_params: Vec<(String, String)>,
    pub path_params: Vec<(String, String)>,
    /// Accepted credential kinds, the preferred first.
    pub supported_access_token_types: Vec<AccessTokenType>,
    pub file: Vec<u8>,
}

/// The index of the parameter named `key`.
pub open spec fn param_index(q: Seq<(String, String)>, key: Seq<char>) -> Option<int>
    decreases q.len(),
{
    if q.len() == 0 {
        None
    } else if q[0].0@ == key {
        Some(0)
    } else {
        match param_index(q.drop_first(), key) {
            Some(i) => Some(i + 1),
            None => None,
        }
    }
}

proof fn lemma_param_index(q: Seq<(String, String)>, key: Seq<char>)
    ensures
        match param_index(q, key) {
            Some(i) => 0 <= i < q.len() && q[i].0@ == key,
            None => forall|j: int| 0 <= j < q.len() ==> #[trigger] q[j].0@ != key,
        },
    decreases q.len(),
{
    if q.len() > 0 {
        lemma_param_index(q.drop_first(), key);
        if param_index(q, key) is None {
            assert forall|j: int| 0 <= j < q.len() implies #[trigger] q[j].0@ != key by {
                if j > 0 {
                    assert(q[j] == q.drop_first()[j - 1]);
                }
            }
        }
    }
}

/// Parameter names are pairwise distinct.
pub open spec fn keys_unique(q: Seq<(String, String)>) -> bool {
    forall|i: int, j: int| 0 <= i < j < q.len() ==> #[trigger] q[i].0@ != #[trigger] q[j].0@
}

/// The parameters after setting `key` to `value`: an existing entry of `key`
/// is replaced in place, otherwise the pair is appended.
pub open spec fn param_set(q: Seq<(String, String)>, key: String, value: String) -> Seq<(String, String)> {
    match param_index(q, key@) {
        Some(i) => q.update(i, (key, value)),
        None => q.push((key, value)),
    }
}

/// Sets `key` to `value` in a parameter list with unique names.
pub fn set_param(q: &mut Vec<(String, String)>, key: String, value: String)
    requires
        keys_unique(old(q)@),
    ensures
        final(q)@ == param_set(old(q)@, key, value),
        keys_unique(final(q)@),
{
    proof {
        lemma_param_index(q@, key@);
        assert(q@.subrange(0, q@.len() as int) =~= q@);
    }
    let ghost q0 = q@;
    let mut i: usize = 0;
    while i < q.len()
        invariant
            q@ == q0,
            old(q)@ == q0,
            keys_unique(q0),
            i <= q0.len(),
            param_index(q0, key@) == (match param_index(q0.subrange(i as int, q0.len() as int), key@) {
                Some(j) => Some(j + i),
                None => None,
            }),
        decreases q.len() - i,
    {
        assert(q0.subrange(i as int, q0.len() as int).drop_first() =~= q0.subrange(i + 1, q0.len() as int));
        if str_eq(q[i].0.as_str(), key.as_str()) {
            assert(q0.subrange(i as int, q0.len() as int)[0] == q0[i as int]);
            assert(param_index(q0, key@) == Some(i as int));
            q.set(i, (key, value));
            proof {
                assert(q@ == q0.update(i as int, (key, value)));
                assert(q@ == param_set(q0, key, value));
                lemma_param_index(q0, key@);
                assert forall|a: int, b: int| 0 <= a < b < q@.len() implies #[trigger] q@[a].0@ != #[trigger] q@[b].0@ by {
                    if a != i && b != i {
                        assert(q0[a].0@ != q0[b].0@);
                    } else if a == i {
                        assert(q0[i as int].0@ != q0[b].0@);
                    } else {
                        assert(q0[a].0@ != q0[i as int].0@);
                    }
                }
            }
            return;
        }
        i = i + 1;
    }
    proof {
        assert(q0.subrange(q0.len() as int, q0.len() as int) =~= Seq::<(String, String)>::empty());
        lemma_param_index(q0, key@);
    }
    q.push((key, value));
    proof {
        assert forall|a: int, b: int| 0 <= a < b < q@.len() implies #[trigger] q@[a].0@ != #[trigger] q@[b].0@ by {
            if b < q0.len() {
                assert(q0[a].0@ != q0[b].0@);
            } else {
                assert(q0[a].0@ != key@);
            }
        }
    }
}

/// `a` and `b` agree on every field but the query parameters.
pub open spec fn same_but_query(a: ApiRequest, b: ApiRequest) -> bool {
    &&& a.http_method == b.http_method
    &&& a.api_path == b.api_path
    &&& a.body == b.body
    &&& a.path_params == b.path_params
    &&& a.supported_access_token_types == b.supported_access_token_types
    &&& a.file == b.file
}

/// An empty `GET` request to the empty path, with no parameters, body, file
/// or accepted kinds.
pub open spec fn is_blank(r: ApiRequest) -> bool {
    &&& r.http_method == HttpMethod::Get
    &&& r.api_path@.len() == 0
    &&& r.body@.len() == 0
    &&& r.query_params@.len() == 0
    &&& r.path_params@.len() == 0
    &&& r.supported_access_token_types@.len() == 0
    &&& r.file@.len() == 0
}

impl ApiRequest {
    /// An empty `GET` request to the empty path that accepts no credential.
    pub fn new() -> (r: ApiRequest)
        ensures
            is_blank(r),
    {
        ApiRequest {
            http_method: HttpMethod::Get,
            api_path: String::new(),
            body: Vec::new(),
            query_params: Vec::new(),
            path_params: Vec::new(),
            supported_access_token_types: Vec::new(),
            file: Vec::new(),
        }
    }

    /// Sets the query parameter `key` to `value`.
    pub fn set_query(&mut self, key: String, value: String)
        requires
            keys_unique(old(self).query_params@),
        ensures
            final(self).query_params@ == param_set(old(self).query_params@, key, value),
            keys_unique(final(self).query_params@),
            same_but_query(*final(self), *old(self)),
    {
        set_param(&mut self.query_params, key, value);
    }
}

/// The path text for a placeholder `name`: the value of the parameter of that
/// name, or the placeholder as written when there is none.
pub open spec fn placeholder_value(p: Seq<(String, String)>, name: Seq<char>) -> Seq<char> {
    match param_index(p, name) {
        Some(i) => p[i].1@,
        None => seq![':'] + name,
    }
}

/// The rest `t` of a path template resolved against `p`; `in_name` tells that
/// the placeholder `name` is being read. A placeholder is a `:` followed by the
/// characters up to the next `/` or the end.
pub open spec fn resolve_from(t: Seq<char>, p: Seq<(String, String)>, in_name: bool, name: Seq<char>) -> Seq<char>
    decreases t.len(),
{
    if t.len() == 0 {
        if in_name { placeholder_value(p, name) } else { Seq::empty() }
    } else if in_name {
        if t[0] == '/' {
            placeholder_value(p, name) + seq!['/'] + resolve_from(t.drop_first(), p, false, Seq::empty())
        } else {
            resolve_from(t.drop_first(), p, true, name.push(t[0]))
        }
    } else if t[0] == ':' {
        resolve_from(t.drop_first(), p, true, Seq::empty())
    } else {
        seq![t[0]] + resolve_from(t.drop_first(), p, false, Seq::empty())
    }
}

/// A path template with every placeholder replaced by its parameter's value.
pub open spec fn resolve_path_spec(t: Seq<char>, p: Seq<(String, String)>) -> Seq<char> {
    resolve_from(t, p, false, Seq::empty())
}

/// Relies on `FromIterator<char>` for `String`: the characters, in order.
#[verifier::external_body]
fn string_of_chars(v: &Vec<char>) -> (r: String)
    ensures
        r@ == v@,
{
    v.iter().collect::<String>()
}

/// Appends the characters of `s`.
fn append_chars(out: &mut Vec<char>, s: &str)
    ensures
        final(out)@ == old(out)@ + s@,
{
    let n = s.unicode_len();
    let mut i: usize = 0;
    while i < n
        invariant
            n == s@.len(),
            i <= n,
            out@ == old(out)@ + s@.subrange(0, i as int),
        decreases n - i,
    {
        out.push(s.get_char(i));
        assert(s@.subrange(0, i + 1) =~= s@.subrange(0, i as int).push(s@[i as int]));
        i = i + 1;
    }
    assert(s@.subrange(0, n as int) =~= s@);
}

/// Whether the characters of `v` are those of `s`.
fn chars_eq(v: &Vec<char>, s: &str) -> (r: bool)
    ensures
        r == (v@ == s@),
{
    let n = s.unicode_len();
    if v.len() != n {
        return false;
    }
    let mut i: usize = 0;
    while i < n
        invariant
            n == s@.len(),
            n == v@.len(),
            i <= n,
            v@.subrange(0, i as int) == s@.subrange(0, i as int),
        decreases n - i,
    {
        if v[i] != s.get_char(i) {
            return false;
        }
        assert(v@.subrange(0, i + 1) =~= v@.subrange(0, i as int).push(v@[i as int]));
        assert(s@.subrange(0, i + 1) =~= s@.subrange(0, i as int).push(s@[i as int]));
        i = i + 1;
    }
    assert(v@ =~= v@.subrange(0, n as int));
    assert(s@ =~= s@.subrange(0, n as int));
    true
}

/// Appends the path text for the placeholder `name`.
fn append_placeholder(out: &mut Vec<char>, p: &Vec<(String, String)>, name: &Vec<char>)
    ensures
        final(out)@ == old(out)@ + placeholder_value(p@, name@),
{
    assert(p@.subrange(0, p@.len() as int) =~= p@);
    let mut i: usize = 0;
    while i < p.len()
        invariant
            i <= p@.len(),
            out@ == old(out)@,
            param_index(p@, name@) == (match param_index(p@.subrange(i as int, p@.len() as int), name@) {
                Some(j) => Some(j + i),
                None => None,
            }),
        decreases p.len() - i,
    {
        assert(p@.subrange(i as int, p@.len() as int).drop_first() =~= p@.subrange(i + 1, p@.len() as int));
        if chars_eq(name, p[i].0.as_str()) {
            assert(p@.subrange(i as int, p@.len() as int)[0] == p@[i as int]);
            append_chars(out, p[i].1.as_str());
            return;
        }
        i = i + 1;
    }
    out.push(':');
    let mut k: usize = 0;
    while k < name.len()
        invariant
            k <= name@.len(),
            out@ == old(out)@ + seq![':'] + name@.subrange(0, k as int),
        decreases name.len() - k,
    {
        out.push(name[k]);
        assert(name@.subrange(0, k + 1) =~= name@.subrange(0, k as int).push(name@[k as int]));
        k = k + 1;
    }
    assert(name@.subrange(0, name@.len() as int) =~= name@);
    assert(old(out)@ + seq![':'] + name@ =~= old(out)@ + (seq![':'] + name@));
}

/// The path with each `:name` placeholder replaced by the value of the path
/// parameter `name`; a placeholder without a parameter stays as written.
pub fn resolve_path(template: &str, params: &Vec<(String, String)>) -> (r: String)
    ensures
        r@ == resolve_path_spec(template@, params@),
{
    let n = template.unicode_len();
    let mut out: Vec<char> = Vec::new();
    let mut name: Vec<char> = Vec::new();
    let mut in_name = false;
    let mut i: usize = 0;
    assert(template@.subrange(0, n as int) =~= template@);
    while i < n
        invariant
            n == template@.len(),
            i <= n,
            !in_name ==> name@ == Seq::<char>::empty(),
            resolve_path_spec(template@, params@) == out@ + resolve_from(
                template@.subrange(i as int, n as int),
                params@,
                in_name,
                name@,
            ),
        decreases n - i,
    {
        let c = template.get_char(i);
        let ghost t = template@.subrange(i as int, n as int);
        let ghost before = out@;
        assert(t.drop_first() =~= template@.subrange(i + 1, n as int));
        assert(t[0] == c);
        if in_name {
            if c == '/' {
                let ghost nm = name@;
                append_placeholder(&mut out, params, &name);
                out.push('/');
                name = Vec::new();
                in_name = false;
                let ghost rest = resolve_from(t.drop_first(), params@, false, Seq::empty());
                assert(before + (placeholder_value(params@, nm) + seq!['/'] + rest) =~= out@ + rest);
            } else {
                name.push(c);
            }
        } else if c == ':' {
            in_name = true;
        } else {
            out.push(c);
            assert(before + (seq![c] + resolve_from(t.drop_first(), params@, false, Seq::empty())) =~= out@
                + resolve_from(t.drop_first(), params@, false, Seq::empty()));
        }
        i = i + 1;
    }
    if in_name {
        append_placeholder(&mut out, params, &name);
    }
    assert(template@.subrange(n as int, n as int) =~= Seq::<char>::empty());
    assert(out@ + Seq::<char>::empty() =~= out@);
    string_of_chars(&out)
}

/// Per-call options.
#[derive(Debug)]
pub struct RequestOption {
    /// Restricts the call to this one credential kind.
    pub only_token_type: Option<AccessTokenType>,
    /// A user token supplied by the caller.
    pub user_access_token: Option<String>,
}

/// Where the credential of a call comes from.
#[derive(Debug)]
pub enum TokenSource {
    /// The call carries no credential.
    Without,
    /// The user token the caller supplied.
    Given(String),
    /// The credential store, for the call's kind.
    Store,
}

/// Where the credential for a call of `kind` comes from: none for a call
/// without credential; a user token the caller supplied in the options; the
/// store otherwise.
pub fn token_source(kind: AccessTokenType, user_access_token: Option<String>) -> (r: TokenSource)
    ensures
        kind == AccessTokenType::NoAuth ==> r is Without,
        kind == AccessTokenType::User && user_access_token is Some ==> (r matches TokenSource::Given(t) && t
            == user_access_token->0),
        kind != AccessTokenType::NoAuth && !(kind == AccessTokenType::User && user_access_token is Some) ==> r is Store,
{
    match kind {
        AccessTokenType::NoAuth => TokenSource::Without,
        AccessTokenType::User => match user_access_token {
            Some(t) => TokenSource::Given(t),
            None => TokenSource::Store,
        },
        _ => TokenSource::Store,
    }
}

/// Why the transport refuses a request before sending it.
#[derive(Clone, Copy, Debug, PartialEq, Eq, Structural)]
pub enum ConfigError {
    /// No accepted credential kind is left once the options are applied.
    NoUsableTokenType,
}

pub open spec fn allowed(k: AccessTokenType, only: Option<AccessTokenType>) -> bool {
    match only {
        Some(o) => k == o,
        None => true,
    }
}

/// The first accepted kind that the options allow.
pub open spec fn first_allowed(s: Seq<AccessTokenType>, only: Option<AccessTokenType>) -> Option<AccessTokenType>
    decreases s.len(),
{
    if s.len() == 0 {
        None
    } else if allowed(s[0], only) {
        Some(s[0])
    } else {
        first_allowed(s.drop_first(), only)
    }
}

/// The credential kind a request is sent with: the first accepted kind the
/// options allow; a request that accepts no credential at all goes without;
/// otherwise the request is refused.
pub open spec fn token_type_for(s: Seq<AccessTokenType>, only: Option<AccessTokenType>) -> Result<AccessTokenType, ConfigError> {
    match first_allowed(s, only) {
        Some(k) => Ok(k),
        None => if s == seq![AccessTokenType::NoAuth] {
            Ok(AccessTokenType::NoAuth)
        } else {
            Err(ConfigError::NoUsableTokenType)
        },
    }
}

/// Picks the credential kind to send the request with.
pub fn select_token_type(supported: &Vec<AccessTokenType>, only: Option<AccessTokenType>) -> (r: Result<AccessTokenType, ConfigError>)
    ensures
        r == token_type_for(supported@, only),
{
    assert(supported@.subrange(0, supported@.len() as int) =~= supported@);
    let mut i: usize = 0;
    while i < supported.len()
        invariant
            i <= supported@.len(),
            first_allowed(supported@, only) == first_allowed(supported@.subrange(i as int, supported@.len() as int), only),
        decreases supported.len() - i,
    {
        assert(supported@.subrange(i as int, supported@.len() as int).drop_first() =~= supported@.subrange(
            i + 1,
            supported@.len() as int,
        ));
        let k = supported[i];
        let ok = match only {
            Some(o) => k == o,
            None => true,
        };
        if ok {
            return Ok(k);
        }
        i = i + 1;
    }
    if supported.len() == 1 && supported[0] == AccessTokenType::NoAuth {
        assert(supported@ =~= seq![AccessTokenType::NoAuth]);
        Ok(AccessTokenType::NoAuth)
    } else {
        assert(supported@ != seq![AccessTokenType::NoAuth] || supported@.len() != 1);
        Err(ConfigError::NoUsableTokenType)
    }
}

/// Platform codes that mean the credential sent was invalid or expired.
pub open spec fn is_auth_failure(code: i64) -> bool {
    code == 99991661 || code == 99991663 || code == 99991664 || code == 99991668 || code == 99991677
}

/// A response whose status is an auth failure.
pub open spec fn auth_rejected(code: Option<i64>) -> bool {
    match code {
        Some(c) => is_auth_failure(c),
        None => false,
    }
}

pub fn auth_failure(code: i64) -> (r: bool)
    ensures
        r == is_auth_failure(code),
{
    code == 99991661 || code == 99991663 || code == 99991664 || code == 99991668 || code == 99991677
}

/// What the transport does with a response.
#[derive(Clone, Copy, Debug, PartialEq, Eq, Structural)]
pub enum CallAction {
    /// Hand the response to the caller as it is.
    Return,
    /// Invalidate the cached token of the kind used, fetch a fresh one and
    /// send again.
    RefreshAndRetry,
}

/// The retry state of one call.
#[derive(Clone, Copy, Debug, PartialEq, Eq, Structural)]
pub struct CallState {
    pub token_type: AccessTokenType,
    pub retried: bool,
}

/// The decision on a response with status `code` (`None` when the body is no
/// envelope), and the call state after it.
pub open spec fn on_response_step(s: CallState, code: Option<i64>) -> (CallState, CallAction) {
    if !s.retried && s.token_type != AccessTokenType::NoAuth && auth_rejected(code) {
        (CallState { retried: true, ..s }, CallAction::RefreshAndRetry)
    } else {
        (s, CallAction::Return)
    }
}

impl CallState {
    pub fn new(token_type: AccessTokenType) -> (r: CallState)
        ensures
            r.token_type == token_type,
            !r.retried,
    {
        CallState { token_type, retried: false }
    }

    /// Decides on a response: the first auth failure of a call that carries a
    /// credential is retried once; everything else is returned.
    pub fn on_response(&mut self, code: Option<i64>) -> (r: CallAction)
        ensures
            (*final(self), r) == on_response_step(*old(self), code),
    {
        let fail = match code {
            Some(c) => auth_failure(c),
            None => false,
        };
        if !self.retried && self.token_type != AccessTokenType::NoAuth && fail {
            self.retried = true;
            CallAction::RefreshAndRetry
        } else {
            CallAction::Return
        }
    }
}

/// Retry at most once: a call whose first response is an auth failure is
/// retried once after a refresh, and the second response, whatever it is, is
/// returned as it is; no third attempt follows. Any other first response is
/// returned at once.
pub proof fn law_single_retry(token_type: AccessTokenType, first: Option<i64>, second: Option<i64>)
    ensures
        ({
            let s0 = CallState { token_type, retried: false };
            let (s1, a1) = on_response_step(s0, first);
            let (s2, a2) = on_response_step(s1, second);
            &&& (token_type != AccessTokenType::NoAuth && auth_rejected(first)) ==> {
                &&& a1 == CallAction::RefreshAndRetry
                &&& a2 == CallAction::Return
                &&& s2 == s1
            }
            &&& !(token_type != AccessTokenType::NoAuth && auth_rejected(first))
                ==> a1 == CallAction::Return
        }),
{
}

/// The value of the `Authorization` header for a token.
pub fn bearer(token: &str) -> (r: String)
    ensures
        r@ == "Bearer "@ + token@,
{
    let r = String::from_str("Bearer ").concat(token);
    proof {
        reveal_strlit("Bearer ");
    }
    r
}

} // verus!
