//! The token acquirer: the request that fetches a token of each kind, and the
//! reading of the auth endpoint's answer.
use vstd::prelude::*;
use vstd::string::*;
use vstd::utf8::encode_utf8;
use crate::decode::{envelope_head, members};
use crate::json::{field_of, find_field, json_parse, json_text, parse_json, to_json_text, Json};
use crate::request::{ApiRequest, HttpMethod};
use crate::token::{usable, AccessTokenType, AuthError, CachedToken, TOKEN_SAFETY_MARGIN};

verus! {

/// Application identity and the API host.
#[derive(Debug)]
pub struct Config {
    pub app_id: String,
    pub app_secret: String,
    pub base_url: String,
}

impl Clone for Config {
    fn clone(&self) -> (r: Self)
        ensures
            r == *self,
    {
        Config { app_id: self.app_id.clone(), app_secret: self.app_secret.clone(), base_url: self.base_url.clone() }
    }
}

/// The path of the auth endpoint for `kind`.
pub open spec fn token_path(kind: AccessTokenType) -> Seq<char> {
    match kind {
        AccessTokenType::App => "/open-apis/auth/v3/app_access_token/internal"@,
        AccessTokenType::Tenant => "/open-apis/auth/v3/tenant_access_token/internal"@,
        _ => "/open-apis/authen/v1/oidc/access_token"@,
    }
}

/// `body` is the UTF-8 text of a JSON object with exactly the members `m`,
/// given as name and string value, in order.
pub open spec fn is_string_object(body: Seq<u8>, m: Seq<(Seq<char>, Seq<char>)>) -> bool {
    exists|f: Vec<(String, Json)>|
        {
            &&& #[trigger] encode_utf8(json_text(Json::Object(f))) == body
            &&& f@.len() == m.len()
            &&& forall|i: int| 0 <= i < m.len() ==> #[trigger] f@[i].0@ == m[i].0 && f@[i].1 is Str && f@[i].1->Str_0@ == m[i].1
        }
}

/// A POST of a JSON object of string members.
fn post_strings(path: &str, a: (&str, String), b: (&str, String), kinds: Vec<AccessTokenType>) -> (r: ApiRequest)
    ensures
        r.http_method == HttpMethod::Post,
        r.api_path@ == path@,
        is_string_object(r.body@, seq![(a.0@, a.1@), (b.0@, b.1@)]),
        r.query_params@.len() == 0,
        r.path_params@.len() == 0,
        r.supported_access_token_types@ == kinds@,
        r.file@.len() == 0,
{
    let mut f: Vec<(String, Json)> = Vec::new();
    f.push((String::from_str(a.0), Json::Str(a.1)));
    f.push((String::from_str(b.0), Json::Str(b.1)));
    let ghost g = f;
    let text = to_json_text(&Json::Object(f));
    let body = text.as_str().as_bytes_vec();
    let mut r = ApiRequest::new();
    r.http_method = HttpMethod::Post;
    r.api_path = String::from_str(path);
    r.body = body;
    r.supported_access_token_types = kinds;
    let ghost m = seq![(a.0@, a.1@), (b.0@, b.1@)];
    assert(forall|i: int| 0 <= i < m.len() ==> #[trigger] g@[i].0@ == m[i].0 && g@[i].1 is Str && g@[i].1->Str_0@ == m[i].1);
    assert(encode_utf8(json_text(Json::Object(g))) == r.body@);
    r
}

/// The request that fetches a user token for an authorization code. It is
/// sent with an app token.
pub fn user_token_request(code: String) -> (r: ApiRequest)
    ensures
        r.http_method == HttpMethod::Post,
        r.api_path@ == token_path(AccessTokenType::User),
        is_string_object(r.body@, seq![("grant_type"@, "authorization_code"@), ("code"@, code@)]),
        r.supported_access_token_types@ == seq![AccessTokenType::App],
        r.query_params@.len() == 0,
        r.path_params@.len() == 0,
        r.file@.len() == 0,
{
    proof {
        reveal_strlit("/open-apis/authen/v1/oidc/access_token");
        reveal_strlit("grant_type");
        reveal_strlit("authorization_code");
        reveal_strlit("code");
    }
    post_strings(
        "/open-apis/authen/v1/oidc/access_token",
        ("grant_type", String::from_str("authorization_code")),
        ("code", code),
        vec![AccessTokenType::App],
    )
}

/// The request that fetches a token of `kind`: app and tenant tokens are
/// fetched with the app identity and no credential; a user token needs an
/// authorization code.
pub fn token_request(kind: AccessTokenType, config: &Config, code: Option<String>) -> (r: Result<ApiRequest, AuthError>)
    requires
        kind != AccessTokenType::NoAuth,
    ensures
        kind == AccessTokenType::User && code is None ==> r == Err::<ApiRequest, AuthError>(AuthError::MissingCode),
        kind == AccessTokenType::User && code is Some ==> (r matches Ok(q) && q.http_method == HttpMethod::Post
            && q.supported_access_token_types@ == seq![AccessTokenType::App] && q.api_path@ == token_path(kind)
            && is_string_object(q.body@, seq![("grant_type"@, "authorization_code"@), ("code"@, code->0@)])),
        kind != AccessTokenType::User ==> (r matches Ok(q) && q.http_method == HttpMethod::Post && q.api_path@
            == token_path(kind) && is_string_object(
            q.body@,
            seq![("app_id"@, config.app_id@), ("app_secret"@, config.app_secret@)],
        ) && q.supported_access_token_types@ == seq![AccessTokenType::NoAuth]),
{
    proof {
        reveal_strlit("/open-apis/auth/v3/app_access_token/internal");
        reveal_strlit("/open-apis/auth/v3/tenant_access_token/internal");
        reveal_strlit("app_id");
        reveal_strlit("app_secret");
    }
    let path = match kind {
        AccessTokenType::App => "/open-apis/auth/v3/app_access_token/internal",
        AccessTokenType::Tenant => "/open-apis/auth/v3/tenant_access_token/internal",
        _ => {
            return match code {
                Some(c) => Ok(user_token_request(c)),
                None => Err(AuthError::MissingCode),
            };
        },
    };
    Ok(post_strings(
        path,
        ("app_id", config.app_id.clone()),
        ("app_secret", config.app_secret.clone()),
        vec![AccessTokenType::NoAuth],
    ))
}

/// The token and its lifetime in seconds, as the answer for `kind` carries
/// them: beside the status for app and tenant tokens, under `data` for user
/// tokens.
pub open spec fn token_fields(kind: AccessTokenType, doc: Option<Json>) -> Option<(String, i64)> {
    let (f, tk, ek) = match kind {
        AccessTokenType::App => (members(doc->0), "app_access_token"@, "expire"@),
        AccessTokenType::Tenant => (members(doc->0), "tenant_access_token"@, "expire"@),
        _ => (
            match field_of(members(doc->0), "data"@) {
                Some(d) => members(d),
                None => Seq::empty(),
            },
            "access_token"@,
            "expires_in"@,
        ),
    };
    match (field_of(f, tk), field_of(f, ek)) {
        (Some(Json::Str(t)), Some(Json::Int(e))) => Some((t, e)),
        _ => None,
    }
}

/// What the auth endpoint's answer `doc`, received at `now`, gives: the token
/// and its expiry instant, or the error.
pub open spec fn token_outcome(kind: AccessTokenType, doc: Option<Json>, now: int) -> Result<(String, int), AuthError> {
    match envelope_head(doc) {
        None => Err(AuthError::Malformed),
        Some((c, _)) => if c != 0 {
            Err(AuthError::Rejected(c))
        } else {
            match token_fields(kind, doc) {
                Some((t, e)) => if !(i64::MIN <= now + e <= i64::MAX) {
                    Err(AuthError::Malformed)
                } else if now + e <= now + TOKEN_SAFETY_MARGIN {
                    Err(AuthError::ExpiresTooSoon)
                } else {
                    Ok((t, now + e))
                },
                None => Err(AuthError::Malformed),
            }
        },
    }
}

/// The string and integer members named `tk` and `ek`.
fn read_token_fields(f: &Vec<(String, Json)>, tk: &str, ek: &str) -> (r: Option<(String, i64)>)
    ensures
        r == (match (field_of(f@, tk@), field_of(f@, ek@)) {
            (Some(Json::Str(t)), Some(Json::Int(e))) => Some((t, e)),
            _ => None::<(String, i64)>,
        }),
{
    let t = match find_field(f, tk) {
        Some(i) => match &f[i].1 {
            Json::Str(t) => t.clone(),
            _ => return None,
        },
        None => return None,
    };
    match find_field(f, ek) {
        Some(i) => match &f[i].1 {
            Json::Int(e) => Some((t, *e)),
            _ => None,
        },
        None => None,
    }
}

/// Reads the auth endpoint's answer for a token of `kind` received at `now`.
pub fn parse_token_response(kind: AccessTokenType, body: &[u8], now: i64) -> (r: Result<CachedToken, AuthError>)
    requires
        kind != AccessTokenType::NoAuth,
    ensures
        match token_outcome(kind, json_parse(body@), now as int) {
            Ok((t, e)) => r matches Ok(c) && c.token == t && c.expire_at == e,
            Err(x) => r == Err::<CachedToken, AuthError>(x),
        },
        r matches Ok(c) ==> usable(c, now as int),
{
    let doc = parse_json(body);
    let f = match doc {
        Some(Json::Object(f)) => f,
        _ => return Err(AuthError::Malformed),
    };
    let code = match find_field(&f, "code") {
        Some(i) => match &f[i].1 {
            Json::Int(c) => *c,
            _ => return Err(AuthError::Malformed),
        },
        None => return Err(AuthError::Malformed),
    };
    match find_field(&f, "msg") {
        Some(i) => match &f[i].1 {
            Json::Str(_) => {},
            _ => return Err(AuthError::Malformed),
        },
        None => return Err(AuthError::Malformed),
    }
    if code != 0 {
        return Err(AuthError::Rejected(code));
    }
    let fields = match kind {
        AccessTokenType::App => read_token_fields(&f, "app_access_token", "expire"),
        AccessTokenType::Tenant => read_token_fields(&f, "tenant_access_token", "expire"),
        _ => match find_field(&f, "data") {
            Some(i) => match &f[i].1 {
                Json::Object(d) => read_token_fields(d, "access_token", "expires_in"),
                _ => {
                    let empty: Vec<(String, Json)> = Vec::new();
                    read_token_fields(&empty, "access_token", "expires_in")
                },
            },
            None => {
                let empty: Vec<(String, Json)> = Vec::new();
                read_token_fields(&empty, "access_token", "expires_in")
            },
        },
    };
    match fields {
        Some((t, e)) => {
            let at = now as i128 + e as i128;
            if at < i64::MIN as i128 || at > i64::MAX as i128 {
                Err(AuthError::Malformed)
            } else if e <= TOKEN_SAFETY_MARGIN {
                Err(AuthError::ExpiresTooSoon)
            } else {
                Ok(CachedToken { token: t, expire_at: at as i64 })
            }
        },
        None => Err(AuthError::Malformed),
    }
}

} // verus!
