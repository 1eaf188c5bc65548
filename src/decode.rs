//! Response decoding: the generic envelope mapped to a payload or an error,
//! according to the shape declared for the response type.
use vstd::prelude::*;
use crate::request::{auth_failure, is_auth_failure, CallState};
use crate::json::{find_field, field_of, json_parse, parse_json, str_eq, Json};

verus! {

/// Where a response type's payload stands in the envelope.
#[derive(Clone, Copy, Debug, PartialEq, Eq, Structural)]
pub enum ResponseFormat {
    /// Under the `data` member.
    Data,
    /// Members of the payload stand beside `code` and `msg`.
    Flatten,
    /// The whole body is opaque bytes.
    Binary,
}

/// What a failed call reports.
#[derive(Debug)]
pub enum ApiError {
    /// A well-formed envelope with a non-zero code: the platform's code and
    /// message, verbatim.
    Application { code: i64, msg: String },
    /// The credential was rejected again after the one refresh and retry:
    /// the platform's code and message, verbatim.
    Authentication { code: i64, msg: String },
    /// The body is not an envelope of the declared shape.
    Decode,
}

/// A decoded payload.
#[derive(Debug)]
pub enum Payload {
    Json(Json),
    Bytes(Vec<u8>),
}

/// The members of an object; nothing for any other value.
pub open spec fn members(j: Json) -> Seq<(String, Json)> {
    match j {
        Json::Object(f) => f@,
        _ => Seq::empty(),
    }
}

/// The status code and message of an envelope: present when the document is an
/// object whose `code` is an integer and whose `msg` is a string.
pub open spec fn envelope_head(doc: Option<Json>) -> Option<(i64, String)> {
    match doc {
        Some(Json::Object(f)) => match (field_of(f@, "code"@), field_of(f@, "msg"@)) {
            (Some(Json::Int(c)), Some(Json::Str(m))) => Some((c, m)),
            _ => None,
        },
        _ => None,
    }
}

pub open spec fn is_status_member(k: Seq<char>) -> bool {
    k == "code"@ || k == "msg"@
}

/// The application error an envelope carries: present when its code is not 0.
pub open spec fn app_error_of(doc: Option<Json>) -> Option<ApiError> {
    match envelope_head(doc) {
        Some((c, m)) => if c != 0 {
            Some(ApiError::Application { code: c, msg: m })
        } else {
            None
        },
        None => None,
    }
}

/// The members of an envelope without `code` and `msg`, in order.
pub open spec fn strip_status(f: Seq<(String, Json)>) -> Seq<(String, Json)>
    decreases f.len(),
{
    if f.len() == 0 {
        Seq::empty()
    } else if is_status_member(f[0].0@) {
        strip_status(f.drop_first())
    } else {
        seq![f[0]] + strip_status(f.drop_first())
    }
}

/// The code and message of a parsed envelope, read from its members.
fn read_head(fields: &Vec<(String, Json)>) -> (r: Option<(i64, String)>)
    ensures
        r == envelope_head(Some(Json::Object(*fields))),
{
    let c = match find_field(fields, "code") {
        Some(i) => match &fields[i].1 {
            Json::Int(c) => *c,
            _ => return None,
        },
        None => return None,
    };
    match find_field(fields, "msg") {
        Some(i) => match &fields[i].1 {
            Json::Str(m) => Some((c, m.clone())),
            _ => None,
        },
        None => None,
    }
}

/// The members of an envelope without `code` and `msg`, in order.
fn strip_status_members(fields: Vec<(String, Json)>) -> (r: Vec<(String, Json)>)
    ensures
        r@ == strip_status(fields@),
{
    let ghost orig = fields@;
    let mut rest = fields;
    let mut out: Vec<(String, Json)> = Vec::new();
    while rest.len() > 0
        invariant
            strip_status(orig) == out@ + strip_status(rest@),
        decreases rest.len(),
    {
        let ghost before = rest@;
        let m = rest.remove(0);
        assert(rest@ =~= before.drop_first());
        if str_eq(m.0.as_str(), "code") || str_eq(m.0.as_str(), "msg") {
        } else {
            out.push(m);
            assert(out@ + strip_status(rest@) =~= out@.drop_last() + (seq![before[0]] + strip_status(
                rest@,
            )));
        }
    }
    assert(out@ + strip_status(rest@) =~= out@);
    out
}

/// Maps a parsed envelope to the payload of a `Data` or `Flatten` response.
/// A non-zero code gives the application error and no payload member is read.
pub fn decode_envelope(doc: Option<Json>, format: ResponseFormat) -> (r: Result<Json, ApiError>)
    requires
        format != ResponseFormat::Binary,
    ensures
        envelope_head(doc) is None ==> r is Err && r->Err_0 is Decode,
        app_error_of(doc) matches Some(e) ==> r == Err::<Json, ApiError>(e),
        envelope_head(doc) matches Some((c, _)) && c == 0 && format == ResponseFormat::Data ==> match field_of(
            members(doc->0),
            "data"@,
        ) {
            Some(d) => r == Ok::<Json, ApiError>(d),
            None => r is Err && r->Err_0 is Decode,
        },
        envelope_head(doc) matches Some((c, _)) && c == 0 && format == ResponseFormat::Flatten ==> (r matches Ok(
            Json::Object(v),
        ) && v@ == strip_status(members(doc->0))),
{
    let mut fields = match doc {
        Some(Json::Object(f)) => f,
        _ => return Err(ApiError::Decode),
    };
    let (code, msg) = match read_head(&fields) {
        Some(h) => h,
        None => return Err(ApiError::Decode),
    };
    if code != 0 {
        return Err(ApiError::Application { code, msg });
    }
    match format {
        ResponseFormat::Data => match find_field(&fields, "data") {
            Some(i) => {
                let d = fields.remove(i);
                Ok(d.1)
            },
            None => Err(ApiError::Decode),
        },
        _ => Ok(Json::Object(strip_status_members(fields))),
    }
}

/// Decodes a response body according to its declared shape. `Binary` bodies
/// are handed back as they are, unless they are an envelope with a non-zero
/// code, which is the application error.
pub fn decode(body: Vec<u8>, format: ResponseFormat) -> (r: Result<Payload, ApiError>)
    ensures
        decoded(body@, format, r),
{
    let doc = parse_json(body.as_slice());
    if format == ResponseFormat::Binary {
        let head = match &doc {
            Some(Json::Object(f)) => read_head(f),
            _ => None,
        };
        match head {
            Some((c, m)) => if c != 0 {
                return Err(ApiError::Application { code: c, msg: m });
            },
            None => {},
        }
        Ok(Payload::Bytes(body))
    } else {
        match decode_envelope(doc, format) {
            Ok(j) => Ok(Payload::Json(j)),
            Err(e) => Err(e),
        }
    }
}

/// The status code of a response body, when it is an envelope; this is what
/// the transport's retry decision reads.
pub fn status_of(body: &[u8]) -> (r: Option<i64>)
    ensures
        r == (match envelope_head(json_parse(body@)) {
            Some((c, _)) => Some(c),
            None => None::<i64>,
        }),
{
    match parse_json(body) {
        Some(Json::Object(f)) => match read_head(&f) {
            Some((c, _)) => Some(c),
            None => None,
        },
        _ => None,
    }
}

/// `r` is what `decode` gives for `body` under `format`.
pub open spec fn decoded(body: Seq<u8>, format: ResponseFormat, r: Result<Payload, ApiError>) -> bool {
    &&& app_error_of(json_parse(body)) matches Some(e) ==> r == Err::<Payload, ApiError>(e)
    &&& format == ResponseFormat::Binary && app_error_of(json_parse(body)) is None ==> (r matches Ok(
        Payload::Bytes(b),
    ) && b@ == body)
    &&& format != ResponseFormat::Binary ==> match r {
        Ok(Payload::Json(j)) => decode_envelope_ok(json_parse(body), format, j),
        Ok(Payload::Bytes(_)) => false,
        Err(e) => decode_envelope_err(json_parse(body), format, e),
    }
}

/// The code and message of an envelope whose status is an auth failure.
pub open spec fn auth_rejection_of(doc: Option<Json>) -> Option<(i64, String)> {
    match envelope_head(doc) {
        Some((c, m)) => if is_auth_failure(c) {
            Some((c, m))
        } else {
            None
        },
        None => None,
    }
}

/// The result of a call whose transport has decided to return `body`: a
/// call that was already retried once and is rejected again ends in the
/// authentication error with the platform's code and message; any other
/// body is decoded under `format`.
pub fn finish_call(state: &CallState, body: Vec<u8>, format: ResponseFormat) -> (r: Result<Payload, ApiError>)
    ensures
        state.retried && auth_rejection_of(json_parse(body@)) is Some ==> r == Err::<Payload, ApiError>(
            ApiError::Authentication {
                code: (auth_rejection_of(json_parse(body@))->0).0,
                msg: (auth_rejection_of(json_parse(body@))->0).1,
            },
        ),
        !(state.retried && auth_rejection_of(json_parse(body@)) is Some) ==> decoded(body@, format, r),
{
    if state.retried {
        let head = match parse_json(body.as_slice()) {
            Some(Json::Object(f)) => read_head(&f),
            _ => None,
        };
        match head {
            Some((c, m)) => if auth_failure(c) {
                return Err(ApiError::Authentication { code: c, msg: m });
            },
            None => {},
        }
    }
    decode(body, format)
}

/// `j` is the payload `decode_envelope` gives for the document.
pub open spec fn decode_envelope_ok(doc: Option<Json>, format: ResponseFormat, j: Json) -> bool {
    &&& envelope_head(doc) matches Some((c, _)) && c == 0
    &&& format == ResponseFormat::Data ==> field_of(members(doc->0), "data"@) == Some(j)
    &&& format == ResponseFormat::Flatten ==> (j matches Json::Object(v) && v@ == strip_status(members(doc->0)))
}

/// `e` is the error `decode_envelope` gives for the document.
pub open spec fn decode_envelope_err(doc: Option<Json>, format: ResponseFormat, e: ApiError) -> bool {
    match envelope_head(doc) {
        None => e is Decode,
        Some((c, m)) => if c != 0 {
            e == ApiError::Application { code: c, msg: m }
        } else {
            format == ResponseFormat::Data && field_of(members(doc->0), "data"@) is None && e is Decode
        },
    }
}

} // verus!
