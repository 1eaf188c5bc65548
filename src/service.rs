//! Endpoint services: each turns a typed request into a request descriptor for
//! the transport, and names the response type and its declared shape.
use vstd::prelude::*;
use vstd::string::*;
use crate::auth::{user_token_request, is_string_object, Config};
use crate::decode::ResponseFormat;
use crate::json::{decimal, int_text, Json};
use crate::request::{is_blank, keys_unique, param_set, same_but_query, ApiRequest, HttpMethod};
use crate::token::AccessTokenType;

verus! {

/// Authentication endpoints.
#[derive(Debug)]
pub struct AuthenService {
    pub v1: V1,
}

impl AuthenService {
    pub fn new(config: Config) -> (r: AuthenService)
        ensures
            r.v1.user_info.config == config,
            r.v1.user_access_token.config == config,
    {
        AuthenService { v1: V1::new(config) }
    }
}

/// Version 1 of the authentication endpoints.
#[derive(Debug)]
pub struct V1 {
    pub user_info: UserInfoService,
    pub user_access_token: UserAccessTokenService,
}

impl V1 {
    pub fn new(config: Config) -> (r: V1)
        ensures
            r.user_info.config == config,
            r.user_access_token.config == config,
    {
        V1 { user_access_token: UserAccessTokenService::new(config.clone()), user_info: UserInfoService { config } }
    }
}

/// The signed-in user's information.
#[derive(Debug)]
pub struct UserInfoService {
    pub config: Config,
}

/// Exchanges an authorization code for a user token.
#[derive(Debug)]
pub struct UserAccessTokenService {
    pub config: Config,
}

impl UserAccessTokenService {
    pub fn new(config: Config) -> (r: UserAccessTokenService)
        ensures
            r.config == config,
    {
        UserAccessTokenService { config }
    }

    /// The request that exchanges `code` for a user token.
    pub fn get_request(&self, code: String) -> (r: ApiRequest)
        ensures
            r.http_method == HttpMethod::Post,
            r.api_path@ == "/open-apis/authen/v1/oidc/access_token"@,
            is_string_object(r.body@, seq![("grant_type"@, "authorization_code"@), ("code"@, code@)]),
            r.supported_access_token_types@ == seq![AccessTokenType::App],
            r.query_params@.len() == 0,
            r.path_params@.len() == 0,
            r.file@.len() == 0,
    {
        user_token_request(code)
    }
}

/// A user token, as the exchange returns it.
#[derive(Debug)]
pub struct UserAccessToken {
    pub access_token: String,
    pub refresh_token: String,
    pub token_type: String,
    pub scope: String,
}

impl UserAccessToken {
    pub fn data_format() -> (r: ResponseFormat)
        ensures
            r == ResponseFormat::Data,
    {
        ResponseFormat::Data
    }
}

/// Group chat endpoints.
#[derive(Debug)]
pub struct ChatsService {
    pub config: Config,
}

impl ChatsService {
    /// The request that lists the chats the user or bot is in.
    pub fn list_request(&self, req: ListChatReq) -> (r: ApiRequest)
        ensures
            r.http_method == HttpMethod::Get,
            r.api_path@ == "/open-apis/im/v1/chats"@,
            r.supported_access_token_types@ == seq![AccessTokenType::Tenant, AccessTokenType::User],
            r.query_params == req.api_req.query_params,
            r.body == req.api_req.body,
            r.path_params == req.api_req.path_params,
            r.file == req.api_req.file,
    {
        let mut api_req = req.api_req;
        api_req.http_method = HttpMethod::Get;
        api_req.api_path = String::from_str("/open-apis/im/v1/chats");
        api_req.supported_access_token_types = vec![AccessTokenType::Tenant, AccessTokenType::User];
        proof {
            reveal_strlit("/open-apis/im/v1/chats");
        }
        api_req
    }
}

/// Builds a `ListChatReq`; query parameter names stay unique.
#[derive(Debug)]
pub struct ListChatReqBuilder {
    api_req: ApiRequest,
    limit: Option<i32>,
}

impl ListChatReqBuilder {
    pub closed spec fn query(self) -> Seq<(String, String)> {
        self.api_req.query_params@
    }

    /// The request being built.
    pub closed spec fn request(self) -> ApiRequest {
        self.api_req
    }

    pub closed spec fn limit_value(self) -> Option<i32> {
        self.limit
    }

    pub closed spec fn wf(self) -> bool {
        keys_unique(self.api_req.query_params@)
    }

    pub fn new() -> (r: ListChatReqBuilder)
        ensures
            r.wf(),
            is_blank(r.request()),
            r.query().len() == 0,
            r.limit_value() is None,
    {
        ListChatReqBuilder { api_req: ApiRequest::new(), limit: None }
    }

    pub fn limit(self, limit: i32) -> (r: ListChatReqBuilder)
        requires
            self.wf(),
        ensures
            r.wf(),
            r.request() == self.request(),
            r.query() == self.query(),
            r.limit_value() == Some(limit),
    {
        ListChatReqBuilder { limit: Some(limit), ..self }
    }

    fn with_query(self, key: &str, value: String) -> (r: ListChatReqBuilder)
        requires
            self.wf(),
        ensures
            r.wf(),
            exists|k: String| k@ == key@ && r.query() == param_set(self.query(), k, value),
            r.limit_value() == self.limit_value(),
            same_but_query(r.request(), self.request()),
    {
        let mut b = self;
        let k = String::from_str(key);
        let ghost kk = k;
        b.api_req.set_query(k, value);
        assert(kk@ == key@);
        b
    }

    /// Sets the user ID type.
    pub fn user_id_type(self, user_id_type: String) -> (r: ListChatReqBuilder)
        requires
            self.wf(),
        ensures
            r.wf(),
            exists|k: String| k@ == "user_id_type"@ && r.query() == param_set(self.query(), k, user_id_type),
            r.limit_value() == self.limit_value(),
            same_but_query(r.request(), self.request()),
    {
        self.with_query("user_id_type", user_id_type)
    }

    /// Sets the order of the chats.
    pub fn sort_type(self, sort_type: String) -> (r: ListChatReqBuilder)
        requires
            self.wf(),
        ensures
            r.wf(),
            exists|k: String| k@ == "sort_type"@ && r.query() == param_set(self.query(), k, sort_type),
            r.limit_value() == self.limit_value(),
            same_but_query(r.request(), self.request()),
    {
        self.with_query("sort_type", sort_type)
    }

    /// Sets the page token: where the previous page ended.
    pub fn page_token(self, page_token: String) -> (r: ListChatReqBuilder)
        requires
            self.wf(),
        ensures
            r.wf(),
            exists|k: String| k@ == "page_token"@ && r.query() == param_set(self.query(), k, page_token),
            r.limit_value() == self.limit_value(),
            same_but_query(r.request(), self.request()),
    {
        self.with_query("page_token", page_token)
    }

    /// Sets the page size, sent in decimal.
    pub fn page_size(self, page_size: i32) -> (r: ListChatReqBuilder)
        requires
            self.wf(),
        ensures
            r.wf(),
            exists|k: String, v: String|
                k@ == "page_size"@ && v@ == decimal(page_size as int) && r.query() == param_set(self.query(), k, v),
            r.limit_value() == self.limit_value(),
            same_but_query(r.request(), self.request()),
    {
        let v = int_text(page_size as i64);
        let ghost vv = v;
        let r = self.with_query("page_size", v);
        assert(vv@ == decimal(page_size as int));
        r
    }

    pub fn build(self) -> (r: ListChatReq)
        ensures
            r.api_req == self.request(),
            r.api_req.query_params@ == self.query(),
            r.limit == self.limit_value(),
    {
        ListChatReq { api_req: self.api_req, limit: self.limit }
    }
}

/// A request to list chats.
#[derive(Debug)]
pub struct ListChatReq {
    pub api_req: ApiRequest,
    pub limit: Option<i32>,
}

/// One page of chats.
#[derive(Debug)]
pub struct ListChatRespData {
    pub items: Vec<ListChat>,
    /// Where the next page starts; set when `has_more` is.
    pub page_token: String,
    pub has_more: bool,
}

/// A chat.
#[derive(Debug)]
pub struct ListChat {
    pub chat_id: String,
    pub avatar: String,
    pub name: String,
    pub description: String,
    pub owner_id: String,
    pub owner_id_type: String,
    pub external: bool,
    pub tenant_key: String,
    pub chat_status: String,
}

/// Spreadsheet endpoints.
#[derive(Debug)]
pub struct SpreadsheetService {
    pub config: Config,
}

/// A request to read one range of a spreadsheet.
#[derive(Debug)]
pub struct ReadSingleRangeRequest {
    pub api_request: ApiRequest,
    pub spreadsheet_token: String,
    /// The sheet id and the cell range.
    pub range: String,
    pub value_render_option: Option<String>,
    pub date_time_render_option: Option<String>,
    pub user_id_type: Option<String>,
}

impl ReadSingleRangeRequest {
    pub fn builder() -> (r: ReadSingleRangeRequestBuilder)
        ensures
            is_blank(r.request.api_request),
            r.request.spreadsheet_token@.len() == 0,
            r.request.range@.len() == 0,
            r.request.value_render_option is None,
            r.request.date_time_render_option is None,
            r.request.user_id_type is None,
    {
        ReadSingleRangeRequestBuilder {
            request: ReadSingleRangeRequest {
                api_request: ApiRequest::new(),
                spreadsheet_token: String::new(),
                range: String::new(),
                value_render_option: None,
                date_time_render_option: None,
                user_id_type: None,
            },
        }
    }
}

/// Builds a `ReadSingleRangeRequest`.
#[derive(Debug)]
pub struct ReadSingleRangeRequestBuilder {
    pub request: ReadSingleRangeRequest,
}

impl ReadSingleRangeRequestBuilder {
    pub open spec fn wf(self) -> bool {
        keys_unique(self.request.api_request.query_params@)
    }

    pub fn spreadsheet_token(self, spreadsheet_token: String) -> (r: ReadSingleRangeRequestBuilder)
        ensures
            r.request == (ReadSingleRangeRequest { spreadsheet_token, ..self.request }),
    {
        let mut b = self;
        b.request.spreadsheet_token = spreadsheet_token;
        b
    }

    pub fn range(self, range: String) -> (r: ReadSingleRangeRequestBuilder)
        ensures
            r.request == (ReadSingleRangeRequest { range, ..self.request }),
    {
        let mut b = self;
        b.request.range = range;
        b
    }

    fn option(self, key: &str, value: String) -> (r: (ReadSingleRangeRequestBuilder, String))
        requires
            self.wf(),
        ensures
            r.0.wf(),
            r.1 == value,
            exists|k: String| k@ == key@ && r.0.request.api_request.query_params@ == param_set(
                self.request.api_request.query_params@,
                k,
                value,
            ),
            r.0.request == (ReadSingleRangeRequest {
                api_request: r.0.request.api_request,
                ..self.request
            }),
            same_but_query(r.0.request.api_request, self.request.api_request),
    {
        let mut b = self;
        let k = String::from_str(key);
        let ghost kk = k;
        b.request.api_request.set_query(k, value.clone());
        assert(kk@ == key@);
        (b, value)
    }

    /// Sets how cell values are rendered.
    pub fn value_render_option(self, value_render_option: String) -> (r: ReadSingleRangeRequestBuilder)
        requires
            self.wf(),
        ensures
            r.wf(),
            r.request == (ReadSingleRangeRequest {
                api_request: r.request.api_request,
                value_render_option: Some(value_render_option),
                ..self.request
            }),
            same_but_query(r.request.api_request, self.request.api_request),
            exists|k: String| k@ == "valueRenderOption"@ && r.request.api_request.query_params@ == param_set(
                self.request.api_request.query_params@,
                k,
                value_render_option,
            ),
    {
        let (mut b, v) = self.option("valueRenderOption", value_render_option);
        b.request.value_render_option = Some(v);
        b
    }

    /// Sets how dates and times are rendered.
    pub fn date_time_render_option(self, date_time_render_option: String) -> (r: ReadSingleRangeRequestBuilder)
        requires
            self.wf(),
        ensures
            r.wf(),
            r.request == (ReadSingleRangeRequest {
                api_request: r.request.api_request,
                date_time_render_option: Some(date_time_render_option),
                ..self.request
            }),
            same_but_query(r.request.api_request, self.request.api_request),
            exists|k: String| k@ == "dateTimeRenderOption"@ && r.request.api_request.query_params@ == param_set(
                self.request.api_request.query_params@,
                k,
                date_time_render_option,
            ),
    {
        let (mut b, v) = self.option("dateTimeRenderOption", date_time_render_option);
        b.request.date_time_render_option = Some(v);
        b
    }

    /// Sets the type of user IDs in cells that mention users.
    pub fn user_id_type(self, user_id_type: String) -> (r: ReadSingleRangeRequestBuilder)
        requires
            self.wf(),
        ensures
            r.wf(),
            r.request == (ReadSingleRangeRequest {
                api_request: r.request.api_request,
                user_id_type: Some(user_id_type),
                ..self.request
            }),
            same_but_query(r.request.api_request, self.request.api_request),
            exists|k: String| k@ == "user_id_type"@ && r.request.api_request.query_params@ == param_set(
                self.request.api_request.query_params@,
                k,
                user_id_type,
            ),
    {
        let (mut b, v) = self.option("user_id_type", user_id_type);
        b.request.user_id_type = Some(v);
        b
    }

    pub fn build(self) -> (r: ReadSingleRangeRequest)
        ensures
            r == self.request,
    {
        self.request
    }
}

/// The path that reads `range` of the spreadsheet `token`.
pub open spec fn range_path(token: Seq<char>, range: Seq<char>) -> Seq<char> {
    "/open-apis/sheets/v2/spreadsheets/"@ + token + "/values/"@ + range
}

impl SpreadsheetService {
    /// The request that reads one range.
    pub fn reading_a_single_range_request(&self, request: ReadSingleRangeRequest) -> (r: ApiRequest)
        ensures
            r.http_method == HttpMethod::Get,
            r.api_path@ == range_path(request.spreadsheet_token@, request.range@),
            r.supported_access_token_types@ == seq![AccessTokenType::Tenant, AccessTokenType::App],
            r.query_params == request.api_request.query_params,
            r.body == request.api_request.body,
            r.path_params == request.api_request.path_params,
            r.file == request.api_request.file,
    {
        let mut api_req = request.api_request;
        api_req.api_path = String::from_str("/open-apis/sheets/v2/spreadsheets/").concat(
            request.spreadsheet_token.as_str(),
        ).concat("/values/").concat(request.range.as_str());
        api_req.http_method = HttpMethod::Get;
        api_req.supported_access_token_types = vec![AccessTokenType::Tenant, AccessTokenType::App];
        proof {
            reveal_strlit("/open-apis/sheets/v2/spreadsheets/");
            reveal_strlit("/values/");
        }
        api_req
    }
}

/// What reading a range returns.
#[derive(Debug)]
pub struct ReadRangeResponse {
    pub revision: i32,
    pub spreadsheet_token: String,
    pub value_range: ReadRangeValueRange,
}

impl ReadRangeResponse {
    pub fn data_format() -> (r: ResponseFormat)
        ensures
            r == ResponseFormat::Data,
    {
        ResponseFormat::Data
    }
}

/// The values of a range.
#[derive(Debug)]
pub struct ReadRangeValueRange {
    pub major_dimension: String,
    /// Empty when the range holds no data.
    pub range: String,
    pub revision: i32,
    pub values: Json,
}

} // verus!
