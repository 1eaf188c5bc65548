use open_lark::auth::Config;
use open_lark::request::{HttpMethod, RequestOption};
use open_lark::service::{
    AuthenService, ChatsService, ListChatReqBuilder, ReadRangeResponse, ReadSingleRangeRequest, SpreadsheetService,
    UserAccessToken,
};
use open_lark::token::AccessTokenType;
use open_lark::decode::ResponseFormat;

fn config() -> Config {
    Config { app_id: "cli_1".to_string(), app_secret: "sec".to_string(), base_url: "https://open.feishu.cn".to_string() }
}

#[test]
fn list_chat_request() {
    let req = ListChatReqBuilder::new()
        .user_id_type("open_id".to_string())
        .page_size(20)
        .sort_type("ByCreateTimeAsc".to_string())
        .page_size(50)
        .limit(3)
        .build();
    assert_eq!(req.limit, Some(3));
    assert_eq!(
        req.api_req.query_params,
        vec![
            ("user_id_type".to_string(), "open_id".to_string()),
            ("page_size".to_string(), "50".to_string()),
            ("sort_type".to_string(), "ByCreateTimeAsc".to_string()),
        ]
    );
    let svc = ChatsService { config: config() };
    let r = svc.list_request(req);
    assert_eq!(r.http_method, HttpMethod::Get);
    assert_eq!(r.api_path, "/open-apis/im/v1/chats");
    assert_eq!(r.supported_access_token_types, vec![AccessTokenType::Tenant, AccessTokenType::User]);
    let b = ListChatReqBuilder::new().page_token("abc".to_string()).build();
    assert_eq!(b.api_req.query_params, vec![("page_token".to_string(), "abc".to_string())]);
}

#[test]
fn read_range_request() {
    let req = ReadSingleRangeRequest::builder()
        .spreadsheet_token("shtcn1".to_string())
        .range("Sheet1!A1:B2".to_string())
        .value_render_option("ToString".to_string())
        .date_time_render_option("FormattedString".to_string())
        .user_id_type("open_id".to_string())
        .build();
    assert_eq!(req.value_render_option.as_deref(), Some("ToString"));
    assert_eq!(req.api_request.query_params.len(), 3);
    let svc = SpreadsheetService { config: config() };
    let r = svc.reading_a_single_range_request(req);
    assert_eq!(r.api_path, "/open-apis/sheets/v2/spreadsheets/shtcn1/values/Sheet1!A1:B2");
    assert_eq!(r.supported_access_token_types, vec![AccessTokenType::Tenant, AccessTokenType::App]);
    assert_eq!(ReadRangeResponse::data_format(), ResponseFormat::Data);
}

#[test]
fn authen_service_request() {
    let a = AuthenService::new(config());
    assert_eq!(a.v1.user_access_token.config.app_id, "cli_1");
    assert_eq!(a.v1.user_info.config.app_secret, "sec");
    let r = a.v1.user_access_token.get_request("code-1".to_string());
    assert_eq!(r.api_path, "/open-apis/authen/v1/oidc/access_token");
    assert_eq!(String::from_utf8(r.body).unwrap(), r#"{"code":"code-1","grant_type":"authorization_code"}"#);
    assert_eq!(UserAccessToken::data_format(), ResponseFormat::Data);
    let o = RequestOption { only_token_type: Some(AccessTokenType::Tenant), user_access_token: None };
    assert_eq!(o.only_token_type, Some(AccessTokenType::Tenant));
}
