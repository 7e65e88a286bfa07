use boil::boil::{
    check_api_error, is_rate_limited, judge_document, settle_body, ApiError, BoilClient,
    ChangeIpResponse, GetIpResponse, HttpReply, BOIL_URL, REQUEST_TIMEOUT_SECS,
};
use boil::json::{JsonDocument, JsonValue};

fn error(message: &str) -> ApiError {
    ApiError::new(message.to_string())
}

/// An exchange whose body decodes to an address.
fn address(body: &str, ip: &str) -> HttpReply<GetIpResponse> {
    let decoded = Ok(GetIpResponse { ip: ip.to_string() });
    HttpReply::Body { body: body.to_string(), decoded }
}

/// An exchange whose body does not decode.
fn unreadable<T>(body: &str) -> HttpReply<T> {
    HttpReply::Body { body: body.to_string(), decoded: Err(vec!["expected value".to_string()]) }
}

fn send_failed<T>() -> HttpReply<T> {
    HttpReply::SendFailed { causes: vec!["send".to_string(), "dns".to_string()] }
}

fn read_failed<T>() -> HttpReply<T> {
    HttpReply::ReadFailed { causes: vec!["cut off".to_string()] }
}

fn document(members: Vec<(&str, JsonValue)>) -> Option<JsonDocument> {
    Some(JsonDocument::Object(members.into_iter().map(|(k, v)| (k.to_string(), v)).collect()))
}

fn text(s: &str) -> JsonValue {
    JsonValue::Text(s.to_string())
}

/// Reads an answer to `changeIP`, under either name of its flag.
fn decode_change(body: &str) -> Option<ChangeIpResponse> {
    let v: serde_json::Value = serde_json::from_str(body).ok()?;
    Some(ChangeIpResponse {
        success: v.get("success").or(v.get("ok"))?.as_bool()?,
        ip: v.get("ip").and_then(|x| x.as_str()).map(|x| x.to_string()),
        message: v.get("message").and_then(|x| x.as_str()).map(|x| x.to_string()),
        uses_left: v.get("uses_left").and_then(|x| x.as_u64()),
        next_allowed_at: v.get("next_allowed_at").and_then(|x| x.as_i64()),
    })
}

fn change(text: &str) -> Result<ChangeIpResponse, ApiError> {
    let decoded = decode_change(text).ok_or(vec!["missing field".to_string()]);
    BoilClient::try_change_ip(HttpReply::Body { body: text.to_string(), decoded }).unwrap()
}

#[test]
fn parses_current_change_ip_response() {
    let response = change(
        r#"{"ok":true,"message":"正在執行更換IP","uses_left":997,"next_allowed_at":1785610842}"#,
    )
    .expect("新接口响应应能解析");

    assert!(response.success);
    assert_eq!(response.message.as_deref(), Some("正在執行更換IP"));
    assert_eq!(response.uses_left, Some(997));
    assert_eq!(response.next_allowed_at, Some(1785610842));
}

#[test]
fn parses_legacy_change_ip_response() {
    let response =
        change(r#"{"success":true,"ip":"203.0.113.10"}"#).expect("旧接口响应应能解析");

    assert!(response.success);
    assert_eq!(response.ip.as_deref(), Some("203.0.113.10"));
}

#[test]
fn rate_limit_is_told_by_each_of_its_words() {
    assert!(is_rate_limited(&error("頻率限制")));
    assert!(is_rate_limited(&error("已达到频率限制，请稍后")));
    assert!(is_rate_limited(&error("請求過於頻密")));
    assert!(is_rate_limited(&error("请求过于频密")));
    assert!(!is_rate_limited(&error("频率")));
    assert!(!is_rate_limited(&error("token 无效")));
    assert!(!is_rate_limited(&error("")));
    assert!(!is_rate_limited(&error("getIP 请求失败")));
    assert!(!is_rate_limited(&error("频率x限制")));
}

#[test]
fn error_text_prevails_over_flags_and_message() {
    let e = check_api_error(r#"{"error":"bad token","ok":true,"message":"m"}"#).unwrap_err();
    assert_eq!(e.message, "bad token");
    let e = check_api_error(r#"{"error":"bad token","ok":false,"message":"m"}"#).unwrap_err();
    assert_eq!(e.message, "bad token");
}

#[test]
fn false_flag_reports_message_or_fixed_text() {
    let e = check_api_error(r#"{"ok":false,"message":"頻率限制"}"#).unwrap_err();
    assert_eq!(e.message, "頻率限制");
    let e = check_api_error(r#"{"success":false}"#).unwrap_err();
    assert_eq!(e.message, "API 返回失败");
    let e = check_api_error(r#"{"ok":true,"success":false,"message":7}"#).unwrap_err();
    assert_eq!(e.message, "API 返回失败");
    let e = check_api_error(r#"{"error":null,"ok":false}"#).unwrap_err();
    assert_eq!(e.message, "API 返回失败");
}

#[test]
fn answers_without_a_mark_of_failure_pass() {
    assert!(check_api_error("").is_ok());
    assert!(check_api_error("<html>频率限制</html>").is_ok());
    assert!(check_api_error("[1,2]").is_ok());
    assert!(check_api_error("null").is_ok());
    assert!(check_api_error("false").is_ok());
    assert!(check_api_error(r#"{"ip":"1.2.3.4"}"#).is_ok());
    assert!(check_api_error(r#"{"error":5}"#).is_ok());
    assert!(check_api_error(r#"{"error":{"message":"m"}}"#).is_ok());
    assert!(check_api_error(r#"{"ok":"false"}"#).is_ok());
    assert!(check_api_error(r#"{"ok":true,"success":true}"#).is_ok());
    assert!(check_api_error(r#"{"ok":0}"#).is_ok());
}

#[test]
fn of_a_repeated_key_the_last_counts() {
    assert!(check_api_error(r#"{"ok":false,"ok":true}"#).is_ok());
    assert!(check_api_error(r#"{"ok":true,"ok":false}"#).is_err());
}

#[test]
fn documents_are_judged_by_their_members() {
    assert!(judge_document(&None).is_ok());
    assert!(judge_document(&document(vec![])).is_ok());
    assert!(judge_document(&Some(JsonDocument::Null)).is_ok());
    assert!(judge_document(&Some(JsonDocument::Bool)).is_ok());
    assert!(judge_document(&Some(JsonDocument::Number)).is_ok());
    assert!(judge_document(&Some(JsonDocument::Text)).is_ok());
    assert!(judge_document(&Some(JsonDocument::Array)).is_ok());
    let e = judge_document(&document(vec![
        ("message", text("later")),
        ("success", JsonValue::Bool(false)),
    ]))
    .unwrap_err();
    assert_eq!(e.message, "later");
    let e = judge_document(&document(vec![("ok", JsonValue::Bool(false)), ("error", text("x"))]))
        .unwrap_err();
    assert_eq!(e.message, "x");
    assert!(judge_document(&document(vec![
        ("error", JsonValue::Array),
        ("ok", JsonValue::Number),
        ("success", JsonValue::Null),
        ("message", JsonValue::Object),
    ]))
    .is_ok());
}

#[test]
fn requests_name_the_call_and_the_token() {
    let client = BoilClient::new("t0k");
    assert_eq!(client.token, "t0k");
    assert_eq!(BOIL_URL, "https://ippanel.boil.network");
    assert_eq!(REQUEST_TIMEOUT_SECS, 30);
    let request = client.get_ip_request();
    assert_eq!(request.url, "https://ippanel.boil.network/api/v1/getIP");
    assert_eq!(request.authorization, "Bearer t0k");
    let request = client.change_ip_request();
    assert_eq!(request.url, "https://ippanel.boil.network/api/v1/changeIP/");
    assert_eq!(request.authorization, "Bearer t0k");
}

#[test]
fn address_is_handed_on() {
    let r = BoilClient::get_ip(address(r#"{"ip":"1.2.3.4"}"#, "1.2.3.4")).unwrap();
    assert_eq!(r.ip, "1.2.3.4");
    let r = BoilClient::try_get_ip(address(r#"{"ip":"1.2.3.4"}"#, "1.2.3.4"));
    assert_eq!(r.unwrap().unwrap().ip, "1.2.3.4");
}

#[test]
fn failures_of_the_exchange_have_their_messages_and_causes() {
    let e = BoilClient::get_ip(send_failed()).unwrap_err();
    assert_eq!(e.message, "getIP 请求失败");
    assert_eq!(e.causes, ["send", "dns"]);
    let e = BoilClient::get_ip(read_failed()).unwrap_err();
    assert_eq!(e.message, "getIP 读取响应失败");
    assert_eq!(e.causes, ["cut off"]);
    let e = BoilClient::change_ip(send_failed()).unwrap_err();
    assert_eq!(e.message, "changeIP 请求失败");
    assert_eq!(e.causes, ["send", "dns"]);
    let e = BoilClient::change_ip(read_failed()).unwrap_err();
    assert_eq!(e.message, "changeIP 读取响应失败");
    assert_eq!(e.causes, ["cut off"]);
}

#[test]
fn reported_failure_goes_before_the_form_of_the_body() {
    let e = BoilClient::get_ip(unreadable(r#"{"error":"频率限制"}"#)).unwrap_err();
    assert_eq!(e.message, "频率限制");
    assert!(e.causes.is_empty());
    let e = BoilClient::get_ip(address(r#"{"error":"no","ip":"1.1.1.1"}"#, "1.1.1.1")).unwrap_err();
    assert_eq!(e.message, "no");
    assert!(e.causes.is_empty());
}

#[test]
fn unreadable_body_is_quoted() {
    let e = BoilClient::get_ip(unreadable("oops")).unwrap_err();
    assert_eq!(e.message, "getIP 响应解析失败: oops");
    assert_eq!(e.causes, ["expected value"]);
    let e = BoilClient::change_ip(unreadable("")).unwrap_err();
    assert_eq!(e.message, "changeIP 响应解析失败: ");
    let long = "a".repeat(300);
    let e = BoilClient::get_ip(unreadable(&long)).unwrap_err();
    assert_eq!(e.message, format!("getIP 响应解析失败: {}", "a".repeat(200)));
    let exact = "b".repeat(200);
    let e = BoilClient::change_ip(unreadable(&exact)).unwrap_err();
    assert_eq!(e.message, format!("changeIP 响应解析失败: {exact}"));
    let whole = format!("{}频", "c".repeat(197));
    let e = BoilClient::get_ip(unreadable(&format!("{whole}率"))).unwrap_err();
    assert_eq!(e.message, format!("getIP 响应解析失败: {whole}"));
}

#[test]
fn quotation_that_cuts_a_character_is_told_apart() {
    let cut = format!("{}频率", "a".repeat(199));
    assert!(BoilClient::try_get_ip(unreadable(&cut)).is_none());
    assert!(BoilClient::try_change_ip(unreadable(&cut)).is_none());
    assert!(BoilClient::try_get_ip(address(&cut, "1.1.1.1")).is_some());
    let reported = format!(r#"{{"error":"{}"}}"#, cut);
    let e = BoilClient::try_get_ip(unreadable(&reported)).unwrap().unwrap_err();
    assert_eq!(e.message, cut);
    assert!(BoilClient::try_get_ip(send_failed()).unwrap().is_err());
}

#[test]
fn settled_body_follows_document_then_form() {
    let clean = document(vec![("ip", text("1.1.1.1"))]);
    assert_eq!(settle_body("x", &clean, "{}", Ok(5)).unwrap(), 5);
    let e = settle_body::<u8>("x", &clean, "raw", Err(vec!["why".to_string()])).unwrap_err();
    assert_eq!(e.message, "x 响应解析失败: raw");
    assert_eq!(e.causes, ["why"]);
    let bad = document(vec![("error", text("no"))]);
    assert_eq!(settle_body("x", &bad, "{}", Ok(5)).unwrap_err().message, "no");
}

#[test]
fn quoted_body_that_speaks_of_the_rate_limit_counts_as_limited() {
    let e = BoilClient::get_ip(unreadable("<html>频率限制</html>")).unwrap_err();
    assert_eq!(e.message, "getIP 响应解析失败: <html>频率限制</html>");
    assert!(is_rate_limited(&e));
}

#[test]
fn causes_do_not_make_a_rate_limit() {
    let e = ApiError { message: "getIP 请求失败".to_string(), causes: vec!["频率限制".to_string()] };
    assert!(!is_rate_limited(&e));
}

#[test]
fn flag_names_are_interchangeable() {
    for rest in [r#""message":"頻率限制""#, r#""ip":"203.0.113.10","uses_left":3"#, r#""error":"no""#] {
        for flag in [true, false] {
            let current = change(&format!(r#"{{"ok":{flag},{rest}}}"#));
            let former = change(&format!(r#"{{"success":{flag},{rest}}}"#));
            match (current, former) {
                (Ok(a), Ok(b)) => {
                    assert!(a.success && b.success);
                    assert_eq!(a.ip, b.ip);
                    assert_eq!(a.message, b.message);
                    assert_eq!(a.uses_left, b.uses_left);
                    assert_eq!(a.next_allowed_at, b.next_allowed_at);
                }
                (Err(a), Err(b)) => assert_eq!(a.message, b.message),
                _ => panic!("the names differ"),
            }
        }
    }
}

#[test]
fn accepted_change_has_its_flag_set() {
    assert!(change(r#"{"ok":true}"#).unwrap().success);
    assert!(change(r#"{"success":true}"#).unwrap().success);
    assert!(change(r#"{"ok":false}"#).is_err());
    assert!(change(r#"{"success":false}"#).is_err());
}
