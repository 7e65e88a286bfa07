//! The Boil panel's API: what is asked of it, and what its answers mean.
use vstd::prelude::*;
use vstd::string::*;
use vstd::utf8::{
    decode_utf8, decode_utf8_encode_utf8, decode_utf8_split, encode_scalar, encode_utf8,
    encode_utf8_decode_utf8, encode_utf8_first_scalar, encode_utf8_valid_utf8, is_char_boundary,
    is_char_boundary_start_end_of_seq, pop_first_scalar, valid_utf8_split,
};

use crate::json::{
    bool_at, holds, holds_some_text, json_of_text, lemma_members_hold, member_bool, member_text,
    opt_document, parse_text, text_at, DocumentView, JsonDocument, JsonValue, JsonView, Members,
};
use crate::text::{contains_text, law_occurrence_is_a_part, occurs, texts};

verus! {

/// The address of the panel.
pub const BOIL_URL: &'static str = "https://ippanel.boil.network";

/// Seconds after which a request to the panel is given up.
pub const REQUEST_TIMEOUT_SECS: u64 = 30;

/// How many bytes of an unreadable answer an error message quotes at most.
pub const SNIPPET_BYTES: usize = 200;

/// A failure: the message shown for it, and the messages of what caused it, the nearest
/// cause first.
#[derive(Debug)]
pub struct ApiError {
    pub message: String,
    pub causes: Vec<String>,
}

/// A failure, its messages as sequences of characters.
pub struct ErrorView {
    pub message: Seq<char>,
    pub causes: Seq<Seq<char>>,
}

impl View for ApiError {
    type V = ErrorView;

    open spec fn view(&self) -> ErrorView {
        ErrorView { message: self.message@, causes: texts(self.causes@) }
    }
}

/// The failure with this message that nothing else caused.
pub open spec fn uncaused(message: Seq<char>) -> ErrorView {
    ErrorView { message, causes: Seq::empty() }
}

impl ApiError {
    /// The failure with this message that nothing else caused.
    pub fn new(message: String) -> (error: Self)
        ensures
            error@ == uncaused(message@),
    {
        let error = ApiError { message, causes: Vec::new() };
        assert(error@.causes =~= Seq::empty());
        error
    }
}

/// The panel's answer to `getIP`.
#[derive(Debug)]
pub struct GetIpResponse {
    pub ip: String,
}

/// The panel's answer to `changeIP`.
#[derive(Debug)]
pub struct ChangeIpResponse {
    /// Sent as `ok` by the current interface and as `success` by the former one.
    pub success: bool,
    pub ip: Option<String>,
    pub message: Option<String>,
    pub uses_left: Option<u64>,
    pub next_allowed_at: Option<i64>,
}

/// A request to the panel, to be sent with the method `POST`.
pub struct ApiRequest {
    pub url: String,
    /// The value of the `Authorization` header.
    pub authorization: String,
}

/// How an exchange with the panel ended. Of a failure the messages of its causes are
/// given, the nearest first.
pub enum HttpReply<T> {
    /// The request could not be sent, or no answer came.
    SendFailed { causes: Vec<String> },
    /// An answer came, and its body could not be read.
    ReadFailed { causes: Vec<String> },
    /// The body of the answer, and what it decodes to in the expected form, if it does.
    Body { body: String, decoded: Result<T, Vec<String>> },
}

/// The failure of a result.
pub open spec fn failure<T>(result: Result<T, ApiError>) -> Option<ErrorView> {
    match result {
        Ok(_) => None,
        Err(e) => Some(e@),
    }
}

/// A message speaks of the server's rate limit.
pub open spec fn speaks_of_rate_limit(message: Seq<char>) -> bool {
    ||| occurs(message, "頻率限制"@)
    ||| occurs(message, "频率限制"@)
    ||| occurs(message, "頻密"@)
    ||| occurs(message, "频密"@)
}

/// Whether a failure is the server's rate limit, by its own message.
pub fn is_rate_limited(err: &ApiError) -> (limited: bool)
    ensures
        limited == speaks_of_rate_limit(err.message@),
{
    let m = err.message.as_str();
    contains_text(m, "頻率限制") || contains_text(m, "频率限制") || contains_text(m, "頻密")
        || contains_text(m, "频密")
}

/// The failure that an answer reports, given the JSON document in its body (`None` where
/// the body is no JSON). An object reports the text under `error`, or else, where `ok` or
/// `success` is false, the text under `message` or a fixed one; nothing else reports a
/// failure.
pub open spec fn reported_failure(document: Option<DocumentView>) -> Option<Seq<char>> {
    match document {
        Some(DocumentView::Object(members)) => match text_at(members, "error"@) {
            Some(error) => Some(error),
            None => if bool_at(members, "ok"@) == Some(false) || bool_at(members, "success"@)
                == Some(false) {
                match text_at(members, "message"@) {
                    Some(message) => Some(message),
                    None => Some("API 返回失败"@),
                }
            } else {
                None
            },
        },
        _ => None,
    }
}

/// The failure with the message, if there is one.
pub open spec fn opt_uncaused(message: Option<Seq<char>>) -> Option<ErrorView> {
    match message {
        Some(m) => Some(uncaused(m)),
        None => None,
    }
}

/// Fails where the document reports a failure, with the message it gives.
pub fn judge_document(document: &Option<JsonDocument>) -> (verdict: Result<(), ApiError>)
    ensures
        failure(verdict) == opt_uncaused(reported_failure(opt_document(*document))),
{
    let members = match document {
        Some(JsonDocument::Object(members)) => members,
        _ => { return Ok(()); },
    };
    if let Some(error) = member_text(members, "error") {
        return Err(ApiError::new(error));
    }
    let ok = member_bool(members, "ok");
    let success = member_bool(members, "success");
    let failed = matches!(ok, Some(false)) || matches!(success, Some(false));
    if failed {
        return match member_text(members, "message") {
            Some(message) => Err(ApiError::new(message)),
            None => Err(ApiError::new("API 返回失败".to_string())),
        };
    }
    Ok(())
}

/// Fails where the body of an answer reports a failure.
pub fn check_api_error(body: &str) -> (verdict: Result<(), ApiError>)
    ensures
        failure(verdict) == opt_uncaused(reported_failure(json_of_text(body@))),
{
    let document = parse_text(body);
    judge_document(&document)
}

/// How many bytes of this body a message quotes.
pub open spec fn snippet_len(body: Seq<char>) -> int {
    if encode_utf8(body).len() < SNIPPET_BYTES {
        encode_utf8(body).len() as int
    } else {
        SNIPPET_BYTES as int
    }
}

/// The quoted part of this body ends between two characters.
pub open spec fn snippet_is_text(body: Seq<char>) -> bool {
    is_char_boundary(encode_utf8(body), snippet_len(body))
}

/// The part of this body that a message quotes.
pub open spec fn snippet(body: Seq<char>) -> Seq<char> {
    decode_utf8(encode_utf8(body).subrange(0, snippet_len(body)))
}

fn snippet_end(body: &str) -> (end: usize)
    ensures
        end == snippet_len(body@),
{
    let len = body.as_bytes().len();
    if len < SNIPPET_BYTES {
        len
    } else {
        SNIPPET_BYTES
    }
}

/// The first bytes of the body, as a text.
fn snippet_of(body: &str) -> (quoted: &str)
    requires
        snippet_is_text(body@),
    ensures
        quoted@ == snippet(body@),
{
    let (quoted, _rest) = body.split_at(snippet_end(body));
    proof {
        encode_utf8_decode_utf8(quoted@);
    }
    quoted
}

/// The failure of an answer to the call `name`: what its document reports, or that
/// its body is not of the expected form.
pub open spec fn body_failure<T>(
    name: Seq<char>,
    document: Option<DocumentView>,
    body: Seq<char>,
    decoded: Result<T, Vec<String>>,
) -> Option<ErrorView> {
    match reported_failure(document) {
        Some(message) => Some(uncaused(message)),
        None => match decoded {
            Ok(_) => None,
            Err(causes) => Some(
                ErrorView {
                    message: name + " 响应解析失败: "@ + snippet(body),
                    causes: texts(causes@),
                },
            ),
        },
    }
}

/// A message for this answer can be made: it quotes no body, or the quotation ends
/// between two characters.
pub open spec fn body_quotable<T>(
    document: Option<DocumentView>,
    body: Seq<char>,
    decoded: Result<T, Vec<String>>,
) -> bool {
    reported_failure(document) is None && decoded is Err ==> snippet_is_text(body)
}

/// Settles an answer, given the JSON document in its body and what the body decodes
/// to in the expected form, if it does.
pub fn settle_body<T>(
    name: &str,
    document: &Option<JsonDocument>,
    body: &str,
    decoded: Result<T, Vec<String>>,
) -> (result: Result<T, ApiError>)
    requires
        body_quotable(opt_document(*document), body@, decoded),
    ensures
        failure(result) == body_failure(name@, opt_document(*document), body@, decoded),
        result matches Ok(value) ==> decoded == Ok::<T, Vec<String>>(value),
{
    match judge_document(document) {
        Err(e) => Err(e),
        Ok(()) => match decoded {
            Ok(value) => Ok(value),
            Err(causes) => {
                let message = name.to_string().concat(" 响应解析失败: ").concat(snippet_of(body));
                Err(ApiError { message, causes })
            },
        },
    }
}

/// The failure of an exchange for the call `name`.
pub open spec fn exchange_failure<T>(name: Seq<char>, reply: HttpReply<T>) -> Option<ErrorView> {
    match reply {
        HttpReply::SendFailed { causes } => Some(
            ErrorView { message: name + " 请求失败"@, causes: texts(causes@) },
        ),
        HttpReply::ReadFailed { causes } => Some(
            ErrorView { message: name + " 读取响应失败"@, causes: texts(causes@) },
        ),
        HttpReply::Body { body, decoded } => body_failure(
            name,
            json_of_text(body@),
            body@,
            decoded,
        ),
    }
}

/// What an exchange for the call `name` gives: its failure, or what its body decodes to.
pub open spec fn exchange_gives<T>(
    name: Seq<char>,
    reply: HttpReply<T>,
    result: Result<T, ApiError>,
) -> bool {
    &&& failure(result) == exchange_failure(name, reply)
    &&& result matches Ok(value) ==> reply matches HttpReply::Body { decoded, .. } && decoded
        == Ok::<T, Vec<String>>(value)
}

/// A message for this exchange can be made.
pub open spec fn exchange_quotable<T>(reply: HttpReply<T>) -> bool {
    reply matches HttpReply::Body { body, decoded } ==> body_quotable(
        json_of_text(body@),
        body@,
        decoded,
    )
}

fn settle_exchange<T>(name: &str, reply: HttpReply<T>) -> (result: Result<T, ApiError>)
    requires
        exchange_quotable(reply),
    ensures
        exchange_gives(name@, reply, result),
{
    match reply {
        HttpReply::SendFailed { causes } => Err(
            ApiError { message: name.to_string().concat(" 请求失败"), causes },
        ),
        HttpReply::ReadFailed { causes } => Err(
            ApiError { message: name.to_string().concat(" 读取响应失败"), causes },
        ),
        HttpReply::Body { body, decoded } => {
            let document = parse_text(body.as_str());
            settle_body(name, &document, body.as_str(), decoded)
        },
    }
}

/// Whether a message for this exchange can be made.
fn can_quote<T>(reply: &HttpReply<T>) -> (quotable: bool)
    ensures
        quotable == exchange_quotable(*reply),
{
    match reply {
        HttpReply::Body { body, decoded } => {
            let failed = check_api_error(body.as_str()).is_err();
            failed || decoded.is_ok() || body.as_str().is_char_boundary(
                snippet_end(body.as_str()),
            )
        },
        _ => true,
    }
}

/// A client of the panel.
pub struct BoilClient {
    pub token: String,
}

impl BoilClient {
    /// A client that authorizes itself with `token`.
    pub fn new(token: &str) -> (client: Self)
        ensures
            client.token@ == token@,
    {
        BoilClient { token: token.to_string() }
    }

    /// The request `path` of the panel, authorized by this client's token.
    fn request(&self, path: &str) -> (request: ApiRequest)
        ensures
            request.url@ == BOIL_URL@ + path@,
            request.authorization@ == "Bearer "@ + self.token@,
    {
        ApiRequest {
            url: BOIL_URL.to_string().concat(path),
            authorization: "Bearer ".to_string().concat(self.token.as_str()),
        }
    }

    /// The request that asks for the current address.
    pub fn get_ip_request(&self) -> (request: ApiRequest)
        ensures
            request.url@ == BOIL_URL@ + "/api/v1/getIP"@,
            request.authorization@ == "Bearer "@ + self.token@,
    {
        self.request("/api/v1/getIP")
    }

    /// The request that asks for a new address.
    pub fn change_ip_request(&self) -> (request: ApiRequest)
        ensures
            request.url@ == BOIL_URL@ + "/api/v1/changeIP/"@,
            request.authorization@ == "Bearer "@ + self.token@,
    {
        self.request("/api/v1/changeIP/")
    }

    /// The current address, given how the exchange ended.
    pub fn get_ip(reply: HttpReply<GetIpResponse>) -> (result: Result<GetIpResponse, ApiError>)
        requires
            exchange_quotable(reply),
        ensures
            exchange_gives("getIP"@, reply, result),
    {
        settle_exchange("getIP", reply)
    }

    /// As `get_ip`; `None` where the quotation in the message would cut a character.
    pub fn try_get_ip(reply: HttpReply<GetIpResponse>) -> (result: Option<
        Result<GetIpResponse, ApiError>,
    >)
        ensures
            result is Some <==> exchange_quotable(reply),
            result matches Some(r) ==> exchange_gives("getIP"@, reply, r),
    {
        if can_quote(&reply) {
            Some(Self::get_ip(reply))
        } else {
            None
        }
    }

    /// The outcome of a change of address, given how the exchange ended.
    pub fn change_ip(reply: HttpReply<ChangeIpResponse>) -> (result: Result<
        ChangeIpResponse,
        ApiError,
    >)
        requires
            exchange_quotable(reply),
        ensures
            exchange_gives("changeIP"@, reply, result),
    {
        settle_exchange("changeIP", reply)
    }

    /// As `change_ip`; `None` where the quotation in the message would cut a character.
    pub fn try_change_ip(reply: HttpReply<ChangeIpResponse>) -> (result: Option<
        Result<ChangeIpResponse, ApiError>,
    >)
        ensures
            result is Some <==> exchange_quotable(reply),
            result matches Some(r) ==> exchange_gives("changeIP"@, reply, r),
    {
        if can_quote(&reply) {
            Some(Self::change_ip(reply))
        } else {
            None
        }
    }
}

/// A text under `error` is the failure that an answer reports, whatever else it holds.
pub proof fn law_error_text_prevails(members: Members)
    requires
        text_at(members, "error"@) is Some,
    ensures
        reported_failure(Some(DocumentView::Object(members))) == text_at(members, "error"@),
{
}

/// An answer without such a text reports a failure exactly where `ok`, of the current
/// interface, or `success`, of the former one, is false.
pub proof fn law_either_flag_reports_failure(members: Members)
    requires
        text_at(members, "error"@) is None,
    ensures
        reported_failure(Some(DocumentView::Object(members))) is Some <==> (bool_at(
            members,
            "ok"@,
        ) == Some(false) || bool_at(members, "success"@) == Some(false)),
{
}

/// A body that is no JSON object reports no failure.
pub proof fn law_other_bodies_report_nothing(body: Seq<char>)
    requires
        !(json_of_text(body) matches Some(DocumentView::Object(_))),
    ensures
        reported_failure(json_of_text(body)) is None,
{
}

/// The two names of the flag are interchangeable in what an answer reports.
pub proof fn law_flag_names_report_alike(members: Members, flag: bool)
    requires
        !members.dom().contains("ok"@),
        !members.dom().contains("success"@),
    ensures
        reported_failure(
            Some(DocumentView::Object(members.insert("ok"@, JsonView::Bool(flag)))),
        ) == reported_failure(
            Some(DocumentView::Object(members.insert("success"@, JsonView::Bool(flag)))),
        ),
{
    lemma_keys_differ();
}

/// The two names of the flag are interchangeable in an answer to `changeIP`: where two
/// bodies differ only in that name and decode alike, the change ends alike.
pub proof fn law_flag_names_are_interchangeable(
    members: Members,
    flag: bool,
    current: String,
    former: String,
    decoded: ChangeIpResponse,
    with_ok: Result<ChangeIpResponse, ApiError>,
    with_success: Result<ChangeIpResponse, ApiError>,
)
    requires
        !members.dom().contains("ok"@),
        !members.dom().contains("success"@),
        json_of_text(current@) == Some(
            DocumentView::Object(members.insert("ok"@, JsonView::Bool(flag))),
        ),
        json_of_text(former@) == Some(
            DocumentView::Object(members.insert("success"@, JsonView::Bool(flag))),
        ),
        exchange_gives(
            "changeIP"@,
            HttpReply::Body { body: current, decoded: Ok(decoded) },
            with_ok,
        ),
        exchange_gives(
            "changeIP"@,
            HttpReply::Body { body: former, decoded: Ok(decoded) },
            with_success,
        ),
    ensures
        failure(with_ok) == failure(with_success),
        with_ok matches Ok(value) ==> value == decoded,
        with_success matches Ok(value) ==> value == decoded,
        with_ok is Ok <==> with_success is Ok,
{
    law_flag_names_report_alike(members, flag);
}

/// A change that is accepted has its flag set: an answer whose flag, under either name,
/// is what it decodes to and is false, fails.
pub proof fn law_accepted_change_has_its_flag_set(
    members: Members,
    body: String,
    decoded: ChangeIpResponse,
    result: Result<ChangeIpResponse, ApiError>,
)
    requires
        json_of_text(body@) == Some(DocumentView::Object(members)),
        bool_at(members, "ok"@) == Some(decoded.success) || bool_at(members, "success"@) == Some(
            decoded.success,
        ),
        exchange_gives("changeIP"@, HttpReply::Body { body, decoded: Ok(decoded) }, result),
    ensures
        result matches Ok(value) ==> value.success,
{
}

/// A failure is the rate limit exactly where one of four words is a part of its message,
/// wherever it stands in it.
pub proof fn law_rate_limit_is_told_by_four_words(err: ApiError, limited: bool)
    requires
        call_ensures(is_rate_limited, (&err,), limited),
    ensures
        limited <==> exists|before: Seq<char>, word: Seq<char>, after: Seq<char>|
            err.message@ == #[trigger] (before + word + after) && (word == "頻率限制"@ || word
                == "频率限制"@ || word == "頻密"@ || word == "频密"@),
{
    let m = err.message@;
    law_occurrence_is_a_part(m, "頻率限制"@);
    law_occurrence_is_a_part(m, "频率限制"@);
    law_occurrence_is_a_part(m, "頻密"@);
    law_occurrence_is_a_part(m, "频密"@);
}

/// The last that the entries give for one of the two flags is that the call failed.
pub open spec fn flagged_as_failed(entries: Seq<(String, JsonValue)>) -> bool {
    ||| holds(entries, "ok"@, JsonValue::Bool(false))
    ||| holds(entries, "success"@, JsonValue::Bool(false))
}

/// The result is the failure with this message, which nothing else caused.
pub open spec fn fails_with<T>(result: Result<T, ApiError>, message: Seq<char>) -> bool {
    result matches Err(e) && e.message@ == message && e.causes@.len() == 0
}

/// An object is judged by its entries alone: a text under `error` is its failure; or else,
/// where either flag is false, the text under `message`, or a fixed one where that is not
/// there. All other objects pass.
pub proof fn law_object_is_judged_by_its_entries(
    entries: Vec<(String, JsonValue)>,
    verdict: Result<(), ApiError>,
)
    requires
        call_ensures(judge_document, (&Some(JsonDocument::Object(entries)),), verdict),
    ensures
        forall|t: String| #[trigger]
            holds(entries@, "error"@, JsonValue::Text(t)) ==> fails_with(verdict, t@),
        !holds_some_text(entries@, "error"@) && flagged_as_failed(entries@) ==> {
            &&& forall|t: String| #[trigger]
                holds(entries@, "message"@, JsonValue::Text(t)) ==> fails_with(verdict, t@)
            &&& !holds_some_text(entries@, "message"@) ==> fails_with(verdict, "API 返回失败"@)
        },
        !holds_some_text(entries@, "error"@) && !flagged_as_failed(entries@) ==> verdict is Ok,
{
    lemma_members_hold(entries@, "error"@);
    lemma_members_hold(entries@, "ok"@);
    lemma_members_hold(entries@, "success"@);
    lemma_members_hold(entries@, "message"@);
    if let Err(e) = verdict {
        assert(e@.causes.len() == e.causes@.len());
    }
}

/// What is no object passes.
pub proof fn law_what_is_no_object_passes(
    document: Option<JsonDocument>,
    verdict: Result<(), ApiError>,
)
    requires
        !(document matches Some(JsonDocument::Object(_))),
        call_ensures(judge_document, (&document,), verdict),
    ensures
        verdict is Ok,
{
}

/// Two results are the same success or the same failure.
pub open spec fn agree<T>(a: Result<T, ApiError>, b: Result<T, ApiError>) -> bool {
    match (a, b) {
        (Ok(x), Ok(y)) => x == y,
        (Err(x), Err(y)) => x.message@ == y.message@ && same_causes(x.causes@, y.causes@),
        _ => false,
    }
}

/// The two lists hold the same messages in the same order.
pub open spec fn same_causes(a: Seq<String>, b: Seq<String>) -> bool {
    &&& a.len() == b.len()
    &&& forall|i: int| 0 <= i < a.len() ==> (#[trigger] a[i])@ == b[i]@
}

/// A body is judged as the document in it is.
pub proof fn law_body_is_judged_by_its_document(
    body: &str,
    document: Option<JsonDocument>,
    of_body: Result<(), ApiError>,
    of_document: Result<(), ApiError>,
)
    requires
        json_of_text(body@) == opt_document(document),
        call_ensures(check_api_error, (body,), of_body),
        call_ensures(judge_document, (&document,), of_document),
    ensures
        of_body is Ok <==> of_document is Ok,
        of_body matches Err(e) ==> (of_document matches Err(f) && agree::<()>(Err(e), Err(f))),
{
    if let (Err(e), Err(f)) = (of_body, of_document) {
        lemma_views_agree(e, f);
    }
}

/// `quoted` is the beginning of `body`: all of it, or as much as takes this many bytes.
pub open spec fn quotes(body: Seq<char>, quoted: Seq<char>, bytes: nat) -> bool {
    &&& exists|rest: Seq<char>| body == #[trigger] (quoted + rest)
    &&& encode_utf8(quoted).len() == (if encode_utf8(body).len() < bytes {
        encode_utf8(body).len()
    } else {
        bytes
    })
}

/// An answer to the call `name` is settled in this order: a failure that the body reports
/// is the result; or else what the body decodes to; or else a failure that quotes the
/// beginning of the body and keeps the causes.
pub open spec fn settled_in_order<T>(
    name: Seq<char>,
    verdict: Result<(), ApiError>,
    body: Seq<char>,
    decoded: Result<T, Vec<String>>,
    result: Result<T, ApiError>,
) -> bool {
    match (verdict, decoded) {
        (Err(e), _) => fails_with(result, e.message@),
        (Ok(_), Ok(value)) => result == Ok::<T, ApiError>(value),
        (Ok(_), Err(causes)) => result matches Err(e) && same_causes(e.causes@, causes@)
            && exists|quoted: Seq<char>|
            quotes(body, quoted, 200) && e.message@ == #[trigger] (name + " 响应解析失败: "@
                + quoted),
    }
}

/// A body is settled in the order of the report, the expected form, and the quotation.
pub proof fn law_body_is_settled_in_order<T>(
    name: &str,
    document: Option<JsonDocument>,
    body: &str,
    decoded: Result<T, Vec<String>>,
    verdict: Result<(), ApiError>,
    result: Result<T, ApiError>,
)
    requires
        body_quotable(opt_document(document), body@, decoded),
        call_ensures(judge_document, (&document,), verdict),
        call_ensures(settle_body::<T>, (name, &document, body, decoded), result),
    ensures
        settled_in_order(name@, verdict, body@, decoded, result),
{
    lemma_settled(name@, opt_document(document), body@, decoded, verdict, result);
}

/// The answer to the question for the address is settled in order.
pub proof fn law_get_ip_settles_its_answer_in_order(
    body: String,
    text: &str,
    decoded: Result<GetIpResponse, Vec<String>>,
    verdict: Result<(), ApiError>,
    result: Result<GetIpResponse, ApiError>,
)
    requires
        text@ == body@,
        exchange_quotable(HttpReply::Body { body, decoded }),
        call_ensures(check_api_error, (text,), verdict),
        call_ensures(BoilClient::get_ip, (HttpReply::Body { body, decoded },), result),
    ensures
        settled_in_order("getIP"@, verdict, body@, decoded, result),
{
    lemma_settled("getIP"@, json_of_text(body@), body@, decoded, verdict, result);
}

/// The answer to the request for a new address is settled in order.
pub proof fn law_change_ip_settles_its_answer_in_order(
    body: String,
    text: &str,
    decoded: Result<ChangeIpResponse, Vec<String>>,
    verdict: Result<(), ApiError>,
    result: Result<ChangeIpResponse, ApiError>,
)
    requires
        text@ == body@,
        exchange_quotable(HttpReply::Body { body, decoded }),
        call_ensures(check_api_error, (text,), verdict),
        call_ensures(BoilClient::change_ip, (HttpReply::Body { body, decoded },), result),
    ensures
        settled_in_order("changeIP"@, verdict, body@, decoded, result),
{
    lemma_settled("changeIP"@, json_of_text(body@), body@, decoded, verdict, result);
}

/// An exchange that did not come about fails with the call, the step that failed and the
/// causes, whatever those are.
pub proof fn law_broken_exchange_keeps_its_causes(
    causes: Vec<String>,
    address_unsent: Result<GetIpResponse, ApiError>,
    address_unread: Result<GetIpResponse, ApiError>,
    change_unsent: Result<ChangeIpResponse, ApiError>,
    change_unread: Result<ChangeIpResponse, ApiError>,
)
    requires
        call_ensures(BoilClient::get_ip, (HttpReply::SendFailed { causes },), address_unsent),
        call_ensures(BoilClient::get_ip, (HttpReply::ReadFailed { causes },), address_unread),
        call_ensures(BoilClient::change_ip, (HttpReply::SendFailed { causes },), change_unsent),
        call_ensures(BoilClient::change_ip, (HttpReply::ReadFailed { causes },), change_unread),
    ensures
        address_unsent matches Err(e) && e.message@ == "getIP 请求失败"@ && same_causes(
            e.causes@,
            causes@,
        ),
        address_unread matches Err(e) && e.message@ == "getIP 读取响应失败"@ && same_causes(
            e.causes@,
            causes@,
        ),
        change_unsent matches Err(e) && e.message@ == "changeIP 请求失败"@ && same_causes(
            e.causes@,
            causes@,
        ),
        change_unread matches Err(e) && e.message@ == "changeIP 读取响应失败"@ && same_causes(
            e.causes@,
            causes@,
        ),
{
    reveal_strlit("getIP");
    reveal_strlit("changeIP");
    reveal_strlit(" 请求失败");
    reveal_strlit(" 读取响应失败");
    reveal_strlit("getIP 请求失败");
    reveal_strlit("getIP 读取响应失败");
    reveal_strlit("changeIP 请求失败");
    reveal_strlit("changeIP 读取响应失败");
    assert("getIP"@ + " 请求失败"@ =~= "getIP 请求失败"@);
    assert("getIP"@ + " 读取响应失败"@ =~= "getIP 读取响应失败"@);
    assert("changeIP"@ + " 请求失败"@ =~= "changeIP 请求失败"@);
    assert("changeIP"@ + " 读取响应失败"@ =~= "changeIP 读取响应失败"@);
    if let (Err(a), Err(b)) = (address_unsent, address_unread) {
        lemma_causes_agree(a, causes);
        lemma_causes_agree(b, causes);
    }
    if let (Err(a), Err(b)) = (change_unsent, change_unread) {
        lemma_causes_agree(a, causes);
        lemma_causes_agree(b, causes);
    }
}

/// The cautious calls give what the others give. They give nothing exactly where the body
/// is to be quoted and no beginning of it takes the bytes of the quotation: where that
/// would end inside a character.
pub proof fn law_cautious_calls_give_the_same(
    address: HttpReply<GetIpResponse>,
    change: HttpReply<ChangeIpResponse>,
    r: Option<Result<GetIpResponse, ApiError>>,
    s: Option<Result<ChangeIpResponse, ApiError>>,
)
    requires
        call_ensures(BoilClient::try_get_ip, (address,), r),
        call_ensures(BoilClient::try_change_ip, (change,), s),
    ensures
        forall|plain: Result<GetIpResponse, ApiError>| #[trigger]
            call_ensures(BoilClient::get_ip, (address,), plain) ==> (r matches Some(given)
                ==> agree(given, plain)),
        forall|plain: Result<ChangeIpResponse, ApiError>| #[trigger]
            call_ensures(BoilClient::change_ip, (change,), plain) ==> (s matches Some(given)
                ==> agree(given, plain)),
        r is None <==> (address matches HttpReply::Body { body, decoded } && decoded is Err
            && reported_failure(json_of_text(body@)) is None && forall|quoted: Seq<char>|
            !#[trigger] quotes(body@, quoted, 200)),
        s is None <==> (change matches HttpReply::Body { body, decoded } && decoded is Err
            && reported_failure(json_of_text(body@)) is None && forall|quoted: Seq<char>|
            !#[trigger] quotes(body@, quoted, 200)),
{
    assert forall|plain: Result<GetIpResponse, ApiError>| #[trigger]
        call_ensures(BoilClient::get_ip, (address,), plain) implies (r matches Some(given)
        ==> agree(given, plain)) by {
        if let (Some(Err(e)), Err(f)) = (r, plain) {
            lemma_views_agree(e, f);
        }
    }
    assert forall|plain: Result<ChangeIpResponse, ApiError>| #[trigger]
        call_ensures(BoilClient::change_ip, (change,), plain) implies (s matches Some(given)
        ==> agree(given, plain)) by {
        if let (Some(Err(e)), Err(f)) = (s, plain) {
            lemma_views_agree(e, f);
        }
    }
    if let HttpReply::Body { body, decoded } = address {
        lemma_quotable_iff(body@);
    }
    if let HttpReply::Body { body, decoded } = change {
        lemma_quotable_iff(body@);
    }
}

/// The token that a client is made with, and it alone, authorizes its requests; where they
/// go does not depend on it.
pub proof fn law_requests_carry_the_token(
    token: &str,
    client: BoilClient,
    get: ApiRequest,
    change: ApiRequest,
)
    requires
        call_ensures(BoilClient::new, (token,), client),
        call_ensures(BoilClient::get_ip_request, (&client,), get),
        call_ensures(BoilClient::change_ip_request, (&client,), change),
    ensures
        get.url@ == "https://ippanel.boil.network/api/v1/getIP"@,
        change.url@ == "https://ippanel.boil.network/api/v1/changeIP/"@,
        get.authorization@ == "Bearer "@ + token@,
        change.authorization@ == "Bearer "@ + token@,
{
    reveal_strlit("https://ippanel.boil.network");
    reveal_strlit("/api/v1/getIP");
    reveal_strlit("/api/v1/changeIP/");
    reveal_strlit("https://ippanel.boil.network/api/v1/getIP");
    reveal_strlit("https://ippanel.boil.network/api/v1/changeIP/");
    assert(get.url@ =~= "https://ippanel.boil.network/api/v1/getIP"@);
    assert(change.url@ =~= "https://ippanel.boil.network/api/v1/changeIP/"@);
}

proof fn lemma_views_agree(a: ApiError, b: ApiError)
    requires
        a@ == b@,
    ensures
        a.message@ == b.message@,
        same_causes(a.causes@, b.causes@),
{
    assert(texts(a.causes@).len() == texts(b.causes@).len());
    assert forall|i: int| 0 <= i < a.causes@.len() implies (#[trigger] a.causes@[i])@
        == b.causes@[i]@ by {
        assert(texts(a.causes@)[i] == a.causes@[i]@);
        assert(texts(b.causes@)[i] == b.causes@[i]@);
    }
}

proof fn lemma_causes_agree(e: ApiError, causes: Vec<String>)
    requires
        e@.causes == texts(causes@),
    ensures
        same_causes(e.causes@, causes@),
{
    lemma_views_agree(e, ApiError { message: e.message, causes });
}

proof fn lemma_settled<T>(
    name: Seq<char>,
    document: Option<DocumentView>,
    body: Seq<char>,
    decoded: Result<T, Vec<String>>,
    verdict: Result<(), ApiError>,
    result: Result<T, ApiError>,
)
    requires
        body_quotable(document, body, decoded),
        failure(verdict) == opt_uncaused(reported_failure(document)),
        failure(result) == body_failure(name, document, body, decoded),
        result matches Ok(value) ==> decoded == Ok::<T, Vec<String>>(value),
    ensures
        settled_in_order(name, verdict, body, decoded, result),
{
    match (verdict, decoded) {
        (Err(_), _) => {
            if let Err(e) = result {
                assert(e@.causes.len() == e.causes@.len());
            }
        },
        (Ok(_), Ok(_)) => {},
        (Ok(_), Err(causes)) => {
            lemma_snippet(body);
            if let Err(e) = result {
                lemma_causes_agree(e, causes);
                assert(e.message@ == name + " 响应解析失败: "@ + snippet(body));
            }
        },
    }
}

/// The quoted part of a body is its beginning.
proof fn lemma_snippet(body: Seq<char>)
    requires
        snippet_is_text(body),
    ensures
        quotes(body, snippet(body), SNIPPET_BYTES as nat),
{
    let bytes = encode_utf8(body);
    let n = snippet_len(body);
    encode_utf8_valid_utf8(body);
    encode_utf8_decode_utf8(body);
    valid_utf8_split(bytes, n);
    decode_utf8_split(bytes, n);
    decode_utf8_encode_utf8(bytes.subrange(0, n));
    let rest = decode_utf8(bytes.subrange(n, bytes.len() as int));
    assert(body == snippet(body) + rest);
}

/// A body can be quoted exactly where some beginning of it takes the bytes of the quotation.
proof fn lemma_quotable_iff(body: Seq<char>)
    ensures
        snippet_is_text(body) <==> exists|quoted: Seq<char>| #[trigger]
            quotes(body, quoted, SNIPPET_BYTES as nat),
{
    if snippet_is_text(body) {
        lemma_snippet(body);
    }
    if exists|quoted: Seq<char>| #[trigger] quotes(body, quoted, SNIPPET_BYTES as nat) {
        let quoted: Seq<char> = choose|quoted: Seq<char>| #[trigger]
            quotes(body, quoted, SNIPPET_BYTES as nat);
        let rest: Seq<char> = choose|rest: Seq<char>| body == #[trigger] (quoted + rest);
        lemma_boundary_behind(quoted, rest);
    }
}

/// The end of the first of two texts is a boundary between characters.
proof fn lemma_boundary_behind(a: Seq<char>, b: Seq<char>)
    ensures
        is_char_boundary(encode_utf8(a + b), encode_utf8(a).len() as int),
        encode_utf8(a).len() <= encode_utf8(a + b).len(),
    decreases a.len(),
{
    let bytes = encode_utf8(a + b);
    encode_utf8_valid_utf8(a + b);
    if a.len() == 0 {
        is_char_boundary_start_end_of_seq(bytes);
    } else {
        lemma_boundary_behind(a.drop_first(), b);
        assert((a + b).drop_first() =~= a.drop_first() + b);
        assert((a + b)[0] == a[0]);
        encode_utf8_first_scalar(a + b);
        assert(pop_first_scalar(bytes) =~= encode_utf8(a.drop_first() + b));
        assert(encode_utf8(a).len() == encode_scalar(a[0] as u32).len() + encode_utf8(
            a.drop_first(),
        ).len());
    }
}

proof fn lemma_keys_differ()
    ensures
        "ok"@ != "success"@,
        "ok"@ != "error"@,
        "ok"@ != "message"@,
        "success"@ != "error"@,
        "success"@ != "message"@,
{
    reveal_strlit("ok");
    reveal_strlit("success");
    reveal_strlit("error");
    reveal_strlit("message");
    assert("success"@[0] != "message"@[0]);
    assert("ok"@.len() == 2);
    assert("error"@.len() == 5);
    assert("message"@.len() == 7);
    assert("success"@.len() == 7);
}

} // verus!
