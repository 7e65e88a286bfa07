//! How an address is rated: by whether it is known as a proxy or a hosting address.
use vstd::prelude::*;
use vstd::string::*;

use crate::json::{
    bool_at, holds, holds_some_text, json_of_bytes, lemma_members_hold, member_bool, member_text,
    members_in, opt_document, parse_bytes, text_at, DocumentView, JsonDocument, JsonValue,
    JsonView, Members,
};

verus! {

/// Seconds after which a request for a rating is given up.
pub const QUALITY_TIMEOUT_SECS: u64 = 8;

/// What is known of an address.
#[derive(Debug)]
pub struct IpQuality {
    pub country: String,
    pub isp: String,
    pub is_proxy: bool,
    pub is_hosting: bool,
}

/// What is known of an address, its texts as sequences of characters.
pub struct QualityView {
    pub country: Seq<char>,
    pub isp: Seq<char>,
    pub is_proxy: bool,
    pub is_hosting: bool,
}

impl View for IpQuality {
    type V = QualityView;

    open spec fn view(&self) -> QualityView {
        QualityView {
            country: self.country@,
            isp: self.isp@,
            is_proxy: self.is_proxy,
            is_hosting: self.is_hosting,
        }
    }
}

impl QualityView {
    /// The label of the risk that the address is challenged.
    pub open spec fn cf_risk(self) -> Seq<char> {
        if self.is_proxy || self.is_hosting {
            "高 ⚠️"@
        } else {
            "低 ✅"@
        }
    }

    /// The label of the kind of the address; a proxy is one before all else.
    pub open spec fn ip_type(self) -> Seq<char> {
        if self.is_proxy {
            "代理 ❌"@
        } else if self.is_hosting {
            "机房 ⚠️"@
        } else {
            "住宅 ✅"@
        }
    }
}

impl IpQuality {
    /// The label of the risk that the address is challenged.
    pub fn cf_risk(&self) -> (label: &'static str)
        ensures
            label@ == self@.cf_risk(),
    {
        if self.is_proxy || self.is_hosting {
            "高 ⚠️"
        } else {
            "低 ✅"
        }
    }

    /// The label of the kind of the address.
    pub fn ip_type(&self) -> (label: &'static str)
        ensures
            label@ == self@.ip_type(),
    {
        if self.is_proxy {
            "代理 ❌"
        } else if self.is_hosting {
            "机房 ⚠️"
        } else {
            "住宅 ✅"
        }
    }
}

/// The view of an optional rating.
pub open spec fn opt_quality(quality: Option<IpQuality>) -> Option<QualityView> {
    match quality {
        Some(q) => Some(q@),
        None => None,
    }
}

/// A text, or the word for an unknown one.
pub open spec fn or_unknown(text: Option<Seq<char>>) -> Seq<char> {
    match text {
        Some(t) => t,
        None => "未知"@,
    }
}

/// The rating that an answer reports, given its JSON document: none unless that is an
/// object whose status is `success`; what it leaves out is unknown or false.
pub open spec fn reported_quality(document: Option<DocumentView>) -> Option<QualityView> {
    match document {
        Some(DocumentView::Object(members)) => if text_at(members, "status"@) == Some("success"@) {
            Some(
                QualityView {
                    country: or_unknown(text_at(members, "country"@)),
                    isp: or_unknown(text_at(members, "isp"@)),
                    is_proxy: bool_at(members, "proxy"@) == Some(true),
                    is_hosting: bool_at(members, "hosting"@) == Some(true),
                },
            )
        } else {
            None
        },
        _ => None,
    }
}

/// Where the rating of the address `ip` is asked for.
pub fn quality_url(ip: &str) -> (url: String)
    ensures
        url@ == "http://ip-api.com/json/"@ + ip@ + "?fields=status,country,isp,proxy,hosting"@,
{
    "http://ip-api.com/json/".to_string().concat(ip).concat(
        "?fields=status,country,isp,proxy,hosting",
    )
}

fn text_or_unknown(members: &Vec<(String, JsonValue)>, key: &str) -> (text: String)
    ensures
        text@ == or_unknown(text_at(members_in(members@), key@)),
{
    match member_text(members, key) {
        Some(text) => text,
        None => "未知".to_string(),
    }
}

/// The rating that a JSON document reports.
pub fn quality_of_document(document: &Option<JsonDocument>) -> (quality: Option<IpQuality>)
    ensures
        opt_quality(quality) == reported_quality(opt_document(*document)),
{
    let members = match document {
        Some(JsonDocument::Object(members)) => members,
        _ => { return None; },
    };
    let success = match member_text(members, "status") {
        Some(status) => crate::text::same_text(status.as_str(), "success"),
        None => false,
    };
    if !success {
        return None;
    }
    Some(
        IpQuality {
            country: text_or_unknown(members, "country"),
            isp: text_or_unknown(members, "isp"),
            is_proxy: member_bool(members, "proxy").unwrap_or(false),
            is_hosting: member_bool(members, "hosting").unwrap_or(false),
        },
    )
}

/// The rating in the body of an answer.
pub fn check_ip_quality(body: &[u8]) -> (quality: Option<IpQuality>)
    ensures
        opt_quality(quality) == reported_quality(json_of_bytes(body@)),
{
    let document = parse_bytes(body);
    quality_of_document(&document)
}

/// The two labels of an address agree: the risk is low exactly where the kind is
/// residential.
pub proof fn law_low_risk_iff_residential(quality: QualityView)
    ensures
        quality.cf_risk() == "低 ✅"@ <==> quality.ip_type() == "住宅 ✅"@,
{
    reveal_strlit("高 ⚠️");
    reveal_strlit("低 ✅");
    reveal_strlit("代理 ❌");
    reveal_strlit("机房 ⚠️");
    reveal_strlit("住宅 ✅");
    assert("高 ⚠️"@[0] != "低 ✅"@[0]);
    assert("代理 ❌"@[0] != "住宅 ✅"@[0]);
    assert("机房 ⚠️"@[0] != "住宅 ✅"@[0]);
}

/// The labels tell the marks: a proxy is one before all else, then a hosting address, and
/// what is neither is residential; either mark makes the risk high.
pub proof fn law_labels_tell_the_marks(quality: IpQuality, kind: &'static str, risk: &'static str)
    requires
        call_ensures(IpQuality::ip_type, (&quality,), kind),
        call_ensures(IpQuality::cf_risk, (&quality,), risk),
    ensures
        quality.is_proxy ==> kind@ == "代理 ❌"@ && risk@ == "高 ⚠️"@,
        !quality.is_proxy && quality.is_hosting ==> kind@ == "机房 ⚠️"@ && risk@ == "高 ⚠️"@,
        !quality.is_proxy && !quality.is_hosting ==> kind@ == "住宅 ✅"@ && risk@ == "低 ✅"@,
{
}

/// The question for a rating names the address and is the same otherwise.
pub proof fn law_question_for_a_rating_names_the_address(ip: &str, url: String)
    requires
        call_ensures(quality_url, (ip,), url),
    ensures
        url@ == "http://ip-api.com/json/"@ + ip@ + "?fields=status,country,isp,proxy,hosting"@,
{
}

/// A request for a rating is given up after eight seconds.
pub proof fn law_rating_is_given_up_in_time()
    ensures
        QUALITY_TIMEOUT_SECS == 8,
{
}

/// An object is rated exactly where its status is the text `success`. Each part of the
/// rating comes from its own entry, whatever the others hold: the texts, or a word where
/// there is none, and the marks, which are set only where the entry is true.
pub proof fn law_each_part_of_a_rating_has_its_own_entry(
    entries: Vec<(String, JsonValue)>,
    quality: Option<IpQuality>,
)
    requires
        call_ensures(quality_of_document, (&Some(JsonDocument::Object(entries)),), quality),
    ensures
        quality is Some <==> exists|status: String| #[trigger]
            holds(entries@, "status"@, JsonValue::Text(status)) && status@ == "success"@,
        quality matches Some(q) ==> {
            &&& forall|t: String| #[trigger]
                holds(entries@, "country"@, JsonValue::Text(t)) ==> q.country@ == t@
            &&& !holds_some_text(entries@, "country"@) ==> q.country@ == "未知"@
            &&& forall|t: String| #[trigger]
                holds(entries@, "isp"@, JsonValue::Text(t)) ==> q.isp@ == t@
            &&& !holds_some_text(entries@, "isp"@) ==> q.isp@ == "未知"@
            &&& q.is_proxy <==> holds(entries@, "proxy"@, JsonValue::Bool(true))
            &&& q.is_hosting <==> holds(entries@, "hosting"@, JsonValue::Bool(true))
        },
{
    lemma_members_hold(entries@, "status"@);
    lemma_members_hold(entries@, "country"@);
    lemma_members_hold(entries@, "isp"@);
    lemma_members_hold(entries@, "proxy"@);
    lemma_members_hold(entries@, "hosting"@);
}

/// What is no object is not rated.
pub proof fn law_what_is_no_object_is_not_rated(
    document: Option<JsonDocument>,
    quality: Option<IpQuality>,
)
    requires
        !(document matches Some(JsonDocument::Object(_))),
        call_ensures(quality_of_document, (&document,), quality),
    ensures
        quality is None,
{
}

/// A body is rated as the document in it is.
pub proof fn law_body_is_rated_by_its_document(
    body: &[u8],
    document: Option<JsonDocument>,
    of_body: Option<IpQuality>,
    of_document: Option<IpQuality>,
)
    requires
        json_of_bytes(body@) == opt_document(document),
        call_ensures(check_ip_quality, (body,), of_body),
        call_ensures(quality_of_document, (&document,), of_document),
    ensures
        of_body is Some <==> of_document is Some,
        of_body matches Some(a) ==> (of_document matches Some(b) && a.country@ == b.country@
            && a.isp@ == b.isp@ && a.is_proxy == b.is_proxy && a.is_hosting == b.is_hosting),
{
}

/// A truth value under `hosting` is the mark of a hosting address, and one under `proxy`
/// that of a proxy, in every object whose status is `success`; neither changes another
/// part of the rating.
pub proof fn law_marks_follow_their_members(members: Members, b: bool)
    requires
        members.dom().contains("status"@),
        members["status"@] == JsonView::Text("success"@),
    ensures
        ({
            let plain = reported_quality(Some(DocumentView::Object(members)));
            let hosting = reported_quality(
                Some(DocumentView::Object(members.insert("hosting"@, JsonView::Bool(b)))),
            );
            let proxy = reported_quality(
                Some(DocumentView::Object(members.insert("proxy"@, JsonView::Bool(b)))),
            );
            &&& plain matches Some(q) && hosting == Some(QualityView { is_hosting: b, ..q })
                && proxy == Some(QualityView { is_proxy: b, ..q })
        }),
{
    lemma_rating_keys_differ();
}

/// A text under `country` or `isp` is that part of the rating, in every object whose status
/// is `success`, and changes no other part of it.
pub proof fn law_names_follow_their_members(members: Members, t: Seq<char>)
    requires
        members.dom().contains("status"@),
        members["status"@] == JsonView::Text("success"@),
    ensures
        ({
            let plain = reported_quality(Some(DocumentView::Object(members)));
            let country = reported_quality(
                Some(DocumentView::Object(members.insert("country"@, JsonView::Text(t)))),
            );
            let isp = reported_quality(
                Some(DocumentView::Object(members.insert("isp"@, JsonView::Text(t)))),
            );
            &&& plain matches Some(q) && country == Some(QualityView { country: t, ..q }) && isp
                == Some(QualityView { isp: t, ..q })
        }),
{
    lemma_rating_keys_differ();
}

/// An object without a truth value under `proxy` or `hosting` is not marked so, and a name
/// that it does not give is unknown.
pub proof fn law_what_is_left_out_is_unknown_or_false(members: Members)
    requires
        members.dom().contains("status"@),
        members["status"@] == JsonView::Text("success"@),
    ensures
        reported_quality(Some(DocumentView::Object(members.remove("proxy"@)))) matches Some(q)
            && !q.is_proxy,
        reported_quality(Some(DocumentView::Object(members.remove("hosting"@)))) matches Some(q)
            && !q.is_hosting,
        reported_quality(Some(DocumentView::Object(members.remove("country"@)))) matches Some(q)
            && q.country == "未知"@,
        reported_quality(Some(DocumentView::Object(members.remove("isp"@)))) matches Some(q)
            && q.isp == "未知"@,
{
    lemma_rating_keys_differ();
}

proof fn lemma_rating_keys_differ()
    ensures
        "status"@ != "country"@,
        "status"@ != "isp"@,
        "status"@ != "proxy"@,
        "status"@ != "hosting"@,
        "country"@ != "isp"@,
        "country"@ != "proxy"@,
        "country"@ != "hosting"@,
        "isp"@ != "proxy"@,
        "isp"@ != "hosting"@,
        "proxy"@ != "hosting"@,
{
    reveal_strlit("status");
    reveal_strlit("country");
    reveal_strlit("isp");
    reveal_strlit("proxy");
    reveal_strlit("hosting");
    assert("status"@[0] == 's' && "country"@[0] == 'c' && "isp"@[0] == 'i');
    assert("proxy"@[0] == 'p' && "hosting"@[0] == 'h');
}

} // verus!
