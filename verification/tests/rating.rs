use boil::json::{JsonDocument, JsonValue};
use boil::quality::{check_ip_quality, quality_of_document, quality_url, IpQuality};

fn quality(is_proxy: bool, is_hosting: bool) -> IpQuality {
    IpQuality { country: "c".to_string(), isp: "i".to_string(), is_proxy, is_hosting }
}

#[test]
fn labels_follow_the_marks() {
    assert_eq!(quality(false, false).cf_risk(), "低 ✅");
    assert_eq!(quality(true, false).cf_risk(), "高 ⚠️");
    assert_eq!(quality(false, true).cf_risk(), "高 ⚠️");
    assert_eq!(quality(true, true).cf_risk(), "高 ⚠️");
    assert_eq!(quality(false, false).ip_type(), "住宅 ✅");
    assert_eq!(quality(false, true).ip_type(), "机房 ⚠️");
    assert_eq!(quality(true, false).ip_type(), "代理 ❌");
    assert_eq!(quality(true, true).ip_type(), "代理 ❌");
}

#[test]
fn low_risk_is_residential() {
    for is_proxy in [false, true] {
        for is_hosting in [false, true] {
            let q = quality(is_proxy, is_hosting);
            assert_eq!(q.cf_risk() == "低 ✅", q.ip_type() == "住宅 ✅");
        }
    }
}

#[test]
fn rating_is_asked_for_by_address() {
    assert_eq!(
        quality_url("203.0.113.10"),
        "http://ip-api.com/json/203.0.113.10?fields=status,country,isp,proxy,hosting"
    );
}

#[test]
fn full_answer_is_read() {
    let q = check_ip_quality(
        r#"{"status":"success","country":"日本","isp":"NTT","proxy":true,"hosting":false}"#
            .as_bytes(),
    )
    .unwrap();
    assert_eq!(q.country, "日本");
    assert_eq!(q.isp, "NTT");
    assert!(q.is_proxy);
    assert!(!q.is_hosting);
}

#[test]
fn what_is_left_out_is_unknown_or_false() {
    let q = check_ip_quality(br#"{"status":"success","country":3,"hosting":"yes"}"#).unwrap();
    assert_eq!(q.country, "未知");
    assert_eq!(q.isp, "未知");
    assert!(!q.is_proxy);
    assert!(!q.is_hosting);
    let q = check_ip_quality(br#"{"status":"success","hosting":true}"#).unwrap();
    assert!(q.is_hosting);
}

#[test]
fn other_answers_give_no_rating() {
    assert!(check_ip_quality(br#"{"status":"fail"}"#).is_none());
    assert!(check_ip_quality(br#"{"status":"Success"}"#).is_none());
    assert!(check_ip_quality(br#"{"country":"x"}"#).is_none());
    assert!(check_ip_quality(br#"{"status":true}"#).is_none());
    assert!(check_ip_quality(b"[]").is_none());
    assert!(check_ip_quality(b"").is_none());
    assert!(check_ip_quality(b"{").is_none());
    assert!(check_ip_quality(&[0x22, 0xff, 0x22]).is_none());
}

#[test]
fn document_is_rated_by_its_members() {
    let document = JsonDocument::Object(vec![
        ("isp".to_string(), JsonValue::Text("A".to_string())),
        ("status".to_string(), JsonValue::Text("success".to_string())),
        ("proxy".to_string(), JsonValue::Bool(true)),
    ]);
    let q = quality_of_document(&Some(document)).unwrap();
    assert_eq!(q.isp, "A");
    assert_eq!(q.country, "未知");
    assert!(q.is_proxy);
    assert!(quality_of_document(&None).is_none());
    assert!(quality_of_document(&Some(JsonDocument::Array)).is_none());
    assert!(quality_of_document(&Some(JsonDocument::Text)).is_none());
}
