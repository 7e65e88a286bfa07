use boil::probe::{
    check_reachable, get_local_public_ip, Locate, Reach, CONNECT_TIMEOUT_SECS,
    LOCATE_TIMEOUT_SECS,
};

/// The targets that are tried against scripted outcomes, and the verdict.
fn reach(outcomes: [bool; 3]) -> (Vec<String>, bool) {
    let mut tried = Vec::new();
    let mut state = Reach::new("203.0.113.10");
    while let Some(target) = state.target() {
        let connected = outcomes[tried.len()];
        tried.push(target);
        state = check_reachable(state, connected);
    }
    (tried, state.reachable)
}

/// The services that are asked with scripted answers, and what was found.
fn locate(answers: [Option<&str>; 3]) -> (Vec<&'static str>, Option<String>) {
    let mut asked = Vec::new();
    let mut state = Locate::new();
    while let Some(url) = state.source() {
        let answer = answers[asked.len()];
        asked.push(url);
        state = get_local_public_ip(state, answer);
    }
    (asked, state.found)
}

#[test]
fn ports_are_tried_in_order_until_one_accepts() {
    assert_eq!(reach([true, true, true]), (vec!["203.0.113.10:80".to_string()], true));
    let (tried, reachable) = reach([false, true, false]);
    assert_eq!(tried, ["203.0.113.10:80", "203.0.113.10:443"]);
    assert!(reachable);
    let (tried, reachable) = reach([false, false, true]);
    assert_eq!(tried, ["203.0.113.10:80", "203.0.113.10:443", "203.0.113.10:22"]);
    assert!(reachable);
    let (tried, reachable) = reach([false, false, false]);
    assert_eq!(tried.len(), 3);
    assert!(!reachable);
    assert_eq!(CONNECT_TIMEOUT_SECS, 3);
}

#[test]
fn attempts_after_the_verdict_change_nothing() {
    let state = check_reachable(Reach::new("a"), true);
    let state = check_reachable(state, false);
    assert!(state.reachable);
    assert_eq!(state.tried, 1);
}

#[test]
fn first_service_that_names_an_address_is_believed() {
    let (asked, found) = locate([Some(" 203.0.113.10\n"), Some("9.9.9.9"), None]);
    assert_eq!(asked, ["https://api.ipify.org"]);
    assert_eq!(found.as_deref(), Some("203.0.113.10"));
    let (asked, found) = locate([None, Some(" \r\n\t"), Some("\u{3000}198.51.100.7\u{a0}")]);
    assert_eq!(asked, ["https://api.ipify.org", "https://ifconfig.me/ip", "https://icanhazip.com"]);
    assert_eq!(found.as_deref(), Some("198.51.100.7"));
    let (asked, found) = locate([None, Some(""), None]);
    assert_eq!(asked.len(), 3);
    assert!(found.is_none());
    assert_eq!(LOCATE_TIMEOUT_SECS, 5);
}

#[test]
fn answers_after_the_address_change_nothing() {
    let state = get_local_public_ip(Locate::new(), Some("1.1.1.1"));
    let state = get_local_public_ip(state, Some("2.2.2.2"));
    assert_eq!(state.found.as_deref(), Some("1.1.1.1"));
    assert_eq!(state.asked, 1);
}
