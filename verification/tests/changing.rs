use boil::boil::ApiError;
use boil::quality::IpQuality;
use boil::reconnect::{
    do_reconnect, ReconnectAction, ReconnectEvent, ReconnectResult, ReconnectState,
};

fn ok(ip: &str) -> Result<String, ApiError> {
    Ok(ip.to_string())
}

fn err(message: &str) -> Result<String, ApiError> {
    Err(ApiError::new(message.to_string()))
}

/// Runs a change of address against scripted answers; returns its result, the number of
/// polls and the seconds slept.
fn change(
    first: Result<String, ApiError>,
    accepted: Result<(), ApiError>,
    polls: Vec<Result<String, ApiError>>,
) -> (Result<ReconnectResult, ApiError>, usize, u64) {
    let mut answers = vec![first];
    answers.extend(polls);
    let mut answers = answers.into_iter();
    let mut accepted = Some(accepted);
    let mut asked: usize = 0;
    let mut slept: u64 = 0;
    let mut state = ReconnectState::Started;
    loop {
        let event = match state.action() {
            ReconnectAction::GetIp => {
                asked += 1;
                ReconnectEvent::Address { reply: answers.next().unwrap() }
            }
            ReconnectAction::ChangeIp => {
                ReconnectEvent::Changed { outcome: accepted.take().unwrap() }
            }
            ReconnectAction::Sleep { secs } => {
                slept += secs;
                ReconnectEvent::Slept
            }
            ReconnectAction::Probe { ip } => {
                let quality = IpQuality {
                    country: format!("country of {ip}"),
                    isp: "isp".to_string(),
                    is_proxy: false,
                    is_hosting: false,
                };
                ReconnectEvent::Probed { reachable: true, quality: Some(quality) }
            }
            ReconnectAction::Finish => match state {
                ReconnectState::Finished { result } => return (result, asked - 1, slept),
                _ => panic!("not finished"),
            },
        };
        state = do_reconnect(state, event);
    }
}

#[test]
fn new_address_is_reported_at_once() {
    let (result, polls, slept) = change(ok("1.1.1.1"), Ok(()), vec![ok("2.2.2.2")]);
    let result = result.unwrap();
    assert_eq!(result.old_ip.as_deref(), Some("1.1.1.1"));
    assert_eq!(result.new_ip.as_deref(), Some("2.2.2.2"));
    assert!(result.reachable);
    assert_eq!(result.quality.unwrap().country, "country of 2.2.2.2");
    assert_eq!(polls, 1);
    assert_eq!(slept, 14);
}

#[test]
fn unchanged_and_limited_polls_are_passed_over() {
    let (result, polls, slept) = change(
        ok("1.1.1.1"),
        Ok(()),
        vec![ok("1.1.1.1"), err("频率限制"), err("請求過於頻密"), ok("3.3.3.3")],
    );
    assert_eq!(result.unwrap().new_ip.as_deref(), Some("3.3.3.3"));
    assert_eq!(polls, 4);
    assert_eq!(slept, 32);
}

#[test]
fn polling_ends_after_ten_rounds() {
    let polls = (0..10).map(|i| if i % 2 == 0 { ok("1.1.1.1") } else { err("頻率限制") });
    let (result, polls, slept) = change(ok("1.1.1.1"), Ok(()), polls.collect());
    let result = result.unwrap();
    assert_eq!(result.old_ip.as_deref(), Some("1.1.1.1"));
    assert!(result.new_ip.is_none());
    assert!(!result.reachable);
    assert!(result.quality.is_none());
    assert_eq!(polls, 10);
    assert_eq!(slept, 68);
}

#[test]
fn tenth_poll_still_counts() {
    let mut polls: Vec<Result<String, ApiError>> = (0..9).map(|_| ok("1.1.1.1")).collect();
    polls.push(ok("2.2.2.2"));
    let (result, polls, slept) = change(ok("1.1.1.1"), Ok(()), polls);
    assert_eq!(result.unwrap().new_ip.as_deref(), Some("2.2.2.2"));
    assert_eq!(polls, 10);
    assert_eq!(slept, 68);
}

#[test]
fn other_failure_ends_the_polling() {
    let (result, polls, _) = change(ok("1.1.1.1"), Ok(()), vec![ok("1.1.1.1"), err("token 失效")]);
    assert_eq!(result.unwrap_err().message, "token 失效");
    assert_eq!(polls, 2);
}

#[test]
fn refused_change_is_not_polled() {
    let refusal = ApiError::new("頻率限制".to_string());
    let (result, polls, slept) = change(ok("1.1.1.1"), Err(refusal), vec![]);
    assert_eq!(result.unwrap_err().message, "頻率限制");
    assert_eq!(polls, 0);
    assert_eq!(slept, 0);
}

#[test]
fn any_address_is_new_where_the_old_one_is_unknown() {
    let (result, polls, _) = change(err("getIP 请求失败"), Ok(()), vec![ok("1.1.1.1")]);
    let result = result.unwrap();
    assert!(result.old_ip.is_none());
    assert_eq!(result.new_ip.as_deref(), Some("1.1.1.1"));
    assert_eq!(polls, 1);
}

#[test]
fn events_out_of_turn_change_nothing() {
    let state = do_reconnect(ReconnectState::Started, ReconnectEvent::Slept);
    assert!(matches!(state, ReconnectState::Started));
    let state = do_reconnect(state, ReconnectEvent::Changed { outcome: Ok(()) });
    assert!(matches!(state, ReconnectState::Started));
    let done = ReconnectState::Finished { result: Err(ApiError::new("x".to_string())) };
    let done = do_reconnect(done, ReconnectEvent::Address { reply: ok("9.9.9.9") });
    assert!(matches!(done, ReconnectState::Finished { result: Err(_) }));
}
