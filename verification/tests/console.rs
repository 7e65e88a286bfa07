use boil::boil::{ApiError, GetIpResponse};
use boil::cli::{
    cmd_change, cmd_check, cmd_status, CmdChangeAction, CmdChangeEvent, CmdChangeState,
    CmdCheckAction, CmdCheckEvent, CmdCheckState,
};
use boil::quality::IpQuality;
use boil::reconnect::ReconnectResult;
use boil::report::ServiceStatus;

fn error(message: &str) -> ApiError {
    ApiError::new(message.to_string())
}

fn quality() -> IpQuality {
    IpQuality {
        country: "日本".to_string(),
        isp: "NTT".to_string(),
        is_proxy: true,
        is_hosting: false,
    }
}

/// Runs an examination; returns all that it prints, and how it ends.
fn examine(
    reply: Result<&str, &str>,
    reachable: bool,
    rating: Option<IpQuality>,
    local: Option<&str>,
) -> (String, Result<(), ApiError>) {
    let mut printed = String::new();
    let mut rating = Some(rating);
    let mut state = CmdCheckState::Asking;
    loop {
        let event = match state.action() {
            CmdCheckAction::GetIp => CmdCheckEvent::Address {
                reply: match reply {
                    Ok(ip) => Ok(ip.to_string()),
                    Err(m) => Err(error(m)),
                },
            },
            CmdCheckAction::Probe { ip } => {
                assert_eq!(Ok(ip.as_str()), reply);
                CmdCheckEvent::Probed { reachable, quality: rating.take().unwrap() }
            }
            CmdCheckAction::Print { text } => {
                printed.push_str(&text);
                printed.push('\n');
                CmdCheckEvent::Printed
            }
            CmdCheckAction::Locate => {
                CmdCheckEvent::Located { local_ip: local.map(|s| s.to_string()) }
            }
            CmdCheckAction::CheckStreaming => CmdCheckEvent::Streamed {
                services: vec![
                    ServiceStatus { service: "Netflix".to_string(), status: "A".to_string() },
                    ServiceStatus { service: "X".to_string(), status: "B".to_string() },
                ],
            },
            CmdCheckAction::Finish => match state {
                CmdCheckState::Finished { result } => return (printed, result),
                _ => panic!("not finished"),
            },
        };
        state = cmd_check(state, event);
    }
}

#[test]
fn status_prints_the_address() {
    let text = cmd_status(Ok(GetIpResponse { ip: "1.2.3.4".to_string() })).unwrap();
    assert_eq!(text, "📡 当前 IP: 1.2.3.4");
    assert_eq!(cmd_status(Err(error("坏"))).unwrap_err().message, "坏");
}

#[test]
fn examination_on_the_machine_itself_prints_the_services() {
    let (printed, result) = examine(Ok("1.2.3.4"), true, Some(quality()), Some("1.2.3.4"));
    assert!(result.is_ok());
    assert_eq!(
        printed,
        "📍 IP: 1.2.3.4  TCP 可达 ✅\n   地区: 日本 | ISP: NTT\n   类型: 代理 ❌ | CF 风险: 高 ⚠️\n\n📺 流媒体检测中...\n   Netflix          A\n   X                B\n\n"
    );
}

#[test]
fn examination_elsewhere_prints_why_the_services_are_skipped() {
    let (printed, result) = examine(Ok("1.2.3.4"), false, None, None);
    assert!(result.is_ok());
    assert_eq!(
        printed,
        "📍 IP: 1.2.3.4  TCP 未通 ⚠️\n\n📺 流媒体检测跳过（当前运行于非 Boil VPS 机器，结果无意义）\n   如需检测，请在 Boil VPS 上直接运行 boil check\n\n"
    );
}

#[test]
fn examination_without_address_prints_nothing() {
    let (printed, result) = examine(Err("坏"), false, None, None);
    assert_eq!(printed, "");
    assert_eq!(result.unwrap_err().message, "坏");
}

/// Changes the address; returns what is printed, how it ends, and whether it was changed.
fn change(
    connected: Result<(), ApiError>,
    result: Result<ReconnectResult, ApiError>,
) -> (Vec<String>, Result<(), ApiError>, bool) {
    let mut lines = Vec::new();
    let mut changed = false;
    let mut connected = Some(connected);
    let mut result = Some(result);
    let mut state = CmdChangeState::Connecting;
    loop {
        let event = match state.action() {
            CmdChangeAction::Connect => {
                CmdChangeEvent::Connected { outcome: connected.take().unwrap() }
            }
            CmdChangeAction::Print { text } => {
                lines.push(text);
                CmdChangeEvent::Printed
            }
            CmdChangeAction::Reconnect => {
                changed = true;
                CmdChangeEvent::Reconnected { result: result.take().unwrap() }
            }
            CmdChangeAction::Finish => match state {
                CmdChangeState::Finished { result } => return (lines, result, changed),
                _ => panic!("not finished"),
            },
        };
        state = cmd_change(state, event);
    }
}

/// What is printed of a change, after its announcement.
fn printed(res: ReconnectResult) -> String {
    let (mut lines, result, changed) = change(Ok(()), Ok(res));
    assert!(result.is_ok());
    assert!(changed);
    assert_eq!(lines.len(), 2);
    assert_eq!(lines[0], "⏳ 换 IP 中...");
    lines.remove(1)
}

#[test]
fn failures_of_a_change_are_the_commands_own() {
    let (lines, result, changed) = change(Err(error("client")), Err(error("never")));
    assert!(lines.is_empty());
    assert!(!changed);
    assert_eq!(result.unwrap_err().message, "client");
    let (lines, result, changed) = change(Ok(()), Err(error("坏")));
    assert_eq!(lines, ["⏳ 换 IP 中..."]);
    assert!(changed);
    assert_eq!(result.unwrap_err().message, "坏");
}

#[test]
fn change_is_printed_with_its_result() {
    let text = printed(ReconnectResult {
        old_ip: Some("1.1.1.1".to_string()),
        new_ip: Some("2.2.2.2".to_string()),
        reachable: true,
        quality: Some(quality()),
    });
    assert_eq!(
        text,
        "\n✅ 换 IP 完成\n   旧 IP: 1.1.1.1\n   新 IP: 2.2.2.2  TCP 可达 ✅\n\n📊 IP 质量\n   地区: 日本\n   ISP:  NTT\n   类型: 代理 ❌\n   CF 风险: 高 ⚠️"
    );
    let text = printed(ReconnectResult {
        old_ip: None,
        new_ip: Some("2.2.2.2".to_string()),
        reachable: false,
        quality: None,
    });
    assert_eq!(text, "\n✅ 换 IP 完成\n   旧 IP: 未知\n   新 IP: 2.2.2.2  TCP 未通 ⚠️\n");
    let text = printed(ReconnectResult {
        old_ip: Some("1.1.1.1".to_string()),
        new_ip: None,
        reachable: false,
        quality: None,
    });
    assert_eq!(
        text,
        "⚠️  重拨已触发，但未检测到 IP 变化\n   旧 IP: 1.1.1.1\n   请到面板手动确认"
    );
}
