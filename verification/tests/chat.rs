use boil::boil::{ApiError, GetIpResponse};
use boil::bot::{
    handle_command, run, tg_change, tg_check, tg_status, ChangeAction, ChangeEvent, ChangeState,
    CheckAction, CheckEvent, CheckState, Command, CommandAction, RunAction, RunEvent, RunState,
};
use boil::config::Config;
use boil::quality::IpQuality;
use boil::reconnect::ReconnectResult;
use boil::report::ServiceStatus;

fn config(token: Option<&str>, chat: Option<&str>, cron: Option<&str>) -> Config {
    Config {
        boil_api_token: "t".to_string(),
        tg_token: token.map(|s| s.to_string()),
        tg_chat_id: chat.map(|s| s.to_string()),
        change_cron: cron.map(|s| s.to_string()),
    }
}

fn error(message: &str) -> ApiError {
    ApiError::new(message.to_string())
}

fn quality() -> IpQuality {
    IpQuality {
        country: "日本".to_string(),
        isp: "NTT".to_string(),
        is_proxy: false,
        is_hosting: true,
    }
}

/// Runs an examination; returns what it says, the last with its marking.
fn examine(
    reply: Result<&str, &str>,
    rating: Option<IpQuality>,
    local: Option<&str>,
) -> (Vec<(String, bool)>, bool) {
    let mut said = Vec::new();
    let mut streamed = false;
    let mut rating = Some(rating);
    let mut state = CheckState::Asking;
    loop {
        let event = match state.action() {
            CheckAction::GetIp => CheckEvent::Address {
                reply: match reply {
                    Ok(ip) => Ok(ip.to_string()),
                    Err(m) => Err(error(m)),
                },
            },
            CheckAction::Say { reply } => {
                said.push((reply.text, reply.html));
                CheckEvent::Said
            }
            CheckAction::Rate { ip } => {
                assert_eq!(Ok(ip.as_str()), reply);
                CheckEvent::Rated { quality: rating.take().unwrap() }
            }
            CheckAction::Locate => {
                CheckEvent::Located { local_ip: local.map(|s| s.to_string()) }
            }
            CheckAction::CheckStreaming => {
                streamed = true;
                CheckEvent::Streamed {
                    services: vec![
                        ServiceStatus { service: "Netflix".to_string(), status: "A".to_string() },
                        ServiceStatus { service: "X".to_string(), status: "B".to_string() },
                    ],
                }
            }
            CheckAction::Answer { reply } => {
                said.push((reply.text, reply.html));
                return (said, streamed);
            }
        };
        state = tg_check(state, event);
    }
}

/// What goes wrong at the start.
#[derive(Clone, Copy, PartialEq)]
enum Trouble {
    Nothing,
    Register,
    Prepare,
    Schedule,
}

/// Runs the bot; returns what it does, and how it ends.
fn start(config: &Config, trouble: Trouble) -> (Vec<String>, Result<(), ApiError>) {
    let outcome = |at: Trouble| if trouble == at { Err(error("坏")) } else { Ok(()) };
    let mut done = Vec::new();
    let mut state = RunState::open(config);
    loop {
        let event = match state.action() {
            RunAction::Register { token } => {
                done.push(format!("register {token}"));
                RunEvent::Registered { result: outcome(Trouble::Register) }
            }
            RunAction::Prepare => {
                done.push("prepare".to_string());
                RunEvent::Prepared { result: outcome(Trouble::Prepare) }
            }
            RunAction::Schedule { cron } => {
                done.push(format!("schedule {cron}"));
                RunEvent::Scheduled { result: outcome(Trouble::Schedule) }
            }
            RunAction::Dispatch => {
                done.push("dispatch".to_string());
                RunEvent::Dispatched
            }
            RunAction::Finish => match state {
                RunState::Finished { result } => return (done, result),
                _ => panic!("not finished"),
            },
        };
        state = run(state, event);
    }
}

/// Changes the address; returns what is said, with its marking, and whether it was changed.
fn change(
    connected: Result<(), ApiError>,
    result: Result<ReconnectResult, ApiError>,
) -> (Vec<(String, bool)>, bool) {
    let mut said = Vec::new();
    let mut changed = false;
    let mut connected = Some(connected);
    let mut result = Some(result);
    let mut state = ChangeState::Announcing;
    loop {
        let event = match state.action() {
            ChangeAction::Say { reply } => {
                assert!(connected.is_some());
                said.push((reply.text, reply.html));
                ChangeEvent::Said
            }
            ChangeAction::Connect => ChangeEvent::Connected { outcome: connected.take().unwrap() },
            ChangeAction::Reconnect => {
                changed = true;
                ChangeEvent::Reconnected { result: result.take().unwrap() }
            }
            ChangeAction::Answer { reply } => {
                said.push((reply.text, reply.html));
                return (said, changed);
            }
        };
        state = tg_change(state, event);
    }
}

#[test]
fn bot_needs_a_token() {
    let (done, result) = start(&config(None, Some("1"), Some("c")), Trouble::Nothing);
    assert!(done.is_empty());
    let e = result.unwrap_err();
    assert_eq!(e.message, "未配置 TG_TOKEN，请运行 boil setup");
    assert!(e.causes.is_empty());
}

#[test]
fn bot_sets_its_schedule_before_taking_commands() {
    let (done, result) = start(&config(Some("tok"), None, Some("0 3 * * *")), Trouble::Nothing);
    assert_eq!(done, ["register tok", "prepare", "schedule 0 3 * * *", "dispatch"]);
    assert!(result.is_ok());
    let (done, result) = start(&config(Some("tok"), None, None), Trouble::Nothing);
    assert_eq!(done, ["register tok", "prepare", "dispatch"]);
    assert!(result.is_ok());
}

#[test]
fn schedule_that_cannot_be_set_does_not_stop_the_bot() {
    let (done, result) = start(&config(Some("tok"), None, Some("bad")), Trouble::Schedule);
    assert_eq!(done, ["register tok", "prepare", "schedule bad", "dispatch"]);
    assert!(result.is_ok());
}

#[test]
fn other_troubles_at_the_start_end_the_bot() {
    let c = config(Some("tok"), None, Some("c"));
    let (done, result) = start(&c, Trouble::Register);
    assert_eq!(done, ["register tok"]);
    assert_eq!(result.unwrap_err().message, "坏");
    let (done, result) = start(&c, Trouble::Prepare);
    assert_eq!(done, ["register tok", "prepare"]);
    assert_eq!(result.unwrap_err().message, "坏");
}

#[test]
fn other_chats_are_ignored() {
    let c = config(None, Some("42"), None);
    assert!(matches!(handle_command(&c, "43", Command::Change), CommandAction::Ignore));
    assert!(matches!(handle_command(&c, "-42", Command::Start), CommandAction::Ignore));
    let c = config(None, None, None);
    assert!(matches!(handle_command(&c, "42", Command::Status), CommandAction::Ignore));
    assert!(matches!(handle_command(&c, "", Command::Status), CommandAction::Ignore));
}

#[test]
fn configured_chat_is_obeyed() {
    let c = config(None, Some("-100"), None);
    assert!(matches!(handle_command(&c, "-100", Command::Status), CommandAction::Status));
    assert!(matches!(handle_command(&c, "-100", Command::Check), CommandAction::Check));
    assert!(matches!(handle_command(&c, "-100", Command::Change), CommandAction::Change));
    match handle_command(&c, "-100", Command::Timer { arg: "  0 3 * * * ".to_string() }) {
        CommandAction::Timer { arg } => assert_eq!(arg, "0 3 * * *"),
        _ => panic!("no timer"),
    }
    match handle_command(&c, "-100", Command::Start) {
        CommandAction::Answer { reply } => {
            assert_eq!(
                reply.text,
                "👋 <b>Boil IP Bot</b>\n\n/status — 查看当前 IP\n/check — 检查 IP 质量\n/change — 换 IP（重拨）\n/timer — 定时换 IP 设置"
            );
            assert!(reply.html);
        }
        _ => panic!("no answer"),
    }
}

#[test]
fn status_names_the_address_or_the_failure() {
    let reply = tg_status(&Ok(GetIpResponse { ip: "1.2.3.4".to_string() }));
    assert_eq!(reply.text, "📡 当前 IP: <code>1.2.3.4</code>");
    assert!(reply.html);
    let reply = tg_status(&Err(error("坏")));
    assert_eq!(reply.text, "❌ 查询失败: 坏");
    assert!(!reply.html);
}

#[test]
fn examination_on_the_machine_itself_tells_of_streaming() {
    let (said, streamed) = examine(Ok("1.2.3.4"), Some(quality()), Some("1.2.3.4"));
    assert!(streamed);
    assert_eq!(said.len(), 2);
    assert_eq!(said[0], ("🔍 检测中，请稍候...".to_string(), false));
    assert_eq!(
        said[1].0,
        "📍 IP: <code>1.2.3.4</code>\n\n地区: 日本 | ISP: NTT\n类型: 机房 ⚠️ | CF 风险: 高 ⚠️\n\n\n📺 <b>流媒体解锁</b>\n<pre>  Netflix          A\n  X                B</pre>"
    );
    assert!(said[1].1);
}

#[test]
fn examination_elsewhere_skips_streaming() {
    let expected = "📍 IP: <code>1.2.3.4</code>\n\n\n📺 <b>流媒体检测</b>\n运行于非 Boil VPS，跳过（结果无意义）";
    let (said, streamed) = examine(Ok("1.2.3.4"), None, Some("1.2.3.5"));
    assert!(!streamed);
    assert_eq!(said[1], (expected.to_string(), true));
    let (said, streamed) = examine(Ok("1.2.3.4"), None, None);
    assert!(!streamed);
    assert_eq!(said[1].0, expected);
}

#[test]
fn examination_without_address_tells_the_failure() {
    let (said, streamed) = examine(Err("坏"), None, None);
    assert!(!streamed);
    assert_eq!(said, [("❌ 查询失败: 坏".to_string(), false)]);
}

/// The answer to a change with this result, after its announcement.
fn answer(result: Result<ReconnectResult, ApiError>) -> (String, bool) {
    let (mut said, changed) = change(Ok(()), result);
    assert!(changed);
    assert_eq!(said.len(), 2);
    assert_eq!(said[0], ("⏳ 开始换 IP，请稍候...".to_string(), false));
    said.remove(1)
}

#[test]
fn change_without_a_client_leaves_the_address_alone() {
    let (said, changed) = change(Err(error("e")), Err(error("never")));
    assert!(!changed);
    assert_eq!(
        said,
        [
            ("⏳ 开始换 IP，请稍候...".to_string(), false),
            ("❌ 创建客户端失败: e".to_string(), false),
        ]
    );
}

#[test]
fn change_is_told_with_its_result() {
    let reply = answer(Ok(ReconnectResult {
        old_ip: Some("1.1.1.1".to_string()),
        new_ip: Some("2.2.2.2".to_string()),
        reachable: true,
        quality: Some(quality()),
    }));
    assert_eq!(
        reply.0,
        "✅ <b>换 IP 完成</b>\n旧 IP: <code>1.1.1.1</code>\n新 IP: <code>2.2.2.2</code> <i>TCP 可达 ✅</i>\n\n📊 <b>IP 质量</b>\n地区: 日本\nISP: NTT\n类型: 机房 ⚠️\nCF 风险: 高 ⚠️"
    );
    assert!(reply.1);
    let reply = answer(Ok(ReconnectResult {
        old_ip: None,
        new_ip: Some("2.2.2.2".to_string()),
        reachable: false,
        quality: None,
    }));
    assert_eq!(
        reply.0,
        "✅ <b>换 IP 完成</b>\n旧 IP: <code>未知</code>\n新 IP: <code>2.2.2.2</code> <i>TCP 未通 ⚠️</i>"
    );
    let reply = answer(Ok(ReconnectResult {
        old_ip: Some("1.1.1.1".to_string()),
        new_ip: None,
        reachable: false,
        quality: None,
    }));
    assert_eq!(
        reply.0,
        "⚠️ 重拨已触发，但未检测到 IP 变化\n旧 IP: <code>1.1.1.1</code>\n请到面板手动确认"
    );
    assert!(reply.1);
    let reply = answer(Err(error("坏")));
    assert_eq!(reply.0, "❌ 换 IP 失败: 坏");
    assert!(!reply.1);
}
