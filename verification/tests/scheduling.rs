use boil::boil::ApiError;
use boil::bot::{handle_command, Command, CommandAction};
use boil::config::Config;
use boil::timer::{
    cmd_timer, cmd_timer_message, read_request, tg_timer, CmdTimerAction, CmdTimerEvent,
    CmdTimerState, TimerAction, TimerEvent, TimerRequest, TimerState,
};

/// What goes wrong.
#[derive(Clone, Copy, PartialEq)]
enum Trouble {
    Nothing,
    Check,
    Store,
    Apply,
}

fn outcome(trouble: Trouble, at: Trouble) -> Result<(), ApiError> {
    if trouble == at {
        Err(ApiError::new("坏".to_string()))
    } else {
        Ok(())
    }
}

/// Runs the bot's command; returns what it does and what it answers.
fn chat(arg: &str, current: Option<&str>, trouble: Trouble) -> (Vec<String>, String, bool) {
    let mut done = Vec::new();
    let mut state = TimerState::open(arg.to_string());
    loop {
        let event = match state.action() {
            TimerAction::ReadCurrent => {
                done.push("read".to_string());
                TimerEvent::Current { running: current.map(|s| s.to_string()) }
            }
            TimerAction::Validate { cron } => {
                done.push(format!("check {cron}"));
                TimerEvent::Validated { result: outcome(trouble, Trouble::Check) }
            }
            TimerAction::Save { schedule } => {
                done.push(format!("store {}", schedule.as_deref().unwrap_or("nothing")));
                TimerEvent::Saved { result: outcome(trouble, Trouble::Store) }
            }
            TimerAction::Clear => {
                done.push("clear".to_string());
                TimerEvent::Applied { result: outcome(trouble, Trouble::Apply) }
            }
            TimerAction::Apply { cron } => {
                done.push(format!("apply {cron}"));
                TimerEvent::Applied { result: outcome(trouble, Trouble::Apply) }
            }
            TimerAction::Answer { reply } => return (done, reply.text, reply.html),
        };
        state = tg_timer(state, event);
    }
}

/// Runs the command line's command; returns what it does and what it prints.
fn console(
    arg: &str,
    stored: Option<&str>,
    trouble: Trouble,
) -> (Vec<String>, Result<String, String>) {
    let config = Config {
        boil_api_token: "t".to_string(),
        tg_token: None,
        tg_chat_id: None,
        change_cron: stored.map(|s| s.to_string()),
    };
    let mut done = Vec::new();
    let mut state = CmdTimerState::open(&config, arg.to_string());
    loop {
        let event = match state.action() {
            CmdTimerAction::Validate { cron } => {
                done.push(format!("check {cron}"));
                CmdTimerEvent::Validated { result: outcome(trouble, Trouble::Check) }
            }
            CmdTimerAction::Save { schedule } => {
                done.push(format!("store {}", schedule.as_deref().unwrap_or("nothing")));
                CmdTimerEvent::Saved { result: outcome(trouble, Trouble::Store) }
            }
            CmdTimerAction::Finish => match state {
                CmdTimerState::Finished { result } => {
                    return (
                        done,
                        match result {
                            Ok(o) => Ok(cmd_timer_message(&o)),
                            Err(e) => Err(e.message),
                        },
                    );
                }
                _ => panic!("not finished"),
            },
        };
        state = cmd_timer(state, event);
    }
}

#[test]
fn argument_tells_what_is_asked_for() {
    assert!(matches!(read_request("".to_string()), TimerRequest::Show));
    assert!(matches!(read_request("off".to_string()), TimerRequest::Off));
    assert!(matches!(read_request("OFF".to_string()), TimerRequest::Off));
    assert!(matches!(read_request("Off".to_string()), TimerRequest::Off));
    match read_request("0 */6 * * *".to_string()) {
        TimerRequest::On { cron } => assert_eq!(cron, "0 */6 * * *"),
        _ => panic!("no schedule"),
    }
    assert!(matches!(read_request(" ".to_string()), TimerRequest::On { .. }));
    assert!(matches!(read_request("off1".to_string()), TimerRequest::On { .. }));
}

#[test]
fn chat_shows_the_running_schedule() {
    let (done, text, html) = chat("", Some("0 3 * * *"), Trouble::Nothing);
    assert_eq!(done, ["read"]);
    assert_eq!(
        text,
        "⏰ 当前定时换 IP: <code>0 3 * * *</code>\n\n关闭: /timer off\n修改示例:\n  每6小时: /timer 0 */6 * * *\n  每天3点: /timer 0 3 * * *"
    );
    assert!(html);
    let (_, text, html) = chat("", None, Trouble::Nothing);
    assert_eq!(
        text,
        "⏰ 定时换 IP 未启用\n\n设置示例:\n  每6小时: /timer 0 */6 * * *\n  每天3点: /timer 0 3 * * *"
    );
    assert!(html);
}

#[test]
fn chat_sets_a_schedule_after_checking_and_storing() {
    let (done, text, html) = chat("0 3 * * *", None, Trouble::Nothing);
    assert_eq!(done, ["check 0 3 * * *", "store 0 3 * * *", "apply 0 3 * * *"]);
    assert_eq!(text, "✅ 定时换 IP 已设置: <code>0 3 * * *</code>，立即生效");
    assert!(html);
}

#[test]
fn chat_clears_the_schedule_after_storing() {
    let (done, text, html) = chat("OFF", Some("0 3 * * *"), Trouble::Nothing);
    assert_eq!(done, ["store nothing", "clear"]);
    assert_eq!(text, "✅ 定时换 IP 已关闭，立即生效");
    assert!(!html);
}

#[test]
fn chat_stops_at_the_first_trouble() {
    let (done, text, html) = chat("bad", None, Trouble::Check);
    assert_eq!(done, ["check bad"]);
    assert_eq!(text, "❌ 坏\n\n示例:\n  每6小时: 0 */6 * * *\n  每天3点: 0 3 * * *");
    assert!(!html);
    let (done, text, _) = chat("c", None, Trouble::Store);
    assert_eq!(done, ["check c", "store c"]);
    assert_eq!(text, "❌ 保存失败: 坏");
    let (done, text, _) = chat("off", None, Trouble::Store);
    assert_eq!(done, ["store nothing"]);
    assert_eq!(text, "❌ 保存失败: 坏");
    let (_, text, _) = chat("c", None, Trouble::Apply);
    assert_eq!(text, "⚠️ 已写入配置，但热更新失败，重启后生效: 坏");
    let (_, text, html) = chat("off", None, Trouble::Apply);
    assert_eq!(text, "⚠️ 已写入配置，但热更新失败，重启后生效: 坏");
    assert!(!html);
}

#[test]
fn console_shows_the_stored_schedule() {
    let (done, text) = console("", Some("0 3 * * *"), Trouble::Nothing);
    assert!(done.is_empty());
    assert_eq!(text.unwrap(), "⏰ 当前定时换 IP: 0 3 * * *\n\n关闭: boil timer off");
    let (_, text) = console("", None, Trouble::Nothing);
    assert_eq!(
        text.unwrap(),
        "⏰ 定时换 IP 未启用\n\n设置示例:\n  每6小时: boil timer \"0 */6 * * *\"\n  每天3点: boil timer \"0 3 * * *\""
    );
}

#[test]
fn console_stores_what_is_valid() {
    let (done, text) = console("0 3 * * *", None, Trouble::Nothing);
    assert_eq!(done, ["check 0 3 * * *", "store 0 3 * * *"]);
    assert_eq!(text.unwrap(), "✅ 定时换 IP 已设置: 0 3 * * *\n重启 boil 后生效");
    let (done, text) = console("oFF", None, Trouble::Nothing);
    assert_eq!(done, ["store nothing"]);
    assert_eq!(text.unwrap(), "✅ 定时换 IP 已关闭");
    let (done, text) = console("bad", None, Trouble::Check);
    assert_eq!(done, ["check bad"]);
    assert_eq!(text.unwrap_err(), "坏");
    let (_, text) = console("c", None, Trouble::Store);
    assert_eq!(text.unwrap_err(), "坏");
    let (_, text) = console("off", None, Trouble::Store);
    assert_eq!(text.unwrap_err(), "坏");
}

#[test]
fn outcomes_out_of_turn_change_nothing() {
    let state = tg_timer(TimerState::SavingOff, TimerEvent::Applied { result: Ok(()) });
    assert!(matches!(state, TimerState::SavingOff));
    let state = cmd_timer(
        CmdTimerState::SavingOff,
        CmdTimerEvent::Validated { result: Ok(()) },
    );
    assert!(matches!(state, CmdTimerState::SavingOff));
}

#[test]
fn padding_of_the_argument_does_not_matter_to_the_chat() {
    let config = Config {
        boil_api_token: "t".to_string(),
        tg_token: None,
        tg_chat_id: Some("7".to_string()),
        change_cron: None,
    };
    let ask = |arg: &str| match handle_command(&config, "7", Command::Timer { arg: arg.to_string() }) {
        CommandAction::Timer { arg } => read_request(arg),
        _ => panic!("no timer"),
    };
    assert!(matches!(ask("  oFF\n"), TimerRequest::Off));
    assert!(matches!(ask(" \t "), TimerRequest::Show));
    assert!(matches!(ask(""), TimerRequest::Show));
    match ask(" 0 3 * * * ") {
        TimerRequest::On { cron } => assert_eq!(cron, "0 3 * * *"),
        _ => panic!("no schedule"),
    }
}
