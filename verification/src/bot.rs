//! The chat bot: which commands it obeys, and what it answers.
use vstd::prelude::*;
use vstd::string::*;

use crate::boil::{uncaused, ApiError, GetIpResponse};
use crate::config::Config;
use crate::json::opt_text;
use crate::quality::{opt_quality, or_unknown, IpQuality, QualityView};
use crate::reconnect::ReconnectResult;
use crate::report::{
    known, on_boil_vps, reach_label, reach_text, runs_at, service_lines, service_texts,
    ServiceStatus,
};
use crate::text::{join, joined, lemma_part_occurs, occurs, same_text, texts, trim, trimmed};

verus! {

/// An answer in the chat.
pub struct BotReply {
    pub text: String,
    /// The text is marked up as HTML.
    pub html: bool,
}

/// An answer in the chat, its text as a sequence of characters.
pub struct ReplyView {
    pub text: Seq<char>,
    pub html: bool,
}

impl View for BotReply {
    type V = ReplyView;

    open spec fn view(&self) -> ReplyView {
        ReplyView { text: self.text@, html: self.html }
    }
}

/// A command of the chat.
pub enum Command {
    Start,
    Status,
    Check,
    Change,
    Timer { arg: String },
}

/// What the bot does about a command.
pub enum CommandAction {
    /// Nothing, not even an answer.
    Ignore,
    Answer { reply: BotReply },
    Status,
    Check,
    Change,
    Timer { arg: String },
}

/// How far the start of the bot has come. Each state waits for the outcome of one action.
pub enum RunState {
    /// The bot's commands are made known.
    Registering { token: String, schedule: Option<String> },
    /// The scheduler is made.
    Preparing { schedule: Option<String> },
    /// The configured schedule is set.
    Scheduling { cron: String },
    /// Commands are taken until the bot is stopped.
    Dispatching,
    /// Nothing is left to do.
    Finished { result: Result<(), ApiError> },
}

/// What is to be done next.
pub enum RunAction {
    Register { token: String },
    Prepare,
    Schedule { cron: String },
    Dispatch,
    Finish,
}

/// What came of an action.
pub enum RunEvent {
    Registered { result: Result<(), ApiError> },
    Prepared { result: Result<(), ApiError> },
    Scheduled { result: Result<(), ApiError> },
    Dispatched,
}

/// `state` is the first one under this configuration; without a token it is the last.
pub open spec fn run_starts(config: Config, state: RunState) -> bool {
    match config.tg_token {
        Some(token) => state == (RunState::Registering { token, schedule: config.change_cron }),
        None => state matches RunState::Finished { result: Err(e) } && e@ == uncaused(
            "未配置 TG_TOKEN，请运行 boil setup"@,
        ),
    }
}

/// The state that follows the making of the scheduler.
pub open spec fn prepared(schedule: Option<String>) -> RunState {
    match schedule {
        Some(cron) => RunState::Scheduling { cron },
        None => RunState::Dispatching,
    }
}

/// The state that follows `state` when `event` comes. An event that the state does
/// not wait for changes nothing.
pub open spec fn run_step(state: RunState, event: RunEvent) -> RunState {
    match (state, event) {
        (
            RunState::Registering { schedule, .. },
            RunEvent::Registered { result: Ok(_) },
        ) => RunState::Preparing { schedule },
        (
            RunState::Registering { .. },
            RunEvent::Registered { result: Err(e) },
        ) => RunState::Finished { result: Err(e) },
        (RunState::Preparing { schedule }, RunEvent::Prepared { result: Ok(_) }) => prepared(
            schedule,
        ),
        (RunState::Preparing { .. }, RunEvent::Prepared { result: Err(e) }) => RunState::Finished {
            result: Err(e),
        },
        (RunState::Scheduling { .. }, RunEvent::Scheduled { .. }) => RunState::Dispatching,
        (RunState::Dispatching, RunEvent::Dispatched) => RunState::Finished { result: Ok(()) },
        _ => state,
    }
}

/// The action whose outcome `state` waits for.
pub open spec fn run_awaited(state: RunState) -> RunAction {
    match state {
        RunState::Registering { token, .. } => RunAction::Register { token },
        RunState::Preparing { .. } => RunAction::Prepare,
        RunState::Scheduling { cron } => RunAction::Schedule { cron },
        RunState::Dispatching => RunAction::Dispatch,
        RunState::Finished { .. } => RunAction::Finish,
    }
}

/// `event` is the outcome that `state` waits for.
pub open spec fn run_takes(state: RunState, event: RunEvent) -> bool {
    match state {
        RunState::Registering { .. } => event is Registered,
        RunState::Preparing { .. } => event is Prepared,
        RunState::Scheduling { .. } => event is Scheduled,
        RunState::Dispatching => event is Dispatched,
        RunState::Finished { .. } => false,
    }
}

impl RunState {
    /// The first state under this configuration.
    pub fn open(config: &Config) -> (state: Self)
        ensures
            run_starts(*config, state),
    {
        let token = match &config.tg_token {
            Some(token) => token.clone(),
            None => {
                let e = ApiError::new("未配置 TG_TOKEN，请运行 boil setup".to_string());
                return RunState::Finished { result: Err(e) };
            },
        };
        let schedule = match &config.change_cron {
            Some(cron) => Some(cron.clone()),
            None => None,
        };
        RunState::Registering { token, schedule }
    }

    /// The action whose outcome the state waits for.
    pub fn action(&self) -> (action: RunAction)
        ensures
            action == run_awaited(*self),
    {
        match self {
            RunState::Registering { token, schedule: _ } => RunAction::Register {
                token: token.clone(),
            },
            RunState::Preparing { .. } => RunAction::Prepare,
            RunState::Scheduling { cron } => RunAction::Schedule { cron: cron.clone() },
            RunState::Dispatching => RunAction::Dispatch,
            RunState::Finished { .. } => RunAction::Finish,
        }
    }

    /// An upper bound of the outcomes that are still to come.
    pub open spec fn steps_left(self) -> nat {
        match self {
            RunState::Registering { .. } => 4,
            RunState::Preparing { .. } => 3,
            RunState::Scheduling { .. } => 2,
            RunState::Dispatching => 1,
            RunState::Finished { .. } => 0,
        }
    }
}

/// Takes in what came of the awaited action of the bot's start.
pub fn run(state: RunState, event: RunEvent) -> (next: RunState)
    ensures
        next == run_step(state, event),
{
    match (state, event) {
        (
            RunState::Registering { token: _, schedule },
            RunEvent::Registered { result },
        ) => match result {
            Ok(()) => RunState::Preparing { schedule },
            Err(e) => RunState::Finished { result: Err(e) },
        },
        (RunState::Preparing { schedule }, RunEvent::Prepared { result }) => match result {
            Ok(()) => match schedule {
                Some(cron) => RunState::Scheduling { cron },
                None => RunState::Dispatching,
            },
            Err(e) => RunState::Finished { result: Err(e) },
        },
        (RunState::Scheduling { cron: _ }, RunEvent::Scheduled { result: _ }) => {
            RunState::Dispatching
        },
        (RunState::Dispatching, RunEvent::Dispatched) => RunState::Finished { result: Ok(()) },
        (state, _) => state,
    }
}

/// `action` is what the bot does about `command` in the chat `chat_id`: nothing, unless
/// that is the configured chat.
pub open spec fn obeyed(
    config: Config,
    chat_id: Seq<char>,
    command: Command,
    action: CommandAction,
) -> bool {
    if opt_text(config.tg_chat_id) != Some(chat_id) {
        action is Ignore
    } else {
        match command {
            Command::Start => action matches CommandAction::Answer { reply } && reply@
                == (ReplyView {
                text:
                    "👋 <b>Boil IP Bot</b>\n\n/status — 查看当前 IP\n/check — 检查 IP 质量\n/change — 换 IP（重拨）\n/timer — 定时换 IP 设置"@,
                html: true,
            }),
            Command::Status => action is Status,
            Command::Check => action is Check,
            Command::Change => action is Change,
            Command::Timer { arg } => action matches CommandAction::Timer { arg: inner }
                && inner@ == trimmed(arg@),
        }
    }
}

/// What the bot does about a command.
pub fn handle_command(config: &Config, chat_id: &str, command: Command) -> (action: CommandAction)
    ensures
        obeyed(*config, chat_id@, command, action),
{
    let allowed = match &config.tg_chat_id {
        Some(id) => same_text(id.as_str(), chat_id),
        None => false,
    };
    if !allowed {
        return CommandAction::Ignore;
    }
    match command {
        Command::Start => CommandAction::Answer {
            reply: BotReply {
                text:
                    "👋 <b>Boil IP Bot</b>\n\n/status — 查看当前 IP\n/check — 检查 IP 质量\n/change — 换 IP（重拨）\n/timer — 定时换 IP 设置".to_string(),
                html: true,
            },
        },
        Command::Status => CommandAction::Status,
        Command::Check => CommandAction::Check,
        Command::Change => CommandAction::Change,
        Command::Timer { arg } => CommandAction::Timer { arg: trim(arg.as_str()).to_string() },
    }
}

/// The answer where the address could not be learned.
pub open spec fn query_failed(error: ApiError) -> ReplyView {
    ReplyView { text: "❌ 查询失败: "@ + error.message@, html: false }
}

fn query_failed_reply(error: &ApiError) -> (reply: BotReply)
    ensures
        reply@ == query_failed(*error),
{
    BotReply { text: "❌ 查询失败: ".to_string().concat(error.message.as_str()), html: false }
}

/// The answer to the question for the current address.
pub fn tg_status(result: &Result<GetIpResponse, ApiError>) -> (reply: BotReply)
    ensures
        reply@ == (match *result {
            Ok(resp) => ReplyView {
                text: "📡 当前 IP: <code>"@ + resp.ip@ + "</code>"@,
                html: true,
            },
            Err(e) => query_failed(e),
        }),
{
    match result {
        Ok(resp) => BotReply {
            text: "📡 当前 IP: <code>".to_string().concat(resp.ip.as_str()).concat("</code>"),
            html: true,
        },
        Err(e) => query_failed_reply(e),
    }
}

/// How far the examination of the address has come. Each state waits for the outcome of
/// one action.
pub enum CheckState {
    /// The address is asked for.
    Asking,
    /// The chat is told to wait.
    Announcing { ip: String },
    /// The address is rated.
    Rating { ip: String },
    /// The machine's own address is asked for.
    Locating { ip: String, quality: Option<IpQuality> },
    /// The streaming services are tried.
    Streaming { ip: String, quality: Option<IpQuality> },
    /// The address could not be learned.
    Failed { error: ApiError },
    /// The report is given; the services are tried only on the machine itself.
    Reported { ip: String, quality: Option<IpQuality>, services: Option<Vec<ServiceStatus>> },
}

/// What is to be done next.
pub enum CheckAction {
    GetIp,
    Say { reply: BotReply },
    Rate { ip: String },
    Locate,
    CheckStreaming,
    /// The last action.
    Answer { reply: BotReply },
}

/// What came of an action.
pub enum CheckEvent {
    Address { reply: Result<String, ApiError> },
    Said,
    Rated { quality: Option<IpQuality> },
    Located { local_ip: Option<String> },
    Streamed { services: Vec<ServiceStatus> },
}

/// The state that follows `state` when `event` comes. An event that the state does
/// not wait for changes nothing.
pub open spec fn check_step(state: CheckState, event: CheckEvent) -> CheckState {
    match (state, event) {
        (CheckState::Asking, CheckEvent::Address { reply: Ok(ip) }) => CheckState::Announcing {
            ip,
        },
        (CheckState::Asking, CheckEvent::Address { reply: Err(error) }) => CheckState::Failed {
            error,
        },
        (CheckState::Announcing { ip }, CheckEvent::Said) => CheckState::Rating { ip },
        (CheckState::Rating { ip }, CheckEvent::Rated { quality }) => CheckState::Locating {
            ip,
            quality,
        },
        (CheckState::Locating { ip, quality }, CheckEvent::Located { local_ip }) => if runs_at(
            local_ip,
            ip@,
        ) {
            CheckState::Streaming { ip, quality }
        } else {
            CheckState::Reported { ip, quality, services: None }
        },
        (
            CheckState::Streaming { ip, quality },
            CheckEvent::Streamed { services },
        ) => CheckState::Reported { ip, quality, services: Some(services) },
        _ => state,
    }
}

/// The part of a report that tells the rating of the address.
pub open spec fn rating_text(quality: QualityView) -> Seq<char> {
    "地区: "@ + quality.country + " | ISP: "@ + quality.isp + "\n类型: "@ + quality.ip_type()
        + " | CF 风险: "@ + quality.cf_risk()
}

/// The part of a report that tells of the streaming services.
pub open spec fn streaming_text(services: Option<Vec<ServiceStatus>>) -> Seq<char> {
    match services {
        Some(services) => "\n📺 <b>流媒体解锁</b>\n<pre>"@ + joined(
            service_texts("  "@, services@),
            "\n"@,
        ) + "</pre>"@,
        None => "\n📺 <b>流媒体检测</b>\n运行于非 Boil VPS，跳过（结果无意义）"@,
    }
}

/// The parts of a report: the address, its rating where there is one, and the
/// streaming services.
pub open spec fn check_parts(
    ip: Seq<char>,
    quality: Option<QualityView>,
    services: Option<Vec<ServiceStatus>>,
) -> Seq<Seq<char>> {
    let head = "📍 IP: <code>"@ + ip + "</code>"@;
    match quality {
        Some(q) => seq![head, rating_text(q), streaming_text(services)],
        None => seq![head, streaming_text(services)],
    }
}

/// `action` is what `state` waits for the outcome of.
pub open spec fn check_awaits(state: CheckState, action: CheckAction) -> bool {
    match state {
        CheckState::Asking => action is GetIp,
        CheckState::Announcing { .. } => action matches CheckAction::Say { reply } && reply@ == (
        ReplyView { text: "🔍 检测中，请稍候..."@, html: false }),
        CheckState::Rating { ip } => action == (CheckAction::Rate { ip }),
        CheckState::Locating { .. } => action is Locate,
        CheckState::Streaming { .. } => action is CheckStreaming,
        CheckState::Failed { error } => action matches CheckAction::Answer { reply } && reply@
            == query_failed(error),
        CheckState::Reported { ip, quality, services } => action matches CheckAction::Answer {
            reply,
        } && reply@ == (ReplyView {
            text: joined(check_parts(ip@, opt_quality(quality), services), "\n\n"@),
            html: true,
        }),
    }
}

/// `event` is the outcome that `state` waits for.
pub open spec fn check_takes(state: CheckState, event: CheckEvent) -> bool {
    match state {
        CheckState::Asking => event is Address,
        CheckState::Announcing { .. } => event is Said,
        CheckState::Rating { .. } => event is Rated,
        CheckState::Locating { .. } => event is Located,
        CheckState::Streaming { .. } => event is Streamed,
        CheckState::Failed { .. } | CheckState::Reported { .. } => false,
    }
}

fn check_report(
    ip: &str,
    quality: &Option<IpQuality>,
    services: &Option<Vec<ServiceStatus>>,
) -> (reply: BotReply)
    ensures
        reply@.text == joined(check_parts(ip@, opt_quality(*quality), *services), "\n\n"@),
        reply@.html,
{
    let mut lines: Vec<String> = Vec::new();
    lines.push("📍 IP: <code>".to_string().concat(ip).concat("</code>"));
    if let Some(q) = quality {
        lines.push(
            "地区: ".to_string().concat(q.country.as_str()).concat(" | ISP: ").concat(
                q.isp.as_str(),
            ).concat("\n类型: ").concat(q.ip_type()).concat(" | CF 风险: ").concat(q.cf_risk()),
        );
    }
    match services {
        Some(services) => {
            let table = join(&service_lines("  ", services), "\n");
            lines.push(
                "\n📺 <b>流媒体解锁</b>\n<pre>".to_string().concat(table.as_str()).concat(
                    "</pre>",
                ),
            );
        },
        None => {
            lines.push(
                "\n📺 <b>流媒体检测</b>\n运行于非 Boil VPS，跳过（结果无意义）".to_string(),
            );
        },
    }
    assert(texts(lines@) =~= check_parts(ip@, opt_quality(*quality), *services));
    BotReply { text: join(&lines, "\n\n"), html: true }
}

impl CheckState {
    /// The action whose outcome the state waits for.
    pub fn action(&self) -> (action: CheckAction)
        ensures
            check_awaits(*self, action),
    {
        match self {
            CheckState::Asking => CheckAction::GetIp,
            CheckState::Announcing { .. } => CheckAction::Say {
                reply: BotReply { text: "🔍 检测中，请稍候...".to_string(), html: false },
            },
            CheckState::Rating { ip } => CheckAction::Rate { ip: ip.clone() },
            CheckState::Locating { .. } => CheckAction::Locate,
            CheckState::Streaming { .. } => CheckAction::CheckStreaming,
            CheckState::Failed { error } => CheckAction::Answer {
                reply: query_failed_reply(error),
            },
            CheckState::Reported { ip, quality, services } => CheckAction::Answer {
                reply: check_report(ip.as_str(), quality, services),
            },
        }
    }

    /// An upper bound of the outcomes that are still to come.
    pub open spec fn steps_left(self) -> nat {
        match self {
            CheckState::Asking => 5,
            CheckState::Announcing { .. } => 4,
            CheckState::Rating { .. } => 3,
            CheckState::Locating { .. } => 2,
            CheckState::Streaming { .. } => 1,
            CheckState::Failed { .. } | CheckState::Reported { .. } => 0,
        }
    }
}

/// Takes in what came of the awaited action of an examination.
pub fn tg_check(state: CheckState, event: CheckEvent) -> (next: CheckState)
    ensures
        next == check_step(state, event),
{
    match (state, event) {
        (CheckState::Asking, CheckEvent::Address { reply }) => match reply {
            Ok(ip) => CheckState::Announcing { ip },
            Err(error) => CheckState::Failed { error },
        },
        (CheckState::Announcing { ip }, CheckEvent::Said) => CheckState::Rating { ip },
        (CheckState::Rating { ip }, CheckEvent::Rated { quality }) => CheckState::Locating {
            ip,
            quality,
        },
        (CheckState::Locating { ip, quality }, CheckEvent::Located { local_ip }) => {
            if on_boil_vps(&local_ip, ip.as_str()) {
                CheckState::Streaming { ip, quality }
            } else {
                CheckState::Reported { ip, quality, services: None }
            }
        },
        (
            CheckState::Streaming { ip, quality },
            CheckEvent::Streamed { services },
        ) => CheckState::Reported { ip, quality, services: Some(services) },
        (state, _) => state,
    }
}

/// The part of an answer that tells the rating of a new address.
pub open spec fn new_rating_text(quality: Option<QualityView>) -> Seq<char> {
    match quality {
        Some(q) => "\n\n📊 <b>IP 质量</b>\n地区: "@ + q.country + "\nISP: "@ + q.isp + "\n类型: "@
            + q.ip_type() + "\nCF 风险: "@ + q.cf_risk(),
        None => Seq::empty(),
    }
}

/// The answer that tells what a change of address led to.
pub open spec fn change_reply(result: Result<ReconnectResult, ApiError>) -> ReplyView {
    match result {
        Ok(res) => match res.new_ip {
            Some(new_ip) => ReplyView {
                text: "✅ <b>换 IP 完成</b>\n旧 IP: <code>"@ + or_unknown(opt_text(res.old_ip))
                    + "</code>\n新 IP: <code>"@ + new_ip@ + "</code> <i>"@ + reach_text(
                    res.reachable,
                ) + "</i>"@ + new_rating_text(opt_quality(res.quality)),
                html: true,
            },
            None => ReplyView {
                text: "⚠️ 重拨已触发，但未检测到 IP 变化\n旧 IP: <code>"@ + or_unknown(
                    opt_text(res.old_ip),
                ) + "</code>\n请到面板手动确认"@,
                html: true,
            },
        },
        Err(e) => ReplyView { text: "❌ 换 IP 失败: "@ + e.message@, html: false },
    }
}

fn new_rating(quality: &Option<IpQuality>) -> (text: String)
    ensures
        text@ == new_rating_text(opt_quality(*quality)),
{
    match quality {
        Some(q) => "\n\n📊 <b>IP 质量</b>\n地区: ".to_string().concat(q.country.as_str()).concat(
            "\nISP: ",
        ).concat(q.isp.as_str()).concat("\n类型: ").concat(q.ip_type()).concat(
            "\nCF 风险: ",
        ).concat(q.cf_risk()),
        None => String::new(),
    }
}

/// The answer that tells what a change of address led to.
fn change_answer(result: &Result<ReconnectResult, ApiError>) -> (reply: BotReply)
    ensures
        reply@ == change_reply(*result),
{
    match result {
        Ok(res) => match &res.new_ip {
            Some(new_ip) => {
                let rating = new_rating(&res.quality);
                let text = "✅ <b>换 IP 完成</b>\n旧 IP: <code>".to_string().concat(
                    known(&res.old_ip),
                ).concat("</code>\n新 IP: <code>").concat(new_ip.as_str()).concat(
                    "</code> <i>",
                ).concat(reach_label(res.reachable)).concat("</i>").concat(rating.as_str());
                BotReply { text, html: true }
            },
            None => {
                let text = "⚠️ 重拨已触发，但未检测到 IP 变化\n旧 IP: <code>".to_string().concat(
                    known(&res.old_ip),
                ).concat("</code>\n请到面板手动确认");
                BotReply { text, html: true }
            },
        },
        Err(e) => BotReply {
            text: "❌ 换 IP 失败: ".to_string().concat(e.message.as_str()),
            html: false,
        },
    }
}

/// How far the bot's change of address has come. Each state waits for the outcome of one
/// action.
pub enum ChangeState {
    /// The chat is told to wait.
    Announcing,
    /// A client of the panel is made.
    Connecting,
    /// The address is changed.
    Changing,
    /// No client could be made; the chat is told so.
    Unconnected { error: ApiError },
    /// The chat is told what the change led to.
    Reported { result: Result<ReconnectResult, ApiError> },
}

/// What is to be done next.
pub enum ChangeAction {
    Say { reply: BotReply },
    Connect,
    Reconnect,
    /// The last action.
    Answer { reply: BotReply },
}

/// What came of an action.
pub enum ChangeEvent {
    Said,
    Connected { outcome: Result<(), ApiError> },
    Reconnected { result: Result<ReconnectResult, ApiError> },
}

/// The state that follows `state` when `event` comes. An event that the state does
/// not wait for changes nothing.
pub open spec fn change_step(state: ChangeState, event: ChangeEvent) -> ChangeState {
    match (state, event) {
        (ChangeState::Announcing, ChangeEvent::Said) => ChangeState::Connecting,
        (
            ChangeState::Connecting,
            ChangeEvent::Connected { outcome: Ok(_) },
        ) => ChangeState::Changing,
        (
            ChangeState::Connecting,
            ChangeEvent::Connected { outcome: Err(error) },
        ) => ChangeState::Unconnected { error },
        (ChangeState::Changing, ChangeEvent::Reconnected { result }) => ChangeState::Reported {
            result,
        },
        _ => state,
    }
}

/// `action` is what `state` waits for the outcome of.
pub open spec fn change_awaits(state: ChangeState, action: ChangeAction) -> bool {
    match state {
        ChangeState::Announcing => action matches ChangeAction::Say { reply } && reply@ == (
        ReplyView { text: "⏳ 开始换 IP，请稍候..."@, html: false }),
        ChangeState::Connecting => action is Connect,
        ChangeState::Changing => action is Reconnect,
        ChangeState::Unconnected { error } => action matches ChangeAction::Answer { reply }
            && reply@ == (ReplyView {
            text: "❌ 创建客户端失败: "@ + error.message@,
            html: false,
        }),
        ChangeState::Reported { result } => action matches ChangeAction::Answer { reply } && reply@
            == change_reply(result),
    }
}

/// `event` is the outcome that `state` waits for.
pub open spec fn change_takes(state: ChangeState, event: ChangeEvent) -> bool {
    match state {
        ChangeState::Announcing => event is Said,
        ChangeState::Connecting => event is Connected,
        ChangeState::Changing => event is Reconnected,
        ChangeState::Unconnected { .. } | ChangeState::Reported { .. } => false,
    }
}

impl ChangeState {
    /// The action whose outcome the state waits for.
    pub fn action(&self) -> (action: ChangeAction)
        ensures
            change_awaits(*self, action),
    {
        match self {
            ChangeState::Announcing => ChangeAction::Say {
                reply: BotReply { text: "⏳ 开始换 IP，请稍候...".to_string(), html: false },
            },
            ChangeState::Connecting => ChangeAction::Connect,
            ChangeState::Changing => ChangeAction::Reconnect,
            ChangeState::Unconnected { error } => ChangeAction::Answer {
                reply: BotReply {
                    text: "❌ 创建客户端失败: ".to_string().concat(error.message.as_str()),
                    html: false,
                },
            },
            ChangeState::Reported { result } => ChangeAction::Answer {
                reply: change_answer(result),
            },
        }
    }

    /// An upper bound of the outcomes that are still to come.
    pub open spec fn steps_left(self) -> nat {
        match self {
            ChangeState::Announcing => 3,
            ChangeState::Connecting => 2,
            ChangeState::Changing => 1,
            ChangeState::Unconnected { .. } | ChangeState::Reported { .. } => 0,
        }
    }
}

/// Takes in what came of the awaited action of the bot's change of address.
pub fn tg_change(state: ChangeState, event: ChangeEvent) -> (next: ChangeState)
    ensures
        next == change_step(state, event),
{
    match (state, event) {
        (ChangeState::Announcing, ChangeEvent::Said) => ChangeState::Connecting,
        (ChangeState::Connecting, ChangeEvent::Connected { outcome }) => match outcome {
            Ok(()) => ChangeState::Changing,
            Err(error) => ChangeState::Unconnected { error },
        },
        (ChangeState::Changing, ChangeEvent::Reconnected { result }) => ChangeState::Reported {
            result,
        },
        (state, _) => state,
    }
}

/// The state of the bot's start after these events, one by one.
pub open spec fn run_all(state: RunState, events: Seq<RunEvent>) -> RunState
    decreases events.len(),
{
    if events.len() == 0 {
        state
    } else {
        run_step(run_all(state, events.drop_last()), events.last())
    }
}

/// The state of the bot's change of address after these events, one by one.
pub open spec fn change_all(state: ChangeState, events: Seq<ChangeEvent>) -> ChangeState
    decreases events.len(),
{
    if events.len() == 0 {
        state
    } else {
        change_step(change_all(state, events.drop_last()), events.last())
    }
}

/// A bot whose commands are made known and whose scheduler is made takes commands, and
/// ends well. A configured schedule is set before that, once; whether that succeeds
/// changes nothing. Without a configured schedule none is set.
pub proof fn law_bot_starts_whatever_became_of_its_schedule(
    config: Config,
    state: RunState,
    scheduled: Result<(), ApiError>,
)
    requires
        run_starts(config, state),
        config.tg_token is Some,
    ensures
        run_awaited(state) == (RunAction::Register { token: config.tg_token->0 }),
        ({
            let ready = run_all(
                state,
                seq![
                    RunEvent::Registered { result: Ok(()) },
                    RunEvent::Prepared { result: Ok(()) },
                ],
            );
            let dispatching = match config.change_cron {
                Some(_) => run_step(ready, RunEvent::Scheduled { result: scheduled }),
                None => ready,
            };
            &&& run_awaited(ready) == (match config.change_cron {
                Some(cron) => RunAction::Schedule { cron },
                None => RunAction::Dispatch,
            })
            &&& dispatching == RunState::Dispatching
            &&& run_step(dispatching, RunEvent::Dispatched) == (RunState::Finished {
                result: Ok(()),
            })
        }),
{
    let e0 = RunEvent::Registered { result: Ok(()) };
    let e1 = RunEvent::Prepared { result: Ok(()) };
    assert(seq![e0, e1].drop_last() =~= seq![e0]);
    assert(seq![e0].drop_last() =~= seq![]);
    reveal_with_fuel(run_all, 3);
}

/// A bot's run fails only where it has no token, or its commands could not be made known,
/// or its scheduler could not be made; in the latter two cases with that failure.
pub proof fn law_run_fails_only_before_scheduling(
    config: Config,
    state: RunState,
    events: Seq<RunEvent>,
)
    requires
        run_starts(config, state),
    ensures
        run_all(state, events) matches RunState::Finished { result: Err(e) } ==> (
        config.tg_token is None || events.contains(RunEvent::Registered { result: Err(e) })
            || events.contains(RunEvent::Prepared { result: Err(e) })),
    decreases events.len(),
{
    if events.len() > 0 {
        let head = events.drop_last();
        law_run_fails_only_before_scheduling(config, state, head);
        assert(events.contains(events.last()));
        assert forall|e: RunEvent| head.contains(e) implies events.contains(e) by {
            let i: int = choose|i: int| 0 <= i < head.len() && head[i] == e;
            assert(events[i] == e);
        }
    }
}

/// Where the bot's commands cannot be made known, or its scheduler cannot be made, its run
/// ends with that failure.
pub proof fn law_failed_preparation_ends_the_run(state: RunState, event: RunEvent)
    requires
        run_takes(state, event),
    ensures
        event matches RunEvent::Registered { result: Err(e) } ==> run_step(state, event) == (
        RunState::Finished { result: Err(e) }),
        event matches RunEvent::Prepared { result: Err(e) } ==> run_step(state, event) == (
        RunState::Finished { result: Err(e) }),
{
}

/// Each outcome of the awaited action brings the end of the bot's run nearer; an outcome
/// that is not awaited, and any after the end, changes nothing.
pub proof fn law_run_progress(state: RunState, event: RunEvent)
    ensures
        run_takes(state, event) ==> run_step(state, event).steps_left() < state.steps_left(),
        !run_takes(state, event) ==> run_step(state, event) == state,
{
}

/// A change of address is announced, then a client is made, then the address is changed,
/// then the result is told; where no client can be made, that is told instead, and the
/// address is left alone.
pub proof fn law_change_is_announced_made_and_told(
    error: ApiError,
    result: Result<ReconnectResult, ApiError>,
)
    ensures
        change_all(
            ChangeState::Announcing,
            seq![
                ChangeEvent::Said,
                ChangeEvent::Connected { outcome: Ok(()) },
                ChangeEvent::Reconnected { result },
            ],
        ) == (ChangeState::Reported { result }),
        change_all(
            ChangeState::Announcing,
            seq![ChangeEvent::Said, ChangeEvent::Connected { outcome: Err(error) }],
        ) == (ChangeState::Unconnected { error }),
{
    let said = ChangeEvent::Said;
    let up = ChangeEvent::Connected { outcome: Ok(()) };
    let down = ChangeEvent::Connected { outcome: Err(error) };
    let told = ChangeEvent::Reconnected { result };
    assert(seq![said, up, told].drop_last() =~= seq![said, up]);
    assert(seq![said, up].drop_last() =~= seq![said]);
    assert(seq![said, down].drop_last() =~= seq![said]);
    assert(seq![said].drop_last() =~= seq![]);
    reveal_with_fuel(change_all, 4);
}

/// A client is made only after the announcement, and the address is changed only where a
/// client was made; what is told is what came of the change, or why no client was made.
pub proof fn law_change_keeps_its_order(state: ChangeState, event: ChangeEvent)
    requires
        change_takes(state, event),
    ensures
        change_step(state, event) is Connecting ==> state is Announcing,
        change_step(state, event) is Changing ==> state is Connecting && event matches
            ChangeEvent::Connected { outcome: Ok(_) },
        change_step(state, event) matches ChangeState::Unconnected { error } ==> state is Connecting
            && event == (ChangeEvent::Connected { outcome: Err(error) }),
        change_step(state, event) matches ChangeState::Reported { result } ==> state is Changing
            && event == (ChangeEvent::Reconnected { result }),
{
}

/// Each outcome of the awaited action brings the end of a change nearer; an outcome that
/// is not awaited, and any after the answer, changes nothing.
pub proof fn law_change_progress(state: ChangeState, event: ChangeEvent)
    ensures
        change_takes(state, event) ==> change_step(state, event).steps_left()
            < state.steps_left(),
        !change_takes(state, event) ==> change_step(state, event) == state,
{
}

/// A command from any chat but the configured one is ignored, whatever it is; without a
/// configured chat every command is.
pub proof fn law_other_chats_are_ignored(
    config: Config,
    chat_id: Seq<char>,
    command: Command,
    action: CommandAction,
)
    requires
        obeyed(config, chat_id, command, action),
        config.tg_chat_id is None || opt_text(config.tg_chat_id) != Some(chat_id),
    ensures
        action is Ignore,
{
}

/// Each outcome of the awaited action brings the end of an examination nearer; an
/// outcome that is not awaited, and any after the end, changes nothing.
pub proof fn law_check_progress(state: CheckState, event: CheckEvent)
    ensures
        check_takes(state, event) ==> check_step(state, event).steps_left() < state.steps_left(),
        !check_takes(state, event) ==> check_step(state, event) == state,
{
}

/// The state of an examination after these events, one by one.
pub open spec fn check_run(state: CheckState, events: Seq<CheckEvent>) -> CheckState
    decreases events.len(),
{
    if events.len() == 0 {
        state
    } else {
        check_run(check_step(state, events[0]), events.drop_first())
    }
}

/// The streaming services are tried only where the machine's own address is the one that
/// is examined, and a report tells of them only where they were tried.
pub proof fn law_streaming_only_on_the_machine_itself(state: CheckState, event: CheckEvent)
    ensures
        check_step(state, event) is Streaming && state !is Streaming ==> (state matches
            CheckState::Locating { ip, .. } && event matches CheckEvent::Located { local_ip }
            && opt_text(local_ip) == Some(ip@)),
        check_step(state, event) matches CheckState::Reported { services: Some(tried), .. } ==> (
        state is Reported || (state is Streaming && event == (CheckEvent::Streamed {
            services: tried,
        }))),
{
}

/// An examination that learns the address reports on it, with the streaming services
/// exactly where the machine's own address is that address.
pub proof fn law_examination_reports(
    ip: String,
    quality: Option<IpQuality>,
    local_ip: Option<String>,
    services: Vec<ServiceStatus>,
)
    ensures
        check_run(
            CheckState::Asking,
            seq![
                CheckEvent::Address { reply: Ok(ip) },
                CheckEvent::Said,
                CheckEvent::Rated { quality },
                CheckEvent::Located { local_ip },
            ],
        ) == (if opt_text(local_ip) == Some(ip@) {
            CheckState::Streaming { ip, quality }
        } else {
            CheckState::Reported { ip, quality, services: None }
        }),
        check_step(CheckState::Streaming { ip, quality }, CheckEvent::Streamed { services }) == (
        CheckState::Reported { ip, quality, services: Some(services) }),
{
    let e0 = CheckEvent::Address { reply: Ok(ip) };
    let e1 = CheckEvent::Said;
    let e2 = CheckEvent::Rated { quality };
    let e3 = CheckEvent::Located { local_ip };
    assert(seq![e0, e1, e2, e3].drop_first() =~= seq![e1, e2, e3]);
    assert(seq![e1, e2, e3].drop_first() =~= seq![e2, e3]);
    assert(seq![e2, e3].drop_first() =~= seq![e3]);
    reveal_with_fuel(check_run, 5);
}

/// With a token the run begins with it and with the configured schedule; without one it ends
/// at once, and tells so.
pub proof fn law_run_begins_with_the_token(config: Config, state: RunState)
    requires
        call_ensures(RunState::open, (&config,), state),
    ensures
        config.tg_token matches Some(token) ==> state == (RunState::Registering {
            token,
            schedule: config.change_cron,
        }),
        config.tg_token is None ==> (state matches RunState::Finished { result: Err(e) }
            && e.message@ == "未配置 TG_TOKEN，请运行 boil setup"@ && e.causes@.len() == 0),
{
    if let RunState::Finished { result: Err(e) } = state {
        assert(texts(e.causes@).len() == e.causes@.len());
    }
}

/// The bot's commands are made known, then the scheduler is made, then a configured schedule
/// is set, as it is configured, and then commands are taken, whatever came of the schedule.
pub proof fn law_run_takes_its_steps(
    token: String,
    cron: String,
    schedule: Option<String>,
    scheduled: Result<(), ApiError>,
    registered: RunState,
    planned: RunState,
    unplanned: RunState,
    dispatching: RunState,
    finished: RunState,
)
    requires
        call_ensures(
            run,
            (
                RunState::Registering { token, schedule },
                RunEvent::Registered { result: Ok(()) },
            ),
            registered,
        ),
        call_ensures(
            run,
            (
                RunState::Preparing { schedule: Some(cron) },
                RunEvent::Prepared { result: Ok(()) },
            ),
            planned,
        ),
        call_ensures(
            run,
            (RunState::Preparing { schedule: None }, RunEvent::Prepared { result: Ok(()) }),
            unplanned,
        ),
        call_ensures(
            run,
            (RunState::Scheduling { cron }, RunEvent::Scheduled { result: scheduled }),
            dispatching,
        ),
        call_ensures(run, (RunState::Dispatching, RunEvent::Dispatched), finished),
    ensures
        registered == (RunState::Preparing { schedule }),
        planned == (RunState::Scheduling { cron }),
        unplanned is Dispatching,
        dispatching is Dispatching,
        finished matches RunState::Finished { result } && result is Ok,
{
}

/// A failure to make the commands known, or to make the scheduler, is the result of the run,
/// as it came.
pub proof fn law_failure_before_scheduling_is_the_result(
    token: String,
    schedule: Option<String>,
    e: ApiError,
    unregistered: RunState,
    unprepared: RunState,
)
    requires
        call_ensures(
            run,
            (
                RunState::Registering { token, schedule },
                RunEvent::Registered { result: Err(e) },
            ),
            unregistered,
        ),
        call_ensures(
            run,
            (RunState::Preparing { schedule }, RunEvent::Prepared { result: Err(e) }),
            unprepared,
        ),
    ensures
        unregistered == (RunState::Finished { result: Err(e) }),
        unprepared == (RunState::Finished { result: Err(e) }),
{
}

/// Each state of the bot's run waits for its own action, with its own token or schedule.
pub proof fn law_run_acts_on_what_it_holds(state: RunState, action: RunAction)
    requires
        call_ensures(RunState::action, (&state,), action),
    ensures
        state matches RunState::Registering { token, .. } ==> action == (RunAction::Register {
            token,
        }),
        action is Prepare <==> state is Preparing,
        state matches RunState::Scheduling { cron } ==> action == (RunAction::Schedule { cron }),
        action is Dispatch <==> state is Dispatching,
        action is Finish <==> state is Finished,
{
}

/// In the configured chat, whatever its id is, no command is ignored and each leads to its
/// own action; an argument is handed on without the white space around it.
pub proof fn law_configured_chat_is_obeyed(
    config: Config,
    id: String,
    chat_id: &str,
    arg: String,
    text: &str,
    inner: &str,
    start: CommandAction,
    status: CommandAction,
    check: CommandAction,
    change: CommandAction,
    timer: CommandAction,
)
    requires
        config.tg_chat_id == Some(id),
        id@ == chat_id@,
        text@ == arg@,
        call_ensures(trim, (text,), inner),
        call_ensures(handle_command, (&config, chat_id, Command::Start), start),
        call_ensures(handle_command, (&config, chat_id, Command::Status), status),
        call_ensures(handle_command, (&config, chat_id, Command::Check), check),
        call_ensures(handle_command, (&config, chat_id, Command::Change), change),
        call_ensures(handle_command, (&config, chat_id, Command::Timer { arg }), timer),
    ensures
        start matches CommandAction::Answer { reply } && reply.html && reply.text@
            == "👋 <b>Boil IP Bot</b>\n\n/status — 查看当前 IP\n/check — 检查 IP 质量\n/change — 换 IP（重拨）\n/timer — 定时换 IP 设置"@,
        status is Status,
        check is Check,
        change is Change,
        timer matches CommandAction::Timer { arg: handed } && handed@ == inner@,
{
}

/// In every other chat, and where no chat is configured, every command is ignored.
pub proof fn law_no_other_chat_is_obeyed(
    config: Config,
    chat_id: &str,
    command: Command,
    action: CommandAction,
)
    requires
        config.tg_chat_id matches Some(id) ==> id@ != chat_id@,
        call_ensures(handle_command, (&config, chat_id, command), action),
    ensures
        action is Ignore,
{
}

/// The answer to the question for the address names it, or tells why it is not known.
pub proof fn law_status_names_the_address(
    ip: String,
    e: ApiError,
    named: BotReply,
    failed: BotReply,
)
    requires
        call_ensures(tg_status, (&Ok::<GetIpResponse, ApiError>(GetIpResponse { ip }),), named),
        call_ensures(tg_status, (&Err::<GetIpResponse, ApiError>(e),), failed),
    ensures
        named.html && named.text@ == "📡 当前 IP: <code>"@ + ip@ + "</code>"@,
        !failed.html && failed.text@ == "❌ 查询失败: "@ + e.message@,
{
}

/// An examination goes from the address to its rating and on to where the machine is, and
/// keeps the address and the rating as they were found; without an address it ends.
pub proof fn law_examination_takes_its_steps(
    ip: String,
    e: ApiError,
    quality: Option<IpQuality>,
    named: CheckState,
    unnamed: CheckState,
    announced: CheckState,
    rated: CheckState,
)
    requires
        call_ensures(tg_check, (CheckState::Asking, CheckEvent::Address { reply: Ok(ip) }), named),
        call_ensures(
            tg_check,
            (CheckState::Asking, CheckEvent::Address { reply: Err(e) }),
            unnamed,
        ),
        call_ensures(tg_check, (CheckState::Announcing { ip }, CheckEvent::Said), announced),
        call_ensures(
            tg_check,
            (CheckState::Rating { ip }, CheckEvent::Rated { quality }),
            rated,
        ),
    ensures
        named == (CheckState::Announcing { ip }),
        unnamed == (CheckState::Failed { error: e }),
        announced == (CheckState::Rating { ip }),
        rated == (CheckState::Locating { ip, quality }),
{
}

/// The streaming services are tried exactly where the machine's own address is known and is
/// the examined one, and are reported as they were found.
pub proof fn law_services_are_tried_at_the_examined_address(
    ip: String,
    quality: Option<IpQuality>,
    local: String,
    services: Vec<ServiceStatus>,
    located: CheckState,
    unlocated: CheckState,
    tried: CheckState,
)
    requires
        call_ensures(
            tg_check,
            (
                CheckState::Locating { ip, quality },
                CheckEvent::Located { local_ip: Some(local) },
            ),
            located,
        ),
        call_ensures(
            tg_check,
            (CheckState::Locating { ip, quality }, CheckEvent::Located { local_ip: None }),
            unlocated,
        ),
        call_ensures(
            tg_check,
            (CheckState::Streaming { ip, quality }, CheckEvent::Streamed { services }),
            tried,
        ),
    ensures
        local@ == ip@ ==> located == (CheckState::Streaming { ip, quality }),
        local@ != ip@ ==> located == (CheckState::Reported { ip, quality, services: None }),
        unlocated == (CheckState::Reported { ip, quality, services: None }),
        tried == (CheckState::Reported { ip, quality, services: Some(services) }),
{
}

/// Each state of an examination waits for its own action, about its own address, and a
/// failure is told with its message.
pub proof fn law_examination_acts_on_its_address(state: CheckState, action: CheckAction)
    requires
        call_ensures(CheckState::action, (&state,), action),
    ensures
        action is GetIp <==> state is Asking,
        state is Announcing ==> (action matches CheckAction::Say { reply } && !reply.html
            && reply.text@ == "🔍 检测中，请稍候..."@),
        state matches CheckState::Rating { ip } ==> action == (CheckAction::Rate { ip }),
        action is Locate <==> state is Locating,
        action is CheckStreaming <==> state is Streaming,
        state matches CheckState::Failed { error } ==> (action matches CheckAction::Answer { reply }
            && !reply.html && reply.text@ == "❌ 查询失败: "@ + error.message@),
        action is Answer <==> state is Failed || state is Reported,
{
}

/// A report tells the rating of the address wherever there is one: its country, its provider
/// and the two labels, whether or not the streaming services were tried.
pub proof fn law_report_tells_the_rating(
    ip: String,
    q: IpQuality,
    services: Option<Vec<ServiceStatus>>,
    kind: &'static str,
    risk: &'static str,
    action: CheckAction,
)
    requires
        call_ensures(IpQuality::ip_type, (&q,), kind),
        call_ensures(IpQuality::cf_risk, (&q,), risk),
        call_ensures(
            CheckState::action,
            (&CheckState::Reported { ip, quality: Some(q), services },),
            action,
        ),
    ensures
        action matches CheckAction::Answer { reply } && occurs(reply.text@, ip@) && occurs(
            reply.text@,
            "地区: "@ + q.country@ + " | ISP: "@ + q.isp@ + "\n类型: "@ + kind@ + " | CF 风险: "@
                + risk@,
        ),
{
    lemma_report_parts(ip@, Some(q@), services);
    let head = "📍 IP: <code>"@;
    let rating = "地区: "@ + q.country@ + " | ISP: "@ + q.isp@ + "\n类型: "@ + kind@ + " | CF 风险: "@
        + risk@;
    let tail = "\n\n"@ + streaming_text(services);
    if let CheckAction::Answer { reply } = action {
        assert(reply.text@ =~= head + ip@ + ("</code>"@ + "\n\n"@ + rating + tail));
        lemma_part_occurs(head, ip@, "</code>"@ + "\n\n"@ + rating + tail);
        assert(reply.text@ =~= (head + ip@ + "</code>"@ + "\n\n"@) + rating + tail);
        lemma_part_occurs(head + ip@ + "</code>"@ + "\n\n"@, rating, tail);
    }
}

/// A report is the address, the rating where there is one, and what is known of the streaming
/// services, with a blank line between each two; where they were tried it shows their table,
/// and where not it tells why.
pub proof fn law_report_has_its_parts(
    ip: String,
    q: IpQuality,
    services: Vec<ServiceStatus>,
    kind: &'static str,
    risk: &'static str,
    lines: Vec<String>,
    table: String,
    rated_and_tried: CheckAction,
    rated: CheckAction,
    tried: CheckAction,
    neither: CheckAction,
)
    requires
        call_ensures(IpQuality::ip_type, (&q,), kind),
        call_ensures(IpQuality::cf_risk, (&q,), risk),
        call_ensures(service_lines, ("  ", &services), lines),
        call_ensures(join, (&lines, "\n"), table),
        call_ensures(
            CheckState::action,
            (&CheckState::Reported { ip, quality: Some(q), services: Some(services) },),
            rated_and_tried,
        ),
        call_ensures(
            CheckState::action,
            (&CheckState::Reported { ip, quality: Some(q), services: None },),
            rated,
        ),
        call_ensures(
            CheckState::action,
            (&CheckState::Reported { ip, quality: None, services: Some(services) },),
            tried,
        ),
        call_ensures(
            CheckState::action,
            (&CheckState::Reported { ip, quality: None, services: None },),
            neither,
        ),
    ensures
        ({
            let head = "📍 IP: <code>"@ + ip@ + "</code>"@ + "\n\n"@;
            let rating = "地区: "@ + q.country@ + " | ISP: "@ + q.isp@ + "\n类型: "@ + kind@
                + " | CF 风险: "@ + risk@ + "\n\n"@;
            let shown = "\n📺 <b>流媒体解锁</b>\n<pre>"@ + table@ + "</pre>"@;
            let skipped = "\n📺 <b>流媒体检测</b>\n运行于非 Boil VPS，跳过（结果无意义）"@;
            &&& rated_and_tried matches CheckAction::Answer { reply } && reply.html && reply.text@
                == head + rating + shown
            &&& rated matches CheckAction::Answer { reply } && reply.html && reply.text@ == head
                + rating + skipped
            &&& tried matches CheckAction::Answer { reply } && reply.html && reply.text@ == head
                + shown
            &&& neither matches CheckAction::Answer { reply } && reply.html && reply.text@ == head
                + skipped
        }),
{
    lemma_report_parts(ip@, Some(q@), Some(services));
    lemma_report_parts(ip@, Some(q@), None);
    lemma_report_parts(ip@, None, Some(services));
    lemma_report_parts(ip@, None, None);
    let head = "📍 IP: <code>"@ + ip@ + "</code>"@ + "\n\n"@;
    let rating = "地区: "@ + q.country@ + " | ISP: "@ + q.isp@ + "\n类型: "@ + kind@ + " | CF 风险: "@
        + risk@ + "\n\n"@;
    if let CheckAction::Answer { reply } = rated_and_tried {
        assert(reply.text@ =~= head + rating + streaming_text(Some(services)));
    }
    if let CheckAction::Answer { reply } = rated {
        assert(reply.text@ =~= head + rating + streaming_text(None));
    }
    if let CheckAction::Answer { reply } = tried {
        assert(reply.text@ =~= head + streaming_text(Some(services)));
    }
    if let CheckAction::Answer { reply } = neither {
        assert(reply.text@ =~= head + streaming_text(None));
    }
}

proof fn lemma_report_parts(
    ip: Seq<char>,
    quality: Option<QualityView>,
    services: Option<Vec<ServiceStatus>>,
)
    ensures
        joined(check_parts(ip, quality, services), "\n\n"@) == "📍 IP: <code>"@ + ip + "</code>"@
            + "\n\n"@ + (match quality {
            Some(q) => rating_text(q) + "\n\n"@,
            None => Seq::empty(),
        }) + streaming_text(services),
{
    let parts = check_parts(ip, quality, services);
    let head = "📍 IP: <code>"@ + ip + "</code>"@;
    let tail = streaming_text(services);
    reveal_with_fuel(joined, 4);
    match quality {
        Some(q) => {
            assert(parts.drop_last() =~= seq![head, rating_text(q)]);
            assert(seq![head, rating_text(q)].drop_last() =~= seq![head]);
            assert(joined(parts, "\n\n"@) =~= head + "\n\n"@ + (rating_text(q) + "\n\n"@) + tail);
        },
        None => {
            assert(parts.drop_last() =~= seq![head]);
            assert(joined(parts, "\n\n"@) =~= head + "\n\n"@ + Seq::empty() + tail);
        },
    }
}

/// The bot's change of address waits for a client where it was announced, changes the
/// address where a client was made, and keeps the result and every failure as it came.
pub proof fn law_change_takes_its_steps(
    e: ApiError,
    result: Result<ReconnectResult, ApiError>,
    announced: ChangeState,
    connected: ChangeState,
    unconnected: ChangeState,
    changed: ChangeState,
)
    requires
        call_ensures(tg_change, (ChangeState::Announcing, ChangeEvent::Said), announced),
        call_ensures(
            tg_change,
            (ChangeState::Connecting, ChangeEvent::Connected { outcome: Ok(()) }),
            connected,
        ),
        call_ensures(
            tg_change,
            (ChangeState::Connecting, ChangeEvent::Connected { outcome: Err(e) }),
            unconnected,
        ),
        call_ensures(
            tg_change,
            (ChangeState::Changing, ChangeEvent::Reconnected { result }),
            changed,
        ),
    ensures
        announced is Connecting,
        connected is Changing,
        unconnected == (ChangeState::Unconnected { error: e }),
        changed == (ChangeState::Reported { result }),
{
}

/// Each state of the bot's change waits for its own action; a failure to make a client and a
/// failed change are told with their messages.
pub proof fn law_change_acts_by_its_state(state: ChangeState, action: ChangeAction)
    requires
        call_ensures(ChangeState::action, (&state,), action),
    ensures
        state is Announcing ==> (action matches ChangeAction::Say { reply } && !reply.html
            && reply.text@ == "⏳ 开始换 IP，请稍候..."@),
        action is Connect <==> state is Connecting,
        action is Reconnect <==> state is Changing,
        state matches ChangeState::Unconnected { error } ==> (action matches ChangeAction::Answer {
            reply,
        } && !reply.html && reply.text@ == "❌ 创建客户端失败: "@ + error.message@),
        state matches ChangeState::Reported { result: Err(e) } ==> (action matches
            ChangeAction::Answer { reply } && !reply.html && reply.text@ == "❌ 换 IP 失败: "@
            + e.message@),
        action is Answer <==> state is Unconnected || state is Reported,
{
}

/// The answer to a change that led to a new address names the old and the new one, tells
/// whether the new one is reachable, and tells its rating wherever there is one.
pub proof fn law_change_answer_names_both_addresses(
    res: ReconnectResult,
    new_ip: String,
    old: &str,
    reach: &'static str,
    action: ChangeAction,
)
    requires
        res.new_ip == Some(new_ip),
        call_ensures(known, (&res.old_ip,), old),
        call_ensures(reach_label, (res.reachable,), reach),
        call_ensures(ChangeState::action, (&ChangeState::Reported { result: Ok(res) },), action),
    ensures
        ({
            let told = "✅ <b>换 IP 完成</b>\n旧 IP: <code>"@ + old@ + "</code>\n新 IP: <code>"@
                + new_ip@ + "</code> <i>"@ + reach@ + "</i>"@;
            &&& action matches ChangeAction::Answer { reply } && reply.html && match res.quality {
                None => reply.text@ == told,
                Some(q) => forall|kind: &'static str, risk: &'static str| #[trigger]
                    call_ensures(IpQuality::ip_type, (&q,), kind) && #[trigger] call_ensures(
                        IpQuality::cf_risk,
                        (&q,),
                        risk,
                    ) ==> reply.text@ == told + ("\n\n📊 <b>IP 质量</b>\n地区: "@ + q.country@
                        + "\nISP: "@ + q.isp@ + "\n类型: "@ + kind@ + "\nCF 风险: "@ + risk@),
            }
        }),
{
    if let ChangeAction::Answer { reply } = action {
        if res.quality is None {
            let told = "✅ <b>换 IP 完成</b>\n旧 IP: <code>"@ + old@ + "</code>\n新 IP: <code>"@
                + new_ip@ + "</code> <i>"@ + reach@ + "</i>"@;
            assert(told + Seq::empty() =~= told);
        }
    }
}

/// The answer to a change without a new address names the old one.
pub proof fn law_unchanged_answer_names_the_old_address(
    res: ReconnectResult,
    old: &str,
    action: ChangeAction,
)
    requires
        res.new_ip is None,
        call_ensures(known, (&res.old_ip,), old),
        call_ensures(ChangeState::action, (&ChangeState::Reported { result: Ok(res) },), action),
    ensures
        action matches ChangeAction::Answer { reply } && reply.html && reply.text@
            == "⚠️ 重拨已触发，但未检测到 IP 变化\n旧 IP: <code>"@ + old@ + "</code>\n请到面板手动确认"@,
{
}

} // verus!
