//! The command that shows, sets and clears when the address is changed by itself.
use vstd::prelude::*;
use vstd::string::*;

use crate::boil::ApiError;
use crate::bot::{obeyed, BotReply, Command, CommandAction, ReplyView};
use crate::config::Config;
use crate::json::opt_text;
use crate::text::{
    ascii_fold, eq_ignore_ascii_case, law_trimming_removes_the_padding, same_ignoring_ascii_case,
    white_space,
};

verus! {

/// What the argument of the command asks for.
pub enum TimerRequest {
    Show,
    Off,
    On { cron: String },
}

/// What `arg` asks for: nothing is a question, `off` in any case clears the schedule,
/// and all else is a schedule.
pub open spec fn requested(arg: String) -> TimerRequest {
    if arg@.len() == 0 {
        TimerRequest::Show
    } else if same_ignoring_ascii_case(arg@, "off"@) {
        TimerRequest::Off
    } else {
        TimerRequest::On { cron: arg }
    }
}

/// What `arg` asks for.
pub fn read_request(arg: String) -> (request: TimerRequest)
    ensures
        request == requested(arg),
{
    if arg.as_str().is_empty() {
        TimerRequest::Show
    } else if eq_ignore_ascii_case(arg.as_str(), "off") {
        TimerRequest::Off
    } else {
        TimerRequest::On { cron: arg }
    }
}

/// How far the bot's command has come. Each state waits for the outcome of one action.
pub enum TimerState {
    /// The running schedule is asked for.
    Showing,
    /// The clearing is stored.
    SavingOff,
    /// The running schedule is cleared.
    Clearing,
    /// The schedule is checked.
    Validating { cron: String },
    /// The schedule is stored.
    Saving { cron: String },
    /// The schedule is made the running one.
    Setting { cron: String },
    /// The answer is given.
    Done { outcome: TimerOutcome },
}

/// How the bot's command ended.
pub enum TimerOutcome {
    /// The running schedule was asked for.
    Current { running: Option<String> },
    /// The schedule is cleared, stored and running.
    Off,
    /// The schedule is set, stored and running.
    On { cron: String },
    /// What was given is no schedule; nothing changed.
    Invalid { error: ApiError },
    /// The change could not be stored; nothing changed.
    NotSaved { error: ApiError },
    /// The change is stored, but the running schedule is the former one.
    NotApplied { error: ApiError },
}

/// What is to be done next.
pub enum TimerAction {
    ReadCurrent,
    Validate { cron: String },
    Save { schedule: Option<String> },
    Clear,
    Apply { cron: String },
    Answer { reply: BotReply },
}

/// What came of an action.
pub enum TimerEvent {
    Current { running: Option<String> },
    Validated { result: Result<(), ApiError> },
    Saved { result: Result<(), ApiError> },
    /// The running schedule was to be set or cleared.
    Applied { result: Result<(), ApiError> },
}

/// The first state of the bot's command.
pub open spec fn timer_start(arg: String) -> TimerState {
    match requested(arg) {
        TimerRequest::Show => TimerState::Showing,
        TimerRequest::Off => TimerState::SavingOff,
        TimerRequest::On { cron } => TimerState::Validating { cron },
    }
}

/// The state that follows `state` when `event` comes. An event that the state does
/// not wait for changes nothing.
pub open spec fn timer_step(state: TimerState, event: TimerEvent) -> TimerState {
    match (state, event) {
        (TimerState::Showing, TimerEvent::Current { running }) => TimerState::Done {
            outcome: TimerOutcome::Current { running },
        },
        (TimerState::SavingOff, TimerEvent::Saved { result: Ok(_) }) => TimerState::Clearing,
        (TimerState::Clearing, TimerEvent::Applied { result: Ok(_) }) => TimerState::Done {
            outcome: TimerOutcome::Off,
        },
        (
            TimerState::Validating { cron },
            TimerEvent::Validated { result: Ok(_) },
        ) => TimerState::Saving { cron },
        (TimerState::Saving { cron }, TimerEvent::Saved { result: Ok(_) }) => TimerState::Setting {
            cron,
        },
        (TimerState::Setting { cron }, TimerEvent::Applied { result: Ok(_) }) => TimerState::Done {
            outcome: TimerOutcome::On { cron },
        },
        (
            TimerState::Validating { .. },
            TimerEvent::Validated { result: Err(error) },
        ) => TimerState::Done { outcome: TimerOutcome::Invalid { error } },
        (
            TimerState::SavingOff | TimerState::Saving { .. },
            TimerEvent::Saved { result: Err(error) },
        ) => TimerState::Done { outcome: TimerOutcome::NotSaved { error } },
        (
            TimerState::Clearing | TimerState::Setting { .. },
            TimerEvent::Applied { result: Err(error) },
        ) => TimerState::Done { outcome: TimerOutcome::NotApplied { error } },
        _ => state,
    }
}

/// The answer that tells how the bot's command ended.
pub open spec fn timer_reply(outcome: TimerOutcome) -> ReplyView {
    match outcome {
        TimerOutcome::Current { running: Some(cron) } => ReplyView {
            text: "⏰ 当前定时换 IP: <code>"@ + cron@
                + "</code>\n\n关闭: /timer off\n修改示例:\n  每6小时: /timer 0 */6 * * *\n  每天3点: /timer 0 3 * * *"@,
            html: true,
        },
        TimerOutcome::Current { running: None } => ReplyView {
            text:
                "⏰ 定时换 IP 未启用\n\n设置示例:\n  每6小时: /timer 0 */6 * * *\n  每天3点: /timer 0 3 * * *"@,
            html: true,
        },
        TimerOutcome::Off => ReplyView { text: "✅ 定时换 IP 已关闭，立即生效"@, html: false },
        TimerOutcome::On { cron } => ReplyView {
            text: "✅ 定时换 IP 已设置: <code>"@ + cron@ + "</code>，立即生效"@,
            html: true,
        },
        TimerOutcome::Invalid { error } => ReplyView {
            text: "❌ "@ + error.message@
                + "\n\n示例:\n  每6小时: 0 */6 * * *\n  每天3点: 0 3 * * *"@,
            html: false,
        },
        TimerOutcome::NotSaved { error } => ReplyView {
            text: "❌ 保存失败: "@ + error.message@,
            html: false,
        },
        TimerOutcome::NotApplied { error } => ReplyView {
            text: "⚠️ 已写入配置，但热更新失败，重启后生效: "@ + error.message@,
            html: false,
        },
    }
}

/// `action` is what `state` waits for the outcome of.
pub open spec fn timer_awaits(state: TimerState, action: TimerAction) -> bool {
    match state {
        TimerState::Showing => action == TimerAction::ReadCurrent,
        TimerState::SavingOff => action == (TimerAction::Save { schedule: None }),
        TimerState::Clearing => action == TimerAction::Clear,
        TimerState::Validating { cron } => action == (TimerAction::Validate { cron }),
        TimerState::Saving { cron } => action == (TimerAction::Save { schedule: Some(cron) }),
        TimerState::Setting { cron } => action == (TimerAction::Apply { cron }),
        TimerState::Done { outcome } => action matches TimerAction::Answer { reply } && reply@
            == timer_reply(outcome),
    }
}

/// `event` is the outcome that `state` waits for.
pub open spec fn timer_takes(state: TimerState, event: TimerEvent) -> bool {
    match state {
        TimerState::Showing => event is Current,
        TimerState::SavingOff | TimerState::Saving { .. } => event is Saved,
        TimerState::Clearing | TimerState::Setting { .. } => event is Applied,
        TimerState::Validating { .. } => event is Validated,
        TimerState::Done { .. } => false,
    }
}

/// The answer that tells how the bot's command ended.
fn reply_to(outcome: &TimerOutcome) -> (reply: BotReply)
    ensures
        reply@ == timer_reply(*outcome),
{
    match outcome {
        TimerOutcome::Current { running: Some(cron) } => BotReply {
            text: "⏰ 当前定时换 IP: <code>".to_string().concat(cron.as_str()).concat(
                "</code>\n\n关闭: /timer off\n修改示例:\n  每6小时: /timer 0 */6 * * *\n  每天3点: /timer 0 3 * * *",
            ),
            html: true,
        },
        TimerOutcome::Current { running: None } => BotReply {
            text:
                "⏰ 定时换 IP 未启用\n\n设置示例:\n  每6小时: /timer 0 */6 * * *\n  每天3点: /timer 0 3 * * *".to_string(),
            html: true,
        },
        TimerOutcome::Off => BotReply {
            text: "✅ 定时换 IP 已关闭，立即生效".to_string(),
            html: false,
        },
        TimerOutcome::On { cron } => BotReply {
            text: "✅ 定时换 IP 已设置: <code>".to_string().concat(cron.as_str()).concat(
                "</code>，立即生效",
            ),
            html: true,
        },
        TimerOutcome::Invalid { error } => BotReply {
            text: "❌ ".to_string().concat(error.message.as_str()).concat(
                "\n\n示例:\n  每6小时: 0 */6 * * *\n  每天3点: 0 3 * * *",
            ),
            html: false,
        },
        TimerOutcome::NotSaved { error } => BotReply {
            text: "❌ 保存失败: ".to_string().concat(error.message.as_str()),
            html: false,
        },
        TimerOutcome::NotApplied { error } => BotReply {
            text: "⚠️ 已写入配置，但热更新失败，重启后生效: ".to_string().concat(
                error.message.as_str(),
            ),
            html: false,
        },
    }
}

impl TimerState {
    /// The first state of the bot's command.
    pub fn open(arg: String) -> (state: Self)
        ensures
            state == timer_start(arg),
    {
        match read_request(arg) {
            TimerRequest::Show => TimerState::Showing,
            TimerRequest::Off => TimerState::SavingOff,
            TimerRequest::On { cron } => TimerState::Validating { cron },
        }
    }

    /// The action whose outcome the state waits for.
    pub fn action(&self) -> (action: TimerAction)
        ensures
            timer_awaits(*self, action),
    {
        match self {
            TimerState::Showing => TimerAction::ReadCurrent,
            TimerState::SavingOff => TimerAction::Save { schedule: None },
            TimerState::Clearing => TimerAction::Clear,
            TimerState::Validating { cron } => TimerAction::Validate { cron: cron.clone() },
            TimerState::Saving { cron } => TimerAction::Save { schedule: Some(cron.clone()) },
            TimerState::Setting { cron } => TimerAction::Apply { cron: cron.clone() },
            TimerState::Done { outcome } => TimerAction::Answer { reply: reply_to(outcome) },
        }
    }

    /// An upper bound of the outcomes that are still to come.
    pub open spec fn steps_left(self) -> nat {
        match self {
            TimerState::Validating { .. } => 3,
            TimerState::SavingOff | TimerState::Saving { .. } => 2,
            TimerState::Showing | TimerState::Clearing | TimerState::Setting { .. } => 1,
            TimerState::Done { .. } => 0,
        }
    }
}

/// Takes in what came of the awaited action of the bot's command.
pub fn tg_timer(state: TimerState, event: TimerEvent) -> (next: TimerState)
    ensures
        next == timer_step(state, event),
{
    match (state, event) {
        (TimerState::Showing, TimerEvent::Current { running }) => TimerState::Done {
            outcome: TimerOutcome::Current { running },
        },
        (TimerState::SavingOff, TimerEvent::Saved { result }) => match result {
            Ok(()) => TimerState::Clearing,
            Err(error) => TimerState::Done { outcome: TimerOutcome::NotSaved { error } },
        },
        (TimerState::Clearing, TimerEvent::Applied { result }) => match result {
            Ok(()) => TimerState::Done { outcome: TimerOutcome::Off },
            Err(error) => TimerState::Done { outcome: TimerOutcome::NotApplied { error } },
        },
        (TimerState::Validating { cron }, TimerEvent::Validated { result }) => match result {
            Ok(()) => TimerState::Saving { cron },
            Err(error) => TimerState::Done { outcome: TimerOutcome::Invalid { error } },
        },
        (TimerState::Saving { cron }, TimerEvent::Saved { result }) => match result {
            Ok(()) => TimerState::Setting { cron },
            Err(error) => TimerState::Done { outcome: TimerOutcome::NotSaved { error } },
        },
        (TimerState::Setting { cron }, TimerEvent::Applied { result }) => match result {
            Ok(()) => TimerState::Done { outcome: TimerOutcome::On { cron } },
            Err(error) => TimerState::Done { outcome: TimerOutcome::NotApplied { error } },
        },
        (state, _) => state,
    }
}

/// How far the command of the command line has come. It leaves the running schedule alone.
pub enum CmdTimerState {
    /// The clearing is stored.
    SavingOff,
    /// The schedule is checked.
    Validating { cron: String },
    /// The schedule is stored.
    Saving { cron: String },
    /// Nothing is left to do.
    Finished { result: Result<CmdTimerOutcome, ApiError> },
}

/// How the command of the command line ended.
pub enum CmdTimerOutcome {
    /// The stored schedule was asked for.
    Current { stored: Option<String> },
    /// The schedule is cleared in the store.
    Off,
    /// The schedule is set in the store.
    On { cron: String },
}

/// What is to be done next.
pub enum CmdTimerAction {
    Validate { cron: String },
    Save { schedule: Option<String> },
    Finish,
}

/// What came of an action.
pub enum CmdTimerEvent {
    Validated { result: Result<(), ApiError> },
    Saved { result: Result<(), ApiError> },
}

/// The first state of the command, where the store holds the schedule `current`.
pub open spec fn cmd_timer_start(current: Option<String>, arg: String) -> CmdTimerState {
    match requested(arg) {
        TimerRequest::Show => CmdTimerState::Finished {
            result: Ok(CmdTimerOutcome::Current { stored: current }),
        },
        TimerRequest::Off => CmdTimerState::SavingOff,
        TimerRequest::On { cron } => CmdTimerState::Validating { cron },
    }
}

/// The state that follows `state` when `event` comes. An event that the state does
/// not wait for changes nothing.
pub open spec fn cmd_timer_step(state: CmdTimerState, event: CmdTimerEvent) -> CmdTimerState {
    match (state, event) {
        (
            CmdTimerState::Validating { cron },
            CmdTimerEvent::Validated { result: Ok(_) },
        ) => CmdTimerState::Saving { cron },
        (
            CmdTimerState::SavingOff,
            CmdTimerEvent::Saved { result: Ok(_) },
        ) => CmdTimerState::Finished { result: Ok(CmdTimerOutcome::Off) },
        (
            CmdTimerState::Saving { cron },
            CmdTimerEvent::Saved { result: Ok(_) },
        ) => CmdTimerState::Finished { result: Ok(CmdTimerOutcome::On { cron }) },
        (
            CmdTimerState::Validating { .. },
            CmdTimerEvent::Validated { result: Err(error) },
        ) => CmdTimerState::Finished { result: Err(error) },
        (
            CmdTimerState::SavingOff | CmdTimerState::Saving { .. },
            CmdTimerEvent::Saved { result: Err(error) },
        ) => CmdTimerState::Finished { result: Err(error) },
        _ => state,
    }
}

/// The action whose outcome `state` waits for.
pub open spec fn cmd_timer_awaited(state: CmdTimerState) -> CmdTimerAction {
    match state {
        CmdTimerState::SavingOff => CmdTimerAction::Save { schedule: None },
        CmdTimerState::Validating { cron } => CmdTimerAction::Validate { cron },
        CmdTimerState::Saving { cron } => CmdTimerAction::Save { schedule: Some(cron) },
        CmdTimerState::Finished { .. } => CmdTimerAction::Finish,
    }
}

impl CmdTimerState {
    /// The first state of the command.
    pub fn open(config: &Config, arg: String) -> (state: Self)
        ensures
            state == cmd_timer_start(config.change_cron, arg),
    {
        match read_request(arg) {
            TimerRequest::Show => {
                let stored = match &config.change_cron {
                    Some(cron) => Some(cron.clone()),
                    None => None,
                };
                CmdTimerState::Finished { result: Ok(CmdTimerOutcome::Current { stored }) }
            },
            TimerRequest::Off => CmdTimerState::SavingOff,
            TimerRequest::On { cron } => CmdTimerState::Validating { cron },
        }
    }

    /// The action whose outcome the state waits for.
    pub fn action(&self) -> (action: CmdTimerAction)
        ensures
            action == cmd_timer_awaited(*self),
    {
        match self {
            CmdTimerState::SavingOff => CmdTimerAction::Save { schedule: None },
            CmdTimerState::Validating { cron } => CmdTimerAction::Validate { cron: cron.clone() },
            CmdTimerState::Saving { cron } => CmdTimerAction::Save { schedule: Some(cron.clone()) },
            CmdTimerState::Finished { .. } => CmdTimerAction::Finish,
        }
    }
}

/// Takes in what came of the awaited action of the command line's command.
pub fn cmd_timer(state: CmdTimerState, event: CmdTimerEvent) -> (next: CmdTimerState)
    ensures
        next == cmd_timer_step(state, event),
{
    match (state, event) {
        (CmdTimerState::Validating { cron }, CmdTimerEvent::Validated { result }) => match result {
            Ok(()) => CmdTimerState::Saving { cron },
            Err(error) => CmdTimerState::Finished { result: Err(error) },
        },
        (CmdTimerState::SavingOff, CmdTimerEvent::Saved { result }) => match result {
            Ok(()) => CmdTimerState::Finished { result: Ok(CmdTimerOutcome::Off) },
            Err(error) => CmdTimerState::Finished { result: Err(error) },
        },
        (CmdTimerState::Saving { cron }, CmdTimerEvent::Saved { result }) => match result {
            Ok(()) => CmdTimerState::Finished { result: Ok(CmdTimerOutcome::On { cron }) },
            Err(error) => CmdTimerState::Finished { result: Err(error) },
        },
        (state, _) => state,
    }
}

/// What the command line prints where the command succeeds.
pub open spec fn cmd_timer_text(outcome: CmdTimerOutcome) -> Seq<char> {
    match outcome {
        CmdTimerOutcome::Current { stored: Some(cron) } => "⏰ 当前定时换 IP: "@ + cron@
            + "\n\n关闭: boil timer off"@,
        CmdTimerOutcome::Current { stored: None } =>
            "⏰ 定时换 IP 未启用\n\n设置示例:\n  每6小时: boil timer \"0 */6 * * *\"\n  每天3点: boil timer \"0 3 * * *\""@,
        CmdTimerOutcome::Off => "✅ 定时换 IP 已关闭"@,
        CmdTimerOutcome::On { cron } => "✅ 定时换 IP 已设置: "@ + cron@
            + "\n重启 boil 后生效"@,
    }
}

/// What the command line prints where the command succeeds.
pub fn cmd_timer_message(outcome: &CmdTimerOutcome) -> (text: String)
    ensures
        text@ == cmd_timer_text(*outcome),
{
    match outcome {
        CmdTimerOutcome::Current { stored: Some(cron) } => "⏰ 当前定时换 IP: ".to_string().concat(
            cron.as_str(),
        ).concat("\n\n关闭: boil timer off"),
        CmdTimerOutcome::Current { stored: None } =>
            "⏰ 定时换 IP 未启用\n\n设置示例:\n  每6小时: boil timer \"0 */6 * * *\"\n  每天3点: boil timer \"0 3 * * *\"".to_string(),
        CmdTimerOutcome::Off => "✅ 定时换 IP 已关闭".to_string(),
        CmdTimerOutcome::On { cron } => "✅ 定时换 IP 已设置: ".to_string().concat(
            cron.as_str(),
        ).concat("\n重启 boil 后生效"),
    }
}

/// The state of the bot's command after these events, one by one.
pub open spec fn timer_run(state: TimerState, events: Seq<TimerEvent>) -> TimerState
    decreases events.len(),
{
    if events.len() == 0 {
        state
    } else {
        timer_step(timer_run(state, events.drop_last()), events.last())
    }
}

/// The state of the command line's command after these events, one by one.
pub open spec fn cmd_timer_run(state: CmdTimerState, events: Seq<CmdTimerEvent>) -> CmdTimerState
    decreases events.len(),
{
    if events.len() == 0 {
        state
    } else {
        cmd_timer_run(cmd_timer_step(state, events[0]), events.drop_first())
    }
}

/// The bot checks a schedule before it stores it, and stores a change before it touches
/// the running schedule: an action of the later kind comes only upon success of the
/// earlier one, and for the same schedule.
pub proof fn law_checked_then_stored_then_applied(
    state: TimerState,
    event: TimerEvent,
    action: TimerAction,
)
    requires
        timer_takes(state, event),
        timer_awaits(timer_step(state, event), action),
    ensures
        action matches TimerAction::Apply { cron } ==> state == (TimerState::Saving { cron })
            && event matches TimerEvent::Saved { result: Ok(_) },
        action is Clear ==> state is SavingOff && event matches TimerEvent::Saved { result: Ok(_) },
        action matches TimerAction::Save { schedule } ==> schedule matches Some(c) && state == (
        TimerState::Validating { cron: c }) && event matches TimerEvent::Validated {
            result: Ok(_),
        },
{
}

/// What the command does, in order, as long as all goes well: it shows the running
/// schedule; or it stores the clearing and then clears; or it checks the schedule, stores
/// it and then applies it.
pub open spec fn timer_plan(arg: String) -> Seq<TimerAction> {
    match requested(arg) {
        TimerRequest::Show => seq![TimerAction::ReadCurrent],
        TimerRequest::Off => seq![TimerAction::Save { schedule: None }, TimerAction::Clear],
        TimerRequest::On { cron } => seq![
            TimerAction::Validate { cron },
            TimerAction::Save { schedule: Some(cron) },
            TimerAction::Apply { cron },
        ],
    }
}

/// The outcome is a success.
pub open spec fn went_well(event: TimerEvent) -> bool {
    match event {
        TimerEvent::Current { .. } => true,
        TimerEvent::Validated { result } => result is Ok,
        TimerEvent::Saved { result } => result is Ok,
        TimerEvent::Applied { result } => result is Ok,
    }
}

/// The outcomes among these events that the command waited for, in order.
pub open spec fn outcomes_taken(arg: String, events: Seq<TimerEvent>) -> Seq<TimerEvent>
    decreases events.len(),
{
    if events.len() == 0 {
        Seq::empty()
    } else {
        let head = events.drop_last();
        if timer_takes(timer_run(timer_start(arg), head), events.last()) {
            outcomes_taken(arg, head).push(events.last())
        } else {
            outcomes_taken(arg, head)
        }
    }
}

/// The outcome ended the command well.
pub open spec fn ended_well(outcome: TimerOutcome) -> bool {
    outcome is Current || outcome is Off || outcome is On
}

/// Whatever happens, the command follows its plan step by step: what it waits for is the
/// next action of the plan, and all before it went well. So it stores at most once, and
/// applies nothing that it has not checked and stored. It ends at the first step that
/// fails, or after the last.
pub proof fn law_timer_follows_its_plan(arg: String, events: Seq<TimerEvent>)
    ensures
        ({
            let state = timer_run(timer_start(arg), events);
            let taken = outcomes_taken(arg, events);
            let plan = timer_plan(arg);
            &&& taken.len() <= plan.len()
            &&& forall|i: int| 0 <= i < taken.len() - 1 ==> went_well(#[trigger] taken[i])
            &&& match state {
                TimerState::Done { outcome } => {
                    &&& taken.len() > 0
                    &&& ended_well(outcome) == went_well(taken.last())
                    &&& ended_well(outcome) ==> taken.len() == plan.len()
                },
                _ => {
                    &&& taken.len() < plan.len()
                    &&& timer_awaits(state, plan[taken.len() as int])
                    &&& taken.len() > 0 ==> went_well(taken.last())
                },
            }
        }),
    decreases events.len(),
{
    if events.len() > 0 {
        let head = events.drop_last();
        law_timer_follows_its_plan(arg, head);
        law_timer_progress(timer_run(timer_start(arg), head), events.last());
        let before = outcomes_taken(arg, head);
        let taken = outcomes_taken(arg, events);
        assert forall|i: int| 0 <= i < taken.len() - 1 implies went_well(#[trigger] taken[i]) by {
            if taken.len() > before.len() && i == before.len() - 1 {
                assert(before.last() == taken[i]);
            } else {
                assert(before[i] == taken[i]);
            }
        }
    }
}

/// The command is answered once: after its end nothing that comes changes the answer.
pub proof fn law_timer_answers_once(arg: String, events: Seq<TimerEvent>, more: Seq<TimerEvent>)
    requires
        timer_run(timer_start(arg), events) is Done,
    ensures
        timer_run(timer_start(arg), events + more) == timer_run(timer_start(arg), events),
    decreases more.len(),
{
    if more.len() == 0 {
        assert(events + more =~= events);
    } else {
        law_timer_answers_once(arg, events, more.drop_last());
        assert((events + more).drop_last() =~= events + more.drop_last());
        assert((events + more).last() == more.last());
    }
}

/// White space around the argument does not matter to the bot: a padded `off`, in any
/// case, switches the schedule off, white space alone asks for it, and a padded schedule
/// is that schedule.
pub proof fn law_padding_of_the_argument_does_not_matter(
    config: Config,
    chat_id: Seq<char>,
    before: Seq<char>,
    word: Seq<char>,
    after: Seq<char>,
    arg: String,
    action: CommandAction,
)
    requires
        forall|i: int| 0 <= i < before.len() ==> white_space(#[trigger] before[i]),
        forall|i: int| 0 <= i < after.len() ==> white_space(#[trigger] after[i]),
        word.len() > 0 && !same_ignoring_ascii_case(word, "off"@) ==> !white_space(word[0])
            && !white_space(word.last()),
        arg@ == before + word + after,
        opt_text(config.tg_chat_id) == Some(chat_id),
        obeyed(config, chat_id, Command::Timer { arg }, action),
    ensures
        action matches CommandAction::Timer { arg: inner } && inner@ == word && (word.len() == 0
            ==> requested(inner) is Show) && (same_ignoring_ascii_case(word, "off"@) ==> requested(
            inner,
        ) is Off) && (word.len() > 0 && !same_ignoring_ascii_case(word, "off"@) ==> requested(
            inner,
        ) == (TimerRequest::On { cron: inner })),
{
    if same_ignoring_ascii_case(word, "off"@) {
        lemma_off_is_not_padded(word);
    }
    law_trimming_removes_the_padding(before, word, after);
    reveal_strlit("off");
}

/// Each outcome of the awaited action brings the end nearer; an outcome that is not
/// awaited, and any after the end, changes nothing.
pub proof fn law_timer_progress(state: TimerState, event: TimerEvent)
    ensures
        timer_takes(state, event) ==> timer_step(state, event).steps_left() < state.steps_left(),
        !timer_takes(state, event) ==> timer_step(state, event) == state,
{
}

/// A schedule that is valid, can be stored and can be applied takes effect; `off`, in
/// any case, clears the schedule where that can be stored and applied; without an
/// argument the running schedule is shown.
pub proof fn law_timer_takes_effect(arg: String, current: Option<String>)
    ensures
        requested(arg) is On ==> timer_run(
            timer_start(arg),
            seq![
                TimerEvent::Validated { result: Ok(()) },
                TimerEvent::Saved { result: Ok(()) },
                TimerEvent::Applied { result: Ok(()) },
            ],
        ) == (TimerState::Done { outcome: TimerOutcome::On { cron: arg } }),
        requested(arg) is Off ==> timer_run(
            timer_start(arg),
            seq![
                TimerEvent::Saved { result: Ok(()) },
                TimerEvent::Applied { result: Ok(()) },
            ],
        ) == (TimerState::Done { outcome: TimerOutcome::Off }),
        requested(arg) is Show ==> timer_run(
            timer_start(arg),
            seq![TimerEvent::Current { running: current }],
        ) == (TimerState::Done { outcome: TimerOutcome::Current { running: current } }),
{
    reveal_with_fuel(timer_run, 4);
    let validated = TimerEvent::Validated { result: Ok(()) };
    let saved = TimerEvent::Saved { result: Ok(()) };
    let applied = TimerEvent::Applied { result: Ok(()) };
    let read = TimerEvent::Current { running: current };
    assert(seq![validated, saved, applied].drop_last() =~= seq![validated, saved]);
    assert(seq![validated, saved].drop_last() =~= seq![validated]);
    assert(seq![validated].drop_last() =~= seq![]);
    assert(seq![saved, applied].drop_last() =~= seq![saved]);
    assert(seq![saved].drop_last() =~= seq![]);
    assert(seq![read].drop_last() =~= seq![]);
}

/// The command line stores a schedule only where it is valid, and prints the stored one
/// without storing anything; a failure of either step is the command's own.
pub proof fn law_cmd_timer_outcomes(
    current: Option<String>,
    arg: String,
    validated: Result<(), ApiError>,
    saved: Result<(), ApiError>,
)
    ensures
        requested(arg) is Show ==> cmd_timer_start(current, arg) == (CmdTimerState::Finished {
            result: Ok(CmdTimerOutcome::Current { stored: current }),
        }),
        requested(arg) is Off ==> cmd_timer_run(
            cmd_timer_start(current, arg),
            seq![CmdTimerEvent::Saved { result: saved }],
        ) == (CmdTimerState::Finished {
            result: match saved {
                Ok(_) => Ok(CmdTimerOutcome::Off),
                Err(e) => Err(e),
            },
        }),
        requested(arg) is On ==> cmd_timer_awaited(cmd_timer_start(current, arg)) == (
        CmdTimerAction::Validate { cron: arg }),
        requested(arg) is On ==> cmd_timer_run(
            cmd_timer_start(current, arg),
            seq![
                CmdTimerEvent::Validated { result: validated },
                CmdTimerEvent::Saved { result: saved },
            ],
        ) == (CmdTimerState::Finished {
            result: match (validated, saved) {
                (Err(e), _) => Err(e),
                (Ok(_), Err(e)) => Err(e),
                (Ok(_), Ok(_)) => Ok(CmdTimerOutcome::On { cron: arg }),
            },
        }),
{
    reveal_with_fuel(cmd_timer_run, 3);
    let v = CmdTimerEvent::Validated { result: validated };
    let s = CmdTimerEvent::Saved { result: saved };
    assert(seq![v, s].drop_first() =~= seq![s]);
}

/// The three letters of `off`, each small or capital.
pub open spec fn spells_off(s: Seq<char>) -> bool {
    &&& s.len() == 3
    &&& s[0] == 'o' || s[0] == 'O'
    &&& s[1] == 'f' || s[1] == 'F'
    &&& s[2] == 'f' || s[2] == 'F'
}

/// An empty argument is a question, the three letters of `off` clear the schedule, and every
/// other argument is a schedule, as it stands.
pub proof fn law_argument_is_a_question_or_off_or_a_schedule(arg: String, request: TimerRequest)
    requires
        call_ensures(read_request, (arg,), request),
    ensures
        request is Show <==> arg@.len() == 0,
        request is Off <==> spells_off(arg@),
        arg@.len() > 0 && !spells_off(arg@) ==> request == (TimerRequest::On { cron: arg }),
{
    lemma_off_is_spelled(arg@);
}

/// The bot's command begins with what is asked for: a question with the running schedule,
/// `off` with the store, and a schedule with its check.
pub proof fn law_command_begins_with_what_is_asked_for(arg: String, state: TimerState)
    requires
        call_ensures(TimerState::open, (arg,), state),
    ensures
        arg@.len() == 0 ==> state is Showing,
        spells_off(arg@) ==> state is SavingOff,
        arg@.len() > 0 && !spells_off(arg@) ==> state == (TimerState::Validating { cron: arg }),
{
    lemma_off_is_spelled(arg@);
}

/// Where a step of the bot's command succeeds, the next one follows with the same schedule,
/// and after the last one the command ends well.
pub proof fn law_success_leads_to_the_next_step(
    cron: String,
    running: Option<String>,
    shown: TimerState,
    stored_off: TimerState,
    cleared: TimerState,
    checked: TimerState,
    stored: TimerState,
    applied: TimerState,
)
    requires
        call_ensures(tg_timer, (TimerState::Showing, TimerEvent::Current { running }), shown),
        call_ensures(
            tg_timer,
            (TimerState::SavingOff, TimerEvent::Saved { result: Ok(()) }),
            stored_off,
        ),
        call_ensures(
            tg_timer,
            (TimerState::Clearing, TimerEvent::Applied { result: Ok(()) }),
            cleared,
        ),
        call_ensures(
            tg_timer,
            (TimerState::Validating { cron }, TimerEvent::Validated { result: Ok(()) }),
            checked,
        ),
        call_ensures(
            tg_timer,
            (TimerState::Saving { cron }, TimerEvent::Saved { result: Ok(()) }),
            stored,
        ),
        call_ensures(
            tg_timer,
            (TimerState::Setting { cron }, TimerEvent::Applied { result: Ok(()) }),
            applied,
        ),
    ensures
        shown == (TimerState::Done { outcome: TimerOutcome::Current { running } }),
        stored_off is Clearing,
        cleared == (TimerState::Done { outcome: TimerOutcome::Off }),
        checked == (TimerState::Saving { cron }),
        stored == (TimerState::Setting { cron }),
        applied == (TimerState::Done { outcome: TimerOutcome::On { cron } }),
{
}

/// Where a step of the bot's command fails, the command ends, and its end tells which step it
/// was and why.
pub proof fn law_failure_ends_the_command(
    state: TimerState,
    error: ApiError,
    unchecked: TimerState,
    unsaved: TimerState,
    unapplied: TimerState,
)
    requires
        call_ensures(tg_timer, (state, TimerEvent::Validated { result: Err(error) }), unchecked),
        call_ensures(tg_timer, (state, TimerEvent::Saved { result: Err(error) }), unsaved),
        call_ensures(tg_timer, (state, TimerEvent::Applied { result: Err(error) }), unapplied),
    ensures
        unchecked == (if state is Validating {
            TimerState::Done { outcome: TimerOutcome::Invalid { error } }
        } else {
            state
        }),
        unsaved == (if state is SavingOff || state is Saving {
            TimerState::Done { outcome: TimerOutcome::NotSaved { error } }
        } else {
            state
        }),
        unapplied == (if state is Clearing || state is Setting {
            TimerState::Done { outcome: TimerOutcome::NotApplied { error } }
        } else {
            state
        }),
{
}

/// Each state of the bot's command waits for its own action, with its own schedule; to
/// switch off is to store that there is none.
pub proof fn law_each_step_acts_on_its_schedule(state: TimerState, action: TimerAction)
    requires
        call_ensures(TimerState::action, (&state,), action),
    ensures
        state is Showing ==> action is ReadCurrent,
        state is SavingOff ==> (action matches TimerAction::Save { schedule } && schedule is None),
        state is Clearing ==> action is Clear,
        state matches TimerState::Validating { cron } ==> action == (TimerAction::Validate {
            cron,
        }),
        state matches TimerState::Saving { cron } ==> (action matches TimerAction::Save { schedule }
            && schedule == Some(cron)),
        state matches TimerState::Setting { cron } ==> action == (TimerAction::Apply { cron }),
        state is Done ==> action is Answer,
{
}

/// The answer to a question names the running schedule, or tells that there is none.
pub proof fn law_answer_names_the_running_schedule(
    cron: String,
    some: TimerAction,
    none: TimerAction,
)
    requires
        call_ensures(
            TimerState::action,
            (&TimerState::Done { outcome: TimerOutcome::Current { running: Some(cron) } },),
            some,
        ),
        call_ensures(
            TimerState::action,
            (&TimerState::Done { outcome: TimerOutcome::Current { running: None } },),
            none,
        ),
    ensures
        some matches TimerAction::Answer { reply } && reply.html && reply.text@
            == "⏰ 当前定时换 IP: <code>"@ + cron@
            + "</code>\n\n关闭: /timer off\n修改示例:\n  每6小时: /timer 0 */6 * * *\n  每天3点: /timer 0 3 * * *"@,
        none matches TimerAction::Answer { reply } && reply.html && reply.text@
            == "⏰ 定时换 IP 未启用\n\n设置示例:\n  每6小时: /timer 0 */6 * * *\n  每天3点: /timer 0 3 * * *"@,
{
}

/// A change that took effect is told, and of a new schedule which it is.
pub proof fn law_answer_tells_what_took_effect(
    cron: String,
    set: TimerAction,
    cleared: TimerAction,
)
    requires
        call_ensures(
            TimerState::action,
            (&TimerState::Done { outcome: TimerOutcome::On { cron } },),
            set,
        ),
        call_ensures(
            TimerState::action,
            (&TimerState::Done { outcome: TimerOutcome::Off },),
            cleared,
        ),
    ensures
        set matches TimerAction::Answer { reply } && reply.html && reply.text@
            == "✅ 定时换 IP 已设置: <code>"@ + cron@ + "</code>，立即生效"@,
        cleared matches TimerAction::Answer { reply } && !reply.html && reply.text@
            == "✅ 定时换 IP 已关闭，立即生效"@,
{
}

/// A failure is told with its message, unmarked, and with the step that failed.
pub proof fn law_answer_tells_the_failure(
    error: ApiError,
    invalid: TimerAction,
    unsaved: TimerAction,
    unapplied: TimerAction,
)
    requires
        call_ensures(
            TimerState::action,
            (&TimerState::Done { outcome: TimerOutcome::Invalid { error } },),
            invalid,
        ),
        call_ensures(
            TimerState::action,
            (&TimerState::Done { outcome: TimerOutcome::NotSaved { error } },),
            unsaved,
        ),
        call_ensures(
            TimerState::action,
            (&TimerState::Done { outcome: TimerOutcome::NotApplied { error } },),
            unapplied,
        ),
    ensures
        invalid matches TimerAction::Answer { reply } && !reply.html && reply.text@ == "❌ "@
            + error.message@ + "\n\n示例:\n  每6小时: 0 */6 * * *\n  每天3点: 0 3 * * *"@,
        unsaved matches TimerAction::Answer { reply } && !reply.html && reply.text@
            == "❌ 保存失败: "@ + error.message@,
        unapplied matches TimerAction::Answer { reply } && !reply.html && reply.text@
            == "⚠️ 已写入配置，但热更新失败，重启后生效: "@ + error.message@,
{
}

/// The command line stores exactly what was asked for, whatever happens: the schedule that
/// was given and checked, or that there is none, and the latter only upon `off`; a question
/// stores nothing.
pub proof fn law_cmd_timer_stores_what_was_asked_for(
    current: Option<String>,
    arg: String,
    events: Seq<CmdTimerEvent>,
)
    ensures
        match cmd_timer_awaited(cmd_timer_run(cmd_timer_start(current, arg), events)) {
            CmdTimerAction::Validate { cron } => cron == arg && arg@.len() > 0 && !spells_off(arg@),
            CmdTimerAction::Save { schedule: Some(cron) } => cron == arg && arg@.len() > 0
                && !spells_off(arg@),
            CmdTimerAction::Save { schedule: None } => spells_off(arg@),
            CmdTimerAction::Finish => true,
        },
{
    lemma_off_is_spelled(arg@);
    lemma_cmd_timer_keeps_its_schedule(cmd_timer_start(current, arg), events);
}

/// A schedule that the check accepts is the next thing that the command line stores, as it
/// was given; `off` stores that there is none, at once; a question shows the stored schedule.
pub proof fn law_cmd_timer_acts_on_its_argument(
    config: Config,
    arg: String,
    first: CmdTimerState,
    action: CmdTimerAction,
    checked: CmdTimerState,
    next: CmdTimerAction,
)
    requires
        call_ensures(CmdTimerState::open, (&config, arg), first),
        call_ensures(CmdTimerState::action, (&first,), action),
        call_ensures(
            cmd_timer,
            (first, CmdTimerEvent::Validated { result: Ok(()) }),
            checked,
        ),
        call_ensures(CmdTimerState::action, (&checked,), next),
    ensures
        arg@.len() == 0 ==> first == (CmdTimerState::Finished {
            result: Ok(CmdTimerOutcome::Current { stored: config.change_cron }),
        }) && action is Finish,
        spells_off(arg@) ==> (action matches CmdTimerAction::Save { schedule } && schedule is None),
        arg@.len() > 0 && !spells_off(arg@) ==> action == (CmdTimerAction::Validate { cron: arg })
            && (next matches CmdTimerAction::Save { schedule } && schedule == Some(arg)),
{
    lemma_off_is_spelled(arg@);
}

/// The command line's command ends where it stored what was asked for, and where a step
/// failed, with that failure.
pub proof fn law_cmd_timer_ends_with_its_last_step(
    state: CmdTimerState,
    error: ApiError,
    saved: CmdTimerState,
    unchecked: CmdTimerState,
    unsaved: CmdTimerState,
)
    requires
        call_ensures(cmd_timer, (state, CmdTimerEvent::Saved { result: Ok(()) }), saved),
        call_ensures(
            cmd_timer,
            (state, CmdTimerEvent::Validated { result: Err(error) }),
            unchecked,
        ),
        call_ensures(cmd_timer, (state, CmdTimerEvent::Saved { result: Err(error) }), unsaved),
    ensures
        state is SavingOff ==> saved == (CmdTimerState::Finished {
            result: Ok(CmdTimerOutcome::Off),
        }),
        state matches CmdTimerState::Saving { cron } ==> saved == (CmdTimerState::Finished {
            result: Ok(CmdTimerOutcome::On { cron }),
        }),
        state is Validating || state is Finished ==> saved == state && unsaved == state,
        state is SavingOff || state is Saving ==> unsaved == (CmdTimerState::Finished {
            result: Err(error),
        }),
        state is Validating ==> unchecked == (CmdTimerState::Finished { result: Err(error) }),
        state !is Validating ==> unchecked == state,
{
}

/// What the command line prints names the schedule that is stored now, or tells that there is
/// none.
pub proof fn law_cmd_timer_prints_the_schedule(
    cron: String,
    shown: String,
    unset: String,
    cleared: String,
    set: String,
)
    requires
        call_ensures(
            cmd_timer_message,
            (&CmdTimerOutcome::Current { stored: Some(cron) },),
            shown,
        ),
        call_ensures(cmd_timer_message, (&CmdTimerOutcome::Current { stored: None },), unset),
        call_ensures(cmd_timer_message, (&CmdTimerOutcome::Off,), cleared),
        call_ensures(cmd_timer_message, (&CmdTimerOutcome::On { cron },), set),
    ensures
        shown@ == "⏰ 当前定时换 IP: "@ + cron@ + "\n\n关闭: boil timer off"@,
        unset@
            == "⏰ 定时换 IP 未启用\n\n设置示例:\n  每6小时: boil timer \"0 */6 * * *\"\n  每天3点: boil timer \"0 3 * * *\""@,
        cleared@ == "✅ 定时换 IP 已关闭"@,
        set@ == "✅ 定时换 IP 已设置: "@ + cron@ + "\n重启 boil 后生效"@,
{
}

proof fn lemma_cmd_timer_keeps_its_schedule(state: CmdTimerState, events: Seq<CmdTimerEvent>)
    ensures
        ({
            let last = cmd_timer_run(state, events);
            &&& last is SavingOff ==> state is SavingOff
            &&& last matches CmdTimerState::Validating { cron } ==> state == (
            CmdTimerState::Validating { cron })
            &&& last matches CmdTimerState::Saving { cron } ==> (state == (
            CmdTimerState::Validating { cron }) || state == (CmdTimerState::Saving { cron }))
        }),
    decreases events.len(),
{
    if events.len() > 0 {
        lemma_cmd_timer_keeps_its_schedule(
            cmd_timer_step(state, events[0]),
            events.drop_first(),
        );
    }
}

/// Only the three letters of `off` are `off` but for the case.
proof fn lemma_off_is_spelled(s: Seq<char>)
    ensures
        same_ignoring_ascii_case(s, "off"@) <==> spells_off(s),
{
    reveal_strlit("off");
    let off = "off"@;
    if same_ignoring_ascii_case(s, off) {
        assert(ascii_fold(s[0]) == ascii_fold(off[0]));
        assert(ascii_fold(s[1]) == ascii_fold(off[1]));
        assert(ascii_fold(s[2]) == ascii_fold(off[2]));
    }
    if spells_off(s) {
        assert forall|i: int| 0 <= i < s.len() implies ascii_fold(#[trigger] s[i]) == ascii_fold(
            off[i],
        ) by {
            assert(i == 0 || i == 1 || i == 2);
        }
    }
}

/// `off`, in any case, has no white space at its ends.
proof fn lemma_off_is_not_padded(word: Seq<char>)
    requires
        same_ignoring_ascii_case(word, "off"@),
    ensures
        word.len() == 3,
        !white_space(word[0]),
        !white_space(word.last()),
{
    reveal_strlit("off");
    assert(ascii_fold(word[0]) == ascii_fold("off"@[0]));
    assert(ascii_fold(word[2]) == ascii_fold("off"@[2]));
}

} // verus!
