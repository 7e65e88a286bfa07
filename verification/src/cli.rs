//! The command line: what its commands print.
use vstd::prelude::*;
use vstd::string::*;

use crate::boil::{ApiError, GetIpResponse};
use crate::json::opt_text;
use crate::quality::{opt_quality, or_unknown, IpQuality, QualityView};
use crate::reconnect::ReconnectResult;
use crate::report::{
    known, on_boil_vps, reach_label, reach_text, runs_at, service_lines, service_texts, terminate,
    terminated, ServiceStatus,
};

verus! {

/// What is printed for the current address.
pub fn cmd_status(result: Result<GetIpResponse, ApiError>) -> (printed: Result<String, ApiError>)
    ensures
        match result {
            Ok(resp) => printed matches Ok(text) && text@ == "📡 当前 IP: "@ + resp.ip@,
            Err(e) => printed == Err::<String, ApiError>(e),
        },
{
    match result {
        Ok(resp) => Ok("📡 当前 IP: ".to_string().concat(resp.ip.as_str())),
        Err(e) => Err(e),
    }
}

/// How far the examination of the address has come. Each state waits for the outcome of
/// one action.
pub enum CmdCheckState {
    /// The address is asked for.
    Asking,
    /// The address is tried and rated.
    Probing { ip: String },
    /// What is known of the address is printed.
    Summarizing { ip: String, reachable: bool, quality: Option<IpQuality> },
    /// The machine's own address is asked for.
    Locating { ip: String },
    /// The trial of the streaming services is announced.
    Announcing,
    /// The streaming services are tried.
    Streaming,
    /// What is known of the services is printed; they are tried only on the machine itself.
    Reporting { services: Option<Vec<ServiceStatus>> },
    /// Nothing is left to do.
    Finished { result: Result<(), ApiError> },
}

/// What is to be done next.
pub enum CmdCheckAction {
    GetIp,
    Probe { ip: String },
    /// The text is printed, and a line break behind it.
    Print { text: String },
    Locate,
    CheckStreaming,
    Finish,
}

/// What came of an action.
pub enum CmdCheckEvent {
    Address { reply: Result<String, ApiError> },
    Probed { reachable: bool, quality: Option<IpQuality> },
    Printed,
    Located { local_ip: Option<String> },
    Streamed { services: Vec<ServiceStatus> },
}

/// The state that follows `state` when `event` comes. An event that the state does
/// not wait for changes nothing.
pub open spec fn cmd_check_step(state: CmdCheckState, event: CmdCheckEvent) -> CmdCheckState {
    match (state, event) {
        (CmdCheckState::Asking, CmdCheckEvent::Address { reply: Ok(ip) }) => CmdCheckState::Probing {
            ip,
        },
        (
            CmdCheckState::Asking,
            CmdCheckEvent::Address { reply: Err(e) },
        ) => CmdCheckState::Finished { result: Err(e) },
        (
            CmdCheckState::Probing { ip },
            CmdCheckEvent::Probed { reachable, quality },
        ) => CmdCheckState::Summarizing { ip, reachable, quality },
        (
            CmdCheckState::Summarizing { ip, .. },
            CmdCheckEvent::Printed,
        ) => CmdCheckState::Locating { ip },
        (
            CmdCheckState::Locating { ip },
            CmdCheckEvent::Located { local_ip },
        ) => if runs_at(local_ip, ip@) {
            CmdCheckState::Announcing
        } else {
            CmdCheckState::Reporting { services: None }
        },
        (CmdCheckState::Announcing, CmdCheckEvent::Printed) => CmdCheckState::Streaming,
        (
            CmdCheckState::Streaming,
            CmdCheckEvent::Streamed { services },
        ) => CmdCheckState::Reporting { services: Some(services) },
        (CmdCheckState::Reporting { .. }, CmdCheckEvent::Printed) => CmdCheckState::Finished {
            result: Ok(()),
        },
        _ => state,
    }
}

/// What is printed of the rating of the address, behind the line that names it.
pub open spec fn summary_rating(quality: Option<QualityView>) -> Seq<char> {
    match quality {
        Some(q) => "\n   地区: "@ + q.country + " | ISP: "@ + q.isp + "\n   类型: "@ + q.ip_type()
            + " | CF 风险: "@ + q.cf_risk(),
        None => Seq::empty(),
    }
}

/// What is printed of the address.
pub open spec fn summary_text(
    ip: Seq<char>,
    reachable: bool,
    quality: Option<QualityView>,
) -> Seq<char> {
    "📍 IP: "@ + ip + "  "@ + reach_text(reachable) + summary_rating(quality) + "\n"@
}

/// What is printed of the streaming services.
pub open spec fn services_text(services: Option<Vec<ServiceStatus>>) -> Seq<char> {
    match services {
        Some(services) => terminated(service_texts("   "@, services@)),
        None =>
            "📺 流媒体检测跳过（当前运行于非 Boil VPS 机器，结果无意义）\n   如需检测，请在 Boil VPS 上直接运行 boil check\n"@,
    }
}

/// `action` is what `state` waits for the outcome of.
pub open spec fn cmd_check_awaits(state: CmdCheckState, action: CmdCheckAction) -> bool {
    match state {
        CmdCheckState::Asking => action is GetIp,
        CmdCheckState::Probing { ip } => action == (CmdCheckAction::Probe { ip }),
        CmdCheckState::Summarizing { ip, reachable, quality } => action matches
            CmdCheckAction::Print { text } && text@ == summary_text(
            ip@,
            reachable,
            opt_quality(quality),
        ),
        CmdCheckState::Locating { .. } => action is Locate,
        CmdCheckState::Announcing => action matches CmdCheckAction::Print { text } && text@
            == "📺 流媒体检测中..."@,
        CmdCheckState::Streaming => action is CheckStreaming,
        CmdCheckState::Reporting { services } => action matches CmdCheckAction::Print { text }
            && text@ == services_text(services),
        CmdCheckState::Finished { .. } => action is Finish,
    }
}

/// `event` is the outcome that `state` waits for.
pub open spec fn cmd_check_takes(state: CmdCheckState, event: CmdCheckEvent) -> bool {
    match state {
        CmdCheckState::Asking => event is Address,
        CmdCheckState::Probing { .. } => event is Probed,
        CmdCheckState::Summarizing { .. } => event is Printed,
        CmdCheckState::Locating { .. } => event is Located,
        CmdCheckState::Announcing => event is Printed,
        CmdCheckState::Streaming => event is Streamed,
        CmdCheckState::Reporting { .. } => event is Printed,
        CmdCheckState::Finished { .. } => false,
    }
}

fn summary(ip: &str, reachable: bool, quality: &Option<IpQuality>) -> (text: String)
    ensures
        text@ == summary_text(ip@, reachable, opt_quality(*quality)),
{
    let rating = match quality {
        Some(q) => "\n   地区: ".to_string().concat(q.country.as_str()).concat(" | ISP: ").concat(
            q.isp.as_str(),
        ).concat("\n   类型: ").concat(q.ip_type()).concat(" | CF 风险: ").concat(q.cf_risk()),
        None => String::new(),
    };
    "📍 IP: ".to_string().concat(ip).concat("  ").concat(reach_label(reachable)).concat(
        rating.as_str(),
    ).concat("\n")
}

fn services_report(services: &Option<Vec<ServiceStatus>>) -> (text: String)
    ensures
        text@ == services_text(*services),
{
    match services {
        Some(services) => terminate(&service_lines("   ", services)),
        None =>
            "📺 流媒体检测跳过（当前运行于非 Boil VPS 机器，结果无意义）\n   如需检测，请在 Boil VPS 上直接运行 boil check\n".to_string(),
    }
}

impl CmdCheckState {
    /// The action whose outcome the state waits for.
    pub fn action(&self) -> (action: CmdCheckAction)
        ensures
            cmd_check_awaits(*self, action),
    {
        match self {
            CmdCheckState::Asking => CmdCheckAction::GetIp,
            CmdCheckState::Probing { ip } => CmdCheckAction::Probe { ip: ip.clone() },
            CmdCheckState::Summarizing { ip, reachable, quality } => CmdCheckAction::Print {
                text: summary(ip.as_str(), *reachable, quality),
            },
            CmdCheckState::Locating { .. } => CmdCheckAction::Locate,
            CmdCheckState::Announcing => CmdCheckAction::Print {
                text: "📺 流媒体检测中...".to_string(),
            },
            CmdCheckState::Streaming => CmdCheckAction::CheckStreaming,
            CmdCheckState::Reporting { services } => CmdCheckAction::Print {
                text: services_report(services),
            },
            CmdCheckState::Finished { .. } => CmdCheckAction::Finish,
        }
    }

    /// An upper bound of the outcomes that are still to come.
    pub open spec fn steps_left(self) -> nat {
        match self {
            CmdCheckState::Asking => 7,
            CmdCheckState::Probing { .. } => 6,
            CmdCheckState::Summarizing { .. } => 5,
            CmdCheckState::Locating { .. } => 4,
            CmdCheckState::Announcing => 3,
            CmdCheckState::Streaming => 2,
            CmdCheckState::Reporting { .. } => 1,
            CmdCheckState::Finished { .. } => 0,
        }
    }
}

/// Takes in what came of the awaited action of an examination.
pub fn cmd_check(state: CmdCheckState, event: CmdCheckEvent) -> (next: CmdCheckState)
    ensures
        next == cmd_check_step(state, event),
{
    match (state, event) {
        (CmdCheckState::Asking, CmdCheckEvent::Address { reply }) => match reply {
            Ok(ip) => CmdCheckState::Probing { ip },
            Err(e) => CmdCheckState::Finished { result: Err(e) },
        },
        (
            CmdCheckState::Probing { ip },
            CmdCheckEvent::Probed { reachable, quality },
        ) => CmdCheckState::Summarizing { ip, reachable, quality },
        (
            CmdCheckState::Summarizing { ip, reachable: _, quality: _ },
            CmdCheckEvent::Printed,
        ) => CmdCheckState::Locating { ip },
        (CmdCheckState::Locating { ip }, CmdCheckEvent::Located { local_ip }) => {
            if on_boil_vps(&local_ip, ip.as_str()) {
                CmdCheckState::Announcing
            } else {
                CmdCheckState::Reporting { services: None }
            }
        },
        (CmdCheckState::Announcing, CmdCheckEvent::Printed) => CmdCheckState::Streaming,
        (
            CmdCheckState::Streaming,
            CmdCheckEvent::Streamed { services },
        ) => CmdCheckState::Reporting { services: Some(services) },
        (
            CmdCheckState::Reporting { services: _ },
            CmdCheckEvent::Printed,
        ) => CmdCheckState::Finished { result: Ok(()) },
        (state, _) => state,
    }
}

/// What is printed of the rating of a new address, on lines of its own.
pub open spec fn new_rating_text(quality: Option<QualityView>) -> Seq<char> {
    match quality {
        Some(q) => "\n📊 IP 质量\n   地区: "@ + q.country + "\n   ISP:  "@ + q.isp + "\n   类型: "@
            + q.ip_type() + "\n   CF 风险: "@ + q.cf_risk(),
        None => Seq::empty(),
    }
}

/// What is printed of a change of address.
pub open spec fn change_text(res: ReconnectResult) -> Seq<char> {
    match res.new_ip {
        Some(new_ip) => "\n✅ 换 IP 完成\n   旧 IP: "@ + or_unknown(opt_text(res.old_ip))
            + "\n   新 IP: "@ + new_ip@ + "  "@ + reach_text(res.reachable) + "\n"@
            + new_rating_text(opt_quality(res.quality)),
        None => "⚠️  重拨已触发，但未检测到 IP 变化\n   旧 IP: "@ + or_unknown(
            opt_text(res.old_ip),
        ) + "\n   请到面板手动确认"@,
    }
}

fn new_rating(quality: &Option<IpQuality>) -> (text: String)
    ensures
        text@ == new_rating_text(opt_quality(*quality)),
{
    match quality {
        Some(q) => "\n📊 IP 质量\n   地区: ".to_string().concat(q.country.as_str()).concat(
            "\n   ISP:  ",
        ).concat(q.isp.as_str()).concat("\n   类型: ").concat(q.ip_type()).concat(
            "\n   CF 风险: ",
        ).concat(q.cf_risk()),
        None => String::new(),
    }
}

/// What is printed of a change of address.
fn change_report(res: &ReconnectResult) -> (text: String)
    ensures
        text@ == change_text(*res),
{
    match &res.new_ip {
        Some(new_ip) => {
            let rating = new_rating(&res.quality);
            "\n✅ 换 IP 完成\n   旧 IP: ".to_string().concat(known(&res.old_ip)).concat(
                "\n   新 IP: ",
            ).concat(new_ip.as_str()).concat("  ").concat(reach_label(res.reachable)).concat(
                "\n",
            ).concat(rating.as_str())
        },
        None => "⚠️  重拨已触发，但未检测到 IP 变化\n   旧 IP: ".to_string().concat(
            known(&res.old_ip),
        ).concat("\n   请到面板手动确认"),
    }
}

/// How far the change of address has come. Each state waits for the outcome of one action.
pub enum CmdChangeState {
    /// A client of the panel is made.
    Connecting,
    /// The change is announced.
    Announcing,
    /// The address is changed.
    Changing,
    /// What the change led to is printed.
    Printing { res: ReconnectResult },
    /// Nothing is left to do.
    Finished { result: Result<(), ApiError> },
}

/// What is to be done next.
pub enum CmdChangeAction {
    Connect,
    /// The text is printed, and a line break behind it.
    Print { text: String },
    Reconnect,
    Finish,
}

/// What came of an action.
pub enum CmdChangeEvent {
    Connected { outcome: Result<(), ApiError> },
    Printed,
    Reconnected { result: Result<ReconnectResult, ApiError> },
}

/// The state that follows `state` when `event` comes. An event that the state does
/// not wait for changes nothing.
pub open spec fn cmd_change_step(state: CmdChangeState, event: CmdChangeEvent) -> CmdChangeState {
    match (state, event) {
        (
            CmdChangeState::Connecting,
            CmdChangeEvent::Connected { outcome: Ok(_) },
        ) => CmdChangeState::Announcing,
        (
            CmdChangeState::Connecting,
            CmdChangeEvent::Connected { outcome: Err(e) },
        ) => CmdChangeState::Finished { result: Err(e) },
        (CmdChangeState::Announcing, CmdChangeEvent::Printed) => CmdChangeState::Changing,
        (
            CmdChangeState::Changing,
            CmdChangeEvent::Reconnected { result: Ok(res) },
        ) => CmdChangeState::Printing { res },
        (
            CmdChangeState::Changing,
            CmdChangeEvent::Reconnected { result: Err(e) },
        ) => CmdChangeState::Finished { result: Err(e) },
        (CmdChangeState::Printing { .. }, CmdChangeEvent::Printed) => CmdChangeState::Finished {
            result: Ok(()),
        },
        _ => state,
    }
}

/// `action` is what `state` waits for the outcome of.
pub open spec fn cmd_change_awaits(state: CmdChangeState, action: CmdChangeAction) -> bool {
    match state {
        CmdChangeState::Connecting => action is Connect,
        CmdChangeState::Announcing => action matches CmdChangeAction::Print { text } && text@
            == "⏳ 换 IP 中..."@,
        CmdChangeState::Changing => action is Reconnect,
        CmdChangeState::Printing { res } => action matches CmdChangeAction::Print { text } && text@
            == change_text(res),
        CmdChangeState::Finished { .. } => action is Finish,
    }
}

/// `event` is the outcome that `state` waits for.
pub open spec fn cmd_change_takes(state: CmdChangeState, event: CmdChangeEvent) -> bool {
    match state {
        CmdChangeState::Connecting => event is Connected,
        CmdChangeState::Announcing => event is Printed,
        CmdChangeState::Changing => event is Reconnected,
        CmdChangeState::Printing { .. } => event is Printed,
        CmdChangeState::Finished { .. } => false,
    }
}

impl CmdChangeState {
    /// The action whose outcome the state waits for.
    pub fn action(&self) -> (action: CmdChangeAction)
        ensures
            cmd_change_awaits(*self, action),
    {
        match self {
            CmdChangeState::Connecting => CmdChangeAction::Connect,
            CmdChangeState::Announcing => CmdChangeAction::Print {
                text: "⏳ 换 IP 中...".to_string(),
            },
            CmdChangeState::Changing => CmdChangeAction::Reconnect,
            CmdChangeState::Printing { res } => CmdChangeAction::Print {
                text: change_report(res),
            },
            CmdChangeState::Finished { .. } => CmdChangeAction::Finish,
        }
    }

    /// An upper bound of the outcomes that are still to come.
    pub open spec fn steps_left(self) -> nat {
        match self {
            CmdChangeState::Connecting => 4,
            CmdChangeState::Announcing => 3,
            CmdChangeState::Changing => 2,
            CmdChangeState::Printing { .. } => 1,
            CmdChangeState::Finished { .. } => 0,
        }
    }
}

/// Takes in what came of the awaited action of a change of address.
pub fn cmd_change(state: CmdChangeState, event: CmdChangeEvent) -> (next: CmdChangeState)
    ensures
        next == cmd_change_step(state, event),
{
    match (state, event) {
        (CmdChangeState::Connecting, CmdChangeEvent::Connected { outcome }) => match outcome {
            Ok(()) => CmdChangeState::Announcing,
            Err(e) => CmdChangeState::Finished { result: Err(e) },
        },
        (CmdChangeState::Announcing, CmdChangeEvent::Printed) => CmdChangeState::Changing,
        (CmdChangeState::Changing, CmdChangeEvent::Reconnected { result }) => match result {
            Ok(res) => CmdChangeState::Printing { res },
            Err(e) => CmdChangeState::Finished { result: Err(e) },
        },
        (
            CmdChangeState::Printing { res: _ },
            CmdChangeEvent::Printed,
        ) => CmdChangeState::Finished { result: Ok(()) },
        (state, _) => state,
    }
}

/// The state of a change of address after these events, one by one.
pub open spec fn cmd_change_all(
    state: CmdChangeState,
    events: Seq<CmdChangeEvent>,
) -> CmdChangeState
    decreases events.len(),
{
    if events.len() == 0 {
        state
    } else {
        cmd_change_step(cmd_change_all(state, events.drop_last()), events.last())
    }
}

/// A client is made before a change is announced, and the change is announced before it
/// is made; a failure to make the client prints nothing, and a failed change prints
/// nothing behind the announcement. Either failure is the command's own.
pub proof fn law_cmd_change_outcomes(error: ApiError, result: Result<ReconnectResult, ApiError>)
    ensures
        cmd_change_all(
            CmdChangeState::Connecting,
            seq![CmdChangeEvent::Connected { outcome: Err(error) }],
        ) == (CmdChangeState::Finished { result: Err(error) }),
        cmd_change_all(
            CmdChangeState::Connecting,
            seq![
                CmdChangeEvent::Connected { outcome: Ok(()) },
                CmdChangeEvent::Printed,
                CmdChangeEvent::Reconnected { result },
            ],
        ) == (match result {
            Ok(res) => CmdChangeState::Printing { res },
            Err(e) => CmdChangeState::Finished { result: Err(e) },
        }),
        result matches Ok(res) ==> cmd_change_step(
            CmdChangeState::Printing { res },
            CmdChangeEvent::Printed,
        ) == (CmdChangeState::Finished { result: Ok(()) }),
{
    let up = CmdChangeEvent::Connected { outcome: Ok(()) };
    let down = CmdChangeEvent::Connected { outcome: Err(error) };
    let printed = CmdChangeEvent::Printed;
    let told = CmdChangeEvent::Reconnected { result };
    assert(seq![up, printed, told].drop_last() =~= seq![up, printed]);
    assert(seq![up, printed].drop_last() =~= seq![up]);
    assert(seq![up].drop_last() =~= seq![]);
    assert(seq![down].drop_last() =~= seq![]);
    reveal_with_fuel(cmd_change_all, 4);
}

/// A change is announced only where a client was made, and made only after the
/// announcement; what is printed behind that is what came of the change.
pub proof fn law_cmd_change_keeps_its_order(state: CmdChangeState, event: CmdChangeEvent)
    requires
        cmd_change_takes(state, event),
    ensures
        cmd_change_step(state, event) is Announcing ==> state is Connecting && event matches
            CmdChangeEvent::Connected { outcome: Ok(_) },
        cmd_change_step(state, event) is Changing ==> state is Announcing,
        cmd_change_step(state, event) matches CmdChangeState::Printing { res } ==> state is Changing
            && event == (CmdChangeEvent::Reconnected { result: Ok(res) }),
{
}

/// Each outcome of the awaited action brings the end of a change nearer; an outcome that
/// is not awaited, and any after the end, changes nothing.
pub proof fn law_cmd_change_progress(state: CmdChangeState, event: CmdChangeEvent)
    ensures
        cmd_change_takes(state, event) ==> cmd_change_step(state, event).steps_left()
            < state.steps_left(),
        !cmd_change_takes(state, event) ==> cmd_change_step(state, event) == state,
{
}

/// Each outcome of the awaited action brings the end of an examination nearer; an
/// outcome that is not awaited, and any after the end, changes nothing.
pub proof fn law_cmd_check_progress(state: CmdCheckState, event: CmdCheckEvent)
    ensures
        cmd_check_takes(state, event) ==> cmd_check_step(state, event).steps_left()
            < state.steps_left(),
        !cmd_check_takes(state, event) ==> cmd_check_step(state, event) == state,
{
}

/// The state of an examination after these events, one by one.
pub open spec fn cmd_check_run(state: CmdCheckState, events: Seq<CmdCheckEvent>) -> CmdCheckState
    decreases events.len(),
{
    if events.len() == 0 {
        state
    } else {
        cmd_check_run(cmd_check_step(state, events[0]), events.drop_first())
    }
}

/// The streaming services are tried only where the machine's own address is the one that
/// is examined, and what is printed tells of them only where they were tried.
pub proof fn law_cmd_streaming_only_on_the_machine_itself(
    state: CmdCheckState,
    event: CmdCheckEvent,
)
    ensures
        cmd_check_step(state, event) is Announcing && state !is Announcing ==> (state matches
            CmdCheckState::Locating { ip } && event matches CmdCheckEvent::Located { local_ip }
            && opt_text(local_ip) == Some(ip@)),
        cmd_check_step(state, event) is Streaming && state !is Streaming ==> state is Announcing,
        cmd_check_step(state, event) matches CmdCheckState::Reporting { services: Some(tried) } ==> (
        state is Reporting || (state is Streaming && event == (CmdCheckEvent::Streamed {
            services: tried,
        }))),
{
}

/// An examination that learns the address prints what is known of it, and tries the
/// streaming services exactly where the machine's own address is that address.
pub proof fn law_cmd_examination_reports(
    ip: String,
    reachable: bool,
    quality: Option<IpQuality>,
    local_ip: Option<String>,
)
    ensures
        cmd_check_run(
            CmdCheckState::Asking,
            seq![
                CmdCheckEvent::Address { reply: Ok(ip) },
                CmdCheckEvent::Probed { reachable, quality },
                CmdCheckEvent::Printed,
                CmdCheckEvent::Located { local_ip },
                CmdCheckEvent::Printed,
            ],
        ) == (if opt_text(local_ip) == Some(ip@) {
            CmdCheckState::Streaming
        } else {
            CmdCheckState::Finished { result: Ok(()) }
        }),
{
    let e0 = CmdCheckEvent::Address { reply: Ok(ip) };
    let e1 = CmdCheckEvent::Probed { reachable, quality };
    let e2 = CmdCheckEvent::Printed;
    let e3 = CmdCheckEvent::Located { local_ip };
    assert(seq![e0, e1, e2, e3, e2].drop_first() =~= seq![e1, e2, e3, e2]);
    assert(seq![e1, e2, e3, e2].drop_first() =~= seq![e2, e3, e2]);
    assert(seq![e2, e3, e2].drop_first() =~= seq![e3, e2]);
    assert(seq![e3, e2].drop_first() =~= seq![e2]);
    reveal_with_fuel(cmd_check_run, 6);
}

/// The address is printed as it was named; a failure is the command's own, as it came.
pub proof fn law_cmd_status_names_the_address(
    ip: String,
    e: ApiError,
    named: Result<String, ApiError>,
    failed: Result<String, ApiError>,
)
    requires
        call_ensures(cmd_status, (Ok::<GetIpResponse, ApiError>(GetIpResponse { ip }),), named),
        call_ensures(cmd_status, (Err::<GetIpResponse, ApiError>(e),), failed),
    ensures
        named matches Ok(text) && text@ == "📡 当前 IP: "@ + ip@,
        failed matches Err(f) && f == e,
{
}

/// An examination goes from the address to its trial and rating, prints what it learned, as
/// it was found, and goes on to where the machine is; without an address it ends with that
/// failure.
pub proof fn law_cmd_examination_takes_its_steps(
    ip: String,
    e: ApiError,
    reachable: bool,
    quality: Option<IpQuality>,
    named: CmdCheckState,
    unnamed: CmdCheckState,
    probed: CmdCheckState,
    printed: CmdCheckState,
)
    requires
        call_ensures(
            cmd_check,
            (CmdCheckState::Asking, CmdCheckEvent::Address { reply: Ok(ip) }),
            named,
        ),
        call_ensures(
            cmd_check,
            (CmdCheckState::Asking, CmdCheckEvent::Address { reply: Err(e) }),
            unnamed,
        ),
        call_ensures(
            cmd_check,
            (CmdCheckState::Probing { ip }, CmdCheckEvent::Probed { reachable, quality }),
            probed,
        ),
        call_ensures(
            cmd_check,
            (CmdCheckState::Summarizing { ip, reachable, quality }, CmdCheckEvent::Printed),
            printed,
        ),
    ensures
        named == (CmdCheckState::Probing { ip }),
        unnamed == (CmdCheckState::Finished { result: Err(e) }),
        probed == (CmdCheckState::Summarizing { ip, reachable, quality }),
        printed == (CmdCheckState::Locating { ip }),
{
}

/// The streaming services are announced and tried exactly where the machine's own address is
/// known and is the examined one, and are printed as they were found; then the command ends
/// well.
pub proof fn law_cmd_services_are_tried_at_the_examined_address(
    ip: String,
    local: String,
    services: Vec<ServiceStatus>,
    known_services: Option<Vec<ServiceStatus>>,
    located: CmdCheckState,
    unlocated: CmdCheckState,
    announced: CmdCheckState,
    tried: CmdCheckState,
    finished: CmdCheckState,
)
    requires
        call_ensures(
            cmd_check,
            (
                CmdCheckState::Locating { ip },
                CmdCheckEvent::Located { local_ip: Some(local) },
            ),
            located,
        ),
        call_ensures(
            cmd_check,
            (CmdCheckState::Locating { ip }, CmdCheckEvent::Located { local_ip: None }),
            unlocated,
        ),
        call_ensures(
            cmd_check,
            (CmdCheckState::Announcing, CmdCheckEvent::Printed),
            announced,
        ),
        call_ensures(
            cmd_check,
            (CmdCheckState::Streaming, CmdCheckEvent::Streamed { services }),
            tried,
        ),
        call_ensures(
            cmd_check,
            (CmdCheckState::Reporting { services: known_services }, CmdCheckEvent::Printed),
            finished,
        ),
    ensures
        local@ == ip@ ==> located is Announcing,
        local@ != ip@ ==> located == (CmdCheckState::Reporting { services: None }),
        unlocated == (CmdCheckState::Reporting { services: None }),
        announced is Streaming,
        tried == (CmdCheckState::Reporting { services: Some(services) }),
        finished matches CmdCheckState::Finished { result } && result is Ok,
{
}

/// Each state of an examination waits for its own action, about its own address.
pub proof fn law_cmd_examination_acts_on_its_address(
    state: CmdCheckState,
    action: CmdCheckAction,
)
    requires
        call_ensures(CmdCheckState::action, (&state,), action),
    ensures
        action is GetIp <==> state is Asking,
        state matches CmdCheckState::Probing { ip } ==> action == (CmdCheckAction::Probe { ip }),
        action is Locate <==> state is Locating,
        state is Announcing ==> (action matches CmdCheckAction::Print { text } && text@
            == "📺 流媒体检测中..."@),
        action is CheckStreaming <==> state is Streaming,
        action is Print <==> state is Summarizing || state is Announcing || state is Reporting,
        action is Finish <==> state is Finished,
{
}

/// What is printed of an address names it, tells whether it is reachable, and tells its
/// rating wherever there is one.
pub proof fn law_summary_names_the_address(
    ip: String,
    reachable: bool,
    q: IpQuality,
    kind: &'static str,
    risk: &'static str,
    reach: &'static str,
    rated: CmdCheckAction,
    unrated: CmdCheckAction,
)
    requires
        call_ensures(IpQuality::ip_type, (&q,), kind),
        call_ensures(IpQuality::cf_risk, (&q,), risk),
        call_ensures(reach_label, (reachable,), reach),
        call_ensures(
            CmdCheckState::action,
            (&CmdCheckState::Summarizing { ip, reachable, quality: Some(q) },),
            rated,
        ),
        call_ensures(
            CmdCheckState::action,
            (&CmdCheckState::Summarizing { ip, reachable, quality: None },),
            unrated,
        ),
    ensures
        rated matches CmdCheckAction::Print { text } && text@ == "📍 IP: "@ + ip@ + "  "@ + reach@
            + ("\n   地区: "@ + q.country@ + " | ISP: "@ + q.isp@ + "\n   类型: "@ + kind@
            + " | CF 风险: "@ + risk@) + "\n"@,
        unrated matches CmdCheckAction::Print { text } && text@ == "📍 IP: "@ + ip@ + "  "@ + reach@
            + "\n"@,
{
    if let CmdCheckAction::Print { text } = unrated {
        assert(text@ =~= "📍 IP: "@ + ip@ + "  "@ + reach@ + "\n"@);
    }
}

/// What is printed of the streaming services is their table where they were tried, and
/// otherwise why not.
pub proof fn law_services_are_printed_where_tried(
    services: Vec<ServiceStatus>,
    lines: Vec<String>,
    table: String,
    tried: CmdCheckAction,
    untried: CmdCheckAction,
)
    requires
        call_ensures(service_lines, ("   ", &services), lines),
        call_ensures(terminate, (&lines,), table),
        call_ensures(
            CmdCheckState::action,
            (&CmdCheckState::Reporting { services: Some(services) },),
            tried,
        ),
        call_ensures(
            CmdCheckState::action,
            (&CmdCheckState::Reporting { services: None },),
            untried,
        ),
    ensures
        tried matches CmdCheckAction::Print { text } && text@ == table@,
        untried matches CmdCheckAction::Print { text } && text@
            == "📺 流媒体检测跳过（当前运行于非 Boil VPS 机器，结果无意义）\n   如需检测，请在 Boil VPS 上直接运行 boil check\n"@,
{
}

/// The change of address is announced where a client was made, is made behind that, and its
/// result is printed as it came; either failure is the command's own, as it came.
pub proof fn law_cmd_change_takes_its_steps(
    e: ApiError,
    res: ReconnectResult,
    connected: CmdChangeState,
    unconnected: CmdChangeState,
    announced: CmdChangeState,
    changed: CmdChangeState,
    failed: CmdChangeState,
    printed: CmdChangeState,
)
    requires
        call_ensures(
            cmd_change,
            (CmdChangeState::Connecting, CmdChangeEvent::Connected { outcome: Ok(()) }),
            connected,
        ),
        call_ensures(
            cmd_change,
            (CmdChangeState::Connecting, CmdChangeEvent::Connected { outcome: Err(e) }),
            unconnected,
        ),
        call_ensures(
            cmd_change,
            (CmdChangeState::Announcing, CmdChangeEvent::Printed),
            announced,
        ),
        call_ensures(
            cmd_change,
            (CmdChangeState::Changing, CmdChangeEvent::Reconnected { result: Ok(res) }),
            changed,
        ),
        call_ensures(
            cmd_change,
            (CmdChangeState::Changing, CmdChangeEvent::Reconnected { result: Err(e) }),
            failed,
        ),
        call_ensures(
            cmd_change,
            (CmdChangeState::Printing { res }, CmdChangeEvent::Printed),
            printed,
        ),
    ensures
        connected is Announcing,
        unconnected == (CmdChangeState::Finished { result: Err(e) }),
        announced is Changing,
        changed == (CmdChangeState::Printing { res }),
        failed == (CmdChangeState::Finished { result: Err(e) }),
        printed matches CmdChangeState::Finished { result } && result is Ok,
{
}

/// Each state of a change waits for its own action.
pub proof fn law_cmd_change_acts_by_its_state(state: CmdChangeState, action: CmdChangeAction)
    requires
        call_ensures(CmdChangeState::action, (&state,), action),
    ensures
        action is Connect <==> state is Connecting,
        state is Announcing ==> (action matches CmdChangeAction::Print { text } && text@
            == "⏳ 换 IP 中..."@),
        action is Reconnect <==> state is Changing,
        action is Print <==> state is Announcing || state is Printing,
        action is Finish <==> state is Finished,
{
}

/// What is printed of a change that led to a new address names the old and the new one, tells
/// whether the new one is reachable, and tells its rating wherever there is one.
pub proof fn law_printed_change_names_both_addresses(
    res: ReconnectResult,
    new_ip: String,
    old: &str,
    reach: &'static str,
    action: CmdChangeAction,
)
    requires
        res.new_ip == Some(new_ip),
        call_ensures(known, (&res.old_ip,), old),
        call_ensures(reach_label, (res.reachable,), reach),
        call_ensures(CmdChangeState::action, (&CmdChangeState::Printing { res },), action),
    ensures
        ({
            let told = "\n✅ 换 IP 完成\n   旧 IP: "@ + old@ + "\n   新 IP: "@ + new_ip@ + "  "@
                + reach@ + "\n"@;
            &&& action matches CmdChangeAction::Print { text } && match res.quality {
                None => text@ == told,
                Some(q) => forall|kind: &'static str, risk: &'static str| #[trigger]
                    call_ensures(IpQuality::ip_type, (&q,), kind) && #[trigger] call_ensures(
                        IpQuality::cf_risk,
                        (&q,),
                        risk,
                    ) ==> text@ == told + ("\n📊 IP 质量\n   地区: "@ + q.country@
                        + "\n   ISP:  "@ + q.isp@ + "\n   类型: "@ + kind@ + "\n   CF 风险: "@
                        + risk@),
            }
        }),
{
    if res.quality is None {
        let told = "\n✅ 换 IP 完成\n   旧 IP: "@ + old@ + "\n   新 IP: "@ + new_ip@ + "  "@ + reach@
            + "\n"@;
        assert(told + Seq::empty() =~= told);
    }
}

/// What is printed of a change without a new address names the old one.
pub proof fn law_printed_unchanged_names_the_old_address(
    res: ReconnectResult,
    old: &str,
    action: CmdChangeAction,
)
    requires
        res.new_ip is None,
        call_ensures(known, (&res.old_ip,), old),
        call_ensures(CmdChangeState::action, (&CmdChangeState::Printing { res },), action),
    ensures
        action matches CmdChangeAction::Print { text } && text@
            == "⚠️  重拨已触发，但未检测到 IP 变化\n   旧 IP: "@ + old@ + "\n   请到面板手动确认"@,
{
}

} // verus!
