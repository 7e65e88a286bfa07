//! Pieces of text that the chat bot and the command line share.
use vstd::prelude::*;
use vstd::string::*;

use crate::json::opt_text;
use crate::text::{pad, padded, same_text, texts};

verus! {

/// How many characters the name of a service takes in a table.
pub const SERVICE_WIDTH: usize = 16;

/// The state of one streaming service, as it is shown.
pub struct ServiceStatus {
    pub service: String,
    pub status: String,
}

/// The label of whether an address accepts connections.
pub open spec fn reach_text(reachable: bool) -> Seq<char> {
    if reachable {
        "TCP 可达 ✅"@
    } else {
        "TCP 未通 ⚠️"@
    }
}

/// The label of whether an address accepts connections.
pub fn reach_label(reachable: bool) -> (label: &'static str)
    ensures
        label@ == reach_text(reachable),
{
    if reachable {
        "TCP 可达 ✅"
    } else {
        "TCP 未通 ⚠️"
    }
}

/// The text, or the word for an unknown one.
pub fn known(text: &Option<String>) -> (shown: &str)
    ensures
        shown@ == crate::quality::or_unknown(opt_text(*text)),
{
    match text {
        Some(t) => t.as_str(),
        None => "未知",
    }
}

/// The program runs on the machine that has the address `ip`.
pub open spec fn runs_at(local_ip: Option<String>, ip: Seq<char>) -> bool {
    opt_text(local_ip) == Some(ip)
}

/// Whether the program runs on the machine that has the address `ip`.
pub fn on_boil_vps(local_ip: &Option<String>, ip: &str) -> (same: bool)
    ensures
        same == runs_at(*local_ip, ip@),
{
    match local_ip {
        Some(local) => same_text(local.as_str(), ip),
        None => false,
    }
}

/// The line of a table that shows one service.
pub open spec fn service_text(indent: Seq<char>, service: ServiceStatus) -> Seq<char> {
    indent + padded(service.service@, SERVICE_WIDTH as nat) + " "@ + service.status@
}

/// The lines of a table that shows these services.
pub open spec fn service_texts(indent: Seq<char>, services: Seq<ServiceStatus>) -> Seq<Seq<char>> {
    services.map_values(|service: ServiceStatus| service_text(indent, service))
}

/// The lines of a table that shows these services.
pub fn service_lines(indent: &str, services: &Vec<ServiceStatus>) -> (lines: Vec<String>)
    ensures
        texts(lines@) == service_texts(indent@, services@),
{
    let mut lines: Vec<String> = Vec::new();
    for i in 0..services.len()
        invariant
            texts(lines@) == service_texts(indent@, services@).take(i as int),
    {
        let wide = pad(services[i].service.as_str(), SERVICE_WIDTH);
        let line = indent.to_string().concat(wide.as_str()).concat(" ").concat(
            services[i].status.as_str(),
        );
        let ghost before = lines@;
        lines.push(line);
        assert(texts(lines@) =~= texts(before).push(line@));
        assert(service_texts(indent@, services@).take(i + 1) =~= service_texts(
            indent@,
            services@,
        ).take(i as int).push(line@));
    }
    assert(service_texts(indent@, services@).take(services@.len() as int) =~= service_texts(
        indent@,
        services@,
    ));
    lines
}

/// The lines, each with a line break behind it.
pub open spec fn terminated(lines: Seq<Seq<char>>) -> Seq<char>
    decreases lines.len(),
{
    if lines.len() == 0 {
        Seq::empty()
    } else {
        terminated(lines.drop_last()) + lines.last() + "\n"@
    }
}

/// The lines, each with a line break behind it.
pub fn terminate(lines: &Vec<String>) -> (text: String)
    ensures
        text@ == terminated(texts(lines@)),
{
    let mut text = String::new();
    for i in 0..lines.len()
        invariant
            text@ == terminated(texts(lines@).take(i as int)),
    {
        text.append(lines[i].as_str());
        text.append("\n");
        assert(texts(lines@).take(i + 1).drop_last() =~= texts(lines@).take(i as int));
    }
    assert(texts(lines@).take(lines@.len() as int) =~= texts(lines@));
    text
}

/// The two labels tell whether an address accepts connections.
pub proof fn law_label_tells_whether_it_is_reachable(reachable: bool, label: &'static str)
    requires
        call_ensures(reach_label, (reachable,), label),
    ensures
        reachable ==> label@ == "TCP 可达 ✅"@,
        !reachable ==> label@ == "TCP 未通 ⚠️"@,
{
}

/// A text that is there is shown as it is.
pub proof fn law_known_text_is_shown(text: Option<String>, shown: &str)
    requires
        call_ensures(known, (&text,), shown),
    ensures
        text matches Some(t) ==> shown@ == t@,
        text is None ==> shown@ == "未知"@,
{
}

/// The program runs on the machine exactly where its own address is known and is that of
/// the machine, character by character.
pub proof fn law_machine_is_known_by_its_address(local_ip: Option<String>, ip: &str, same: bool)
    requires
        call_ensures(on_boil_vps, (&local_ip, ip), same),
    ensures
        same <==> (local_ip matches Some(local) && local@ == ip@),
{
}

/// Each service has one line, in order: the indent, its name with spaces up to the width of
/// the table, a space, and its status.
pub proof fn law_each_service_has_its_line(
    indent: &str,
    services: Vec<ServiceStatus>,
    lines: Vec<String>,
    i: int,
    name: &str,
    wide: String,
)
    requires
        call_ensures(service_lines, (indent, &services), lines),
        0 <= i < services@.len(),
        name@ == services@[i].service@,
        call_ensures(pad, (name, 16usize), wide),
    ensures
        lines@.len() == services@.len(),
        lines@[i]@ == indent@ + wide@ + " "@ + services@[i].status@,
{
    assert(texts(lines@).len() == service_texts(indent@, services@).len());
    assert(texts(lines@)[i] == lines@[i]@);
    assert(service_texts(indent@, services@)[i] == service_text(indent@, services@[i]));
}

/// No lines make an empty text, and one more line stands behind the others, with a line
/// break behind it.
pub proof fn law_each_line_is_ended(
    lines: Vec<String>,
    line: String,
    more: Vec<String>,
    text: String,
    longer: String,
)
    requires
        more@ == lines@.push(line),
        call_ensures(terminate, (&lines,), text),
        call_ensures(terminate, (&more,), longer),
    ensures
        lines@.len() == 0 ==> text@.len() == 0,
        longer@ == text@ + line@ + "\n"@,
{
    assert(texts(more@).drop_last() =~= texts(lines@));
}

} // verus!
