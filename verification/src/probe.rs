//! Questions that are put to several places in turn until one of them answers.
use vstd::prelude::*;
use vstd::string::*;

use crate::text::{blank, lemma_trimmed_ends, trim, trimmed, white_space};

verus! {

/// Seconds after which an attempt to connect is given up.
pub const CONNECT_TIMEOUT_SECS: u64 = 3;

/// Seconds after which a request for the machine's own address is given up.
pub const LOCATE_TIMEOUT_SECS: u64 = 5;

/// How many ports of an address are tried.
pub const PORT_COUNT: usize = 3;

/// How many services are asked for the machine's own address.
pub const SOURCE_COUNT: usize = 3;

/// Which ports of an address have been tried, and whether one accepted a connection.
pub struct Reach {
    pub ip: String,
    pub tried: usize,
    pub reachable: bool,
}

/// The port that is tried after `tried` others, behind a colon.
pub open spec fn port_suffix(tried: int) -> Seq<char> {
    if tried == 0 {
        ":80"@
    } else if tried == 1 {
        ":443"@
    } else {
        ":22"@
    }
}

impl Reach {
    /// No port of `ip` has been tried.
    pub fn new(ip: &str) -> (reach: Self)
        ensures
            reach.ip@ == ip@,
            reach.tried == 0,
            !reach.reachable,
    {
        Reach { ip: ip.to_string(), tried: 0, reachable: false }
    }

    /// The question is answered: a port accepted, or all have been tried.
    pub open spec fn settled(self) -> bool {
        self.reachable || self.tried >= PORT_COUNT
    }

    /// The address and port to connect to next, unless the question is answered.
    pub fn target(&self) -> (target: Option<String>)
        ensures
            target is None <==> self.settled(),
            target matches Some(t) ==> t@ == self.ip@ + port_suffix(self.tried as int),
    {
        if self.reachable || self.tried >= PORT_COUNT {
            return None;
        }
        let suffix = if self.tried == 0 {
            ":80"
        } else if self.tried == 1 {
            ":443"
        } else {
            ":22"
        };
        Some(self.ip.clone().concat(suffix))
    }
}

/// What is known after one more attempt.
pub open spec fn reach_step(reach: Reach, connected: bool) -> Reach {
    if reach.settled() {
        reach
    } else {
        Reach { ip: reach.ip, tried: (reach.tried + 1) as usize, reachable: connected }
    }
}

/// Takes in the outcome of an attempt to connect to the target.
pub fn check_reachable(reach: Reach, connected: bool) -> (next: Reach)
    ensures
        next == reach_step(reach, connected),
{
    if reach.reachable || reach.tried >= PORT_COUNT {
        reach
    } else {
        Reach { ip: reach.ip, tried: reach.tried + 1, reachable: connected }
    }
}

/// What is known after attempts with these outcomes.
pub open spec fn reach_run(reach: Reach, outcomes: Seq<bool>) -> Reach
    decreases outcomes.len(),
{
    if outcomes.len() == 0 {
        reach
    } else {
        reach_step(reach_run(reach, outcomes.drop_last()), outcomes.last())
    }
}

/// An address is reachable exactly where one of the three ports accepts, and no port
/// is tried after one that did.
pub proof fn law_reachable_iff_some_port_accepts(start: Reach, outcomes: Seq<bool>)
    requires
        start.tried == 0,
        !start.reachable,
    ensures
        reach_run(start, outcomes).ip == start.ip,
        reach_run(start, outcomes).reachable <==> exists|i: int|
            0 <= i < outcomes.len() && i < PORT_COUNT && #[trigger] outcomes[i],
        reach_run(start, outcomes).reachable ==> {
            let used = reach_run(start, outcomes).tried;
            &&& 1 <= used <= PORT_COUNT && used <= outcomes.len()
            &&& outcomes[used - 1]
            &&& forall|i: int| 0 <= i < used - 1 ==> !#[trigger] outcomes[i]
        },
        !reach_run(start, outcomes).reachable ==> reach_run(start, outcomes).tried == (
        if outcomes.len() < PORT_COUNT {
            outcomes.len()
        } else {
            PORT_COUNT as nat
        }),
    decreases outcomes.len(),
{
    if outcomes.len() > 0 {
        let before = outcomes.drop_last();
        law_reachable_iff_some_port_accepts(start, before);
        let last = outcomes.len() - 1;
        assert(forall|i: int| 0 <= i < last ==> before[i] == outcomes[i]);
        let r = reach_run(start, before);
        if r.reachable {
            assert(outcomes[r.tried - 1]);
        } else {
            assert forall|i: int| 0 <= i < last && i < PORT_COUNT implies !#[trigger] outcomes[i] by {
                assert(!before[i]);
            }
        }
    }
}

/// Which services have been asked for the machine's own address, and what was found.
pub struct Locate {
    pub asked: usize,
    pub found: Option<String>,
}

/// The service that is asked after `asked` others.
pub open spec fn source_url(asked: int) -> Seq<char> {
    if asked == 0 {
        "https://api.ipify.org"@
    } else if asked == 1 {
        "https://ifconfig.me/ip"@
    } else {
        "https://icanhazip.com"@
    }
}

impl Locate {
    /// No service has been asked.
    pub fn new() -> (locate: Self)
        ensures
            locate.asked == 0,
            locate.found is None,
    {
        Locate { asked: 0, found: None }
    }

    /// The question is answered: an address was found, or all services were asked.
    pub open spec fn settled(self) -> bool {
        self.found is Some || self.asked >= SOURCE_COUNT
    }

    /// The service to ask next, unless the question is answered.
    pub fn source(&self) -> (url: Option<&'static str>)
        ensures
            url is None <==> self.settled(),
            url matches Some(u) ==> u@ == source_url(self.asked as int),
    {
        if self.found.is_some() || self.asked >= SOURCE_COUNT {
            None
        } else if self.asked == 0 {
            Some("https://api.ipify.org")
        } else if self.asked == 1 {
            Some("https://ifconfig.me/ip")
        } else {
            Some("https://icanhazip.com")
        }
    }
}

/// The address in a service's answer: its text without surrounding white space,
/// where something is left of it.
pub open spec fn address_in(answer: Option<Seq<char>>) -> Option<Seq<char>> {
    match answer {
        Some(text) => if trimmed(text).len() > 0 {
            Some(trimmed(text))
        } else {
            None
        },
        None => None,
    }
}

/// What is known after one more answer, `None` where the service gave none.
pub open spec fn locate_next(before: Locate, answer: Option<Seq<char>>, after: Locate) -> bool {
    if before.settled() {
        after == before
    } else {
        &&& after.asked == before.asked + 1
        &&& crate::json::opt_text(after.found) == address_in(answer)
    }
}

/// Takes in the answer of a service, `None` where it gave none.
pub fn get_local_public_ip(locate: Locate, answer: Option<&str>) -> (next: Locate)
    ensures
        locate_next(
            locate,
            match answer {
                Some(text) => Some(text@),
                None => None,
            },
            next,
        ),
{
    if locate.found.is_some() || locate.asked >= SOURCE_COUNT {
        return locate;
    }
    let found = match answer {
        Some(text) => {
            let ip = trim(text);
            if ip.is_empty() {
                None
            } else {
                Some(ip.to_string())
            }
        },
        None => None,
    };
    Locate { asked: locate.asked + 1, found }
}

/// `states` begins with no service asked and follows the answers one by one.
pub open spec fn locate_run(states: Seq<Locate>, answers: Seq<Option<Seq<char>>>) -> bool {
    &&& states.len() == answers.len() + 1
    &&& states[0].asked == 0
    &&& states[0].found is None
    &&& forall|i: int|
        0 <= i < answers.len() ==> locate_next(#[trigger] states[i], answers[i], states[i + 1])
}

/// The machine's address is that of the first service that names one, of the three in
/// turn; it is not blank, and no white space surrounds it.
pub proof fn law_first_named_address_is_taken(
    states: Seq<Locate>,
    answers: Seq<Option<Seq<char>>>,
    n: int,
)
    requires
        locate_run(states, answers),
        0 <= n <= answers.len(),
    ensures
        states[n].found is None <==> forall|i: int|
            0 <= i < n && i < SOURCE_COUNT ==> address_in(#[trigger] answers[i]) is None,
        states[n].found is None ==> states[n].asked == (if n < SOURCE_COUNT {
            n
        } else {
            SOURCE_COUNT as int
        }),
        states[n].found matches Some(ip) ==> {
            let used = states[n].asked;
            &&& 1 <= used <= SOURCE_COUNT && used <= n
            &&& address_in(answers[used - 1]) == Some(ip@)
            &&& forall|i: int| 0 <= i < used - 1 ==> address_in(#[trigger] answers[i]) is None
            &&& ip@.len() > 0
            &&& !white_space(ip@[0])
            &&& !white_space(ip@.last())
        },
    decreases n,
{
    if n > 0 {
        law_first_named_address_is_taken(states, answers, n - 1);
        assert(locate_next(states[n - 1], answers[n - 1], states[n - 1 + 1]));
        if let Some(text) = answers[n - 1] {
            lemma_trimmed_ends(text);
        }
        if states[n - 1].settled() {
            if let Some(ip) = states[n - 1].found {
                let used = states[n - 1].asked;
                assert(address_in(answers[used - 1]) is Some);
            }
        } else {
            assert(states[n - 1].asked == n - 1);
            if states[n].found is Some {
                assert(address_in(answers[n - 1]) is Some);
            }
        }
    }
}

/// A new question has tried nothing, and is about the given address.
pub proof fn law_question_begins_with_the_first_port(
    ip: &str,
    reach: Reach,
    target: Option<String>,
)
    requires
        call_ensures(Reach::new, (ip,), reach),
        call_ensures(Reach::target, (&reach,), target),
    ensures
        !reach.reachable,
        reach.tried == 0,
        target matches Some(t) && t@ == ip@ + ":80"@,
{
}

/// The three ports come in their order; none is tried after one accepted, nor a fourth.
pub proof fn law_ports_come_in_order(reach: Reach, target: Option<String>)
    requires
        call_ensures(Reach::target, (&reach,), target),
    ensures
        reach.reachable || reach.tried >= 3 ==> target is None,
        !reach.reachable && reach.tried == 0 ==> (target matches Some(t) && t@ == reach.ip@
            + ":80"@),
        !reach.reachable && reach.tried == 1 ==> (target matches Some(t) && t@ == reach.ip@
            + ":443"@),
        !reach.reachable && reach.tried == 2 ==> (target matches Some(t) && t@ == reach.ip@
            + ":22"@),
{
}

/// An attempt counts, and its outcome is the verdict so far; after the verdict nothing
/// counts. The address stays the same.
pub proof fn law_attempt_is_the_verdict_so_far(reach: Reach, connected: bool, next: Reach)
    requires
        call_ensures(check_reachable, (reach, connected), next),
    ensures
        next.ip == reach.ip,
        reach.reachable || reach.tried >= 3 ==> next == reach,
        !reach.reachable && reach.tried < 3 ==> next.tried == reach.tried + 1 && next.reachable
            == connected,
{
}

/// The three services are asked in their order; none is asked after one named an address,
/// nor a fourth.
pub proof fn law_services_come_in_order(locate: Locate, url: Option<&'static str>)
    requires
        call_ensures(Locate::source, (&locate,), url),
    ensures
        locate.found is Some || locate.asked >= 3 ==> url is None,
        locate.found is None && locate.asked == 0 ==> (url matches Some(u) && u@
            == "https://api.ipify.org"@),
        locate.found is None && locate.asked == 1 ==> (url matches Some(u) && u@
            == "https://ifconfig.me/ip"@),
        locate.found is None && locate.asked == 2 ==> (url matches Some(u) && u@
            == "https://icanhazip.com"@),
{
}

/// An answer that is not blank names the address: what it holds between its white space. A
/// blank or missing answer names none, and is counted; after an address nothing counts.
pub proof fn law_answer_names_what_is_between_its_white_space(
    locate: Locate,
    answer: Option<&str>,
    inner: &str,
    next: Locate,
)
    requires
        call_ensures(get_local_public_ip, (locate, answer), next),
        answer matches Some(text) ==> call_ensures(trim, (text,), inner),
    ensures
        locate.found is Some || locate.asked >= 3 ==> next == locate,
        locate.found is None && locate.asked < 3 ==> {
            &&& next.asked == locate.asked + 1
            &&& next.found is Some <==> (answer matches Some(text) && !blank(text@))
            &&& next.found matches Some(ip) ==> ip@ == inner@
        },
{
    if let Some(text) = answer {
        crate::text::law_trimming_takes_white_space_alone(text, inner);
    }
}

} // verus!
