//! What holds of the whole run of an action, whatever the network answers.

use crate::actions::{
    after_discovery, after_json, after_text, device_info_url, discovered_reply, discovery_reply,
    error_reply, first_page_url, first_step, info_reply, manual_console, ok_reply, page_entry,
    probe_next, pursue, reboot_url, resolve_next, run_ended, second_page_url, sensors_reply,
    settled, unresolved, FetchView, Goal, RebootPath, StepView,
};
use crate::json::{lookup, the_first_field_with_a_key_counts, JsonView};
use crate::text::decimal;
use vstd::prelude::*;

verus! {

/// What the network says to one request.
pub enum Answer {
    /// The consoles that answered a broadcast, or why it failed.
    Found(Result<Seq<JsonView>, Seq<char>>),
    /// A JSON document, or why it did not come.
    Document(Result<JsonView, Seq<char>>),
    /// Whether a request for text went well.
    Text(bool),
}

/// Whether an answer is one to the request of a step. A finished run asks nothing.
pub open spec fn fits(step: StepView, answer: Answer) -> bool {
    match step {
        StepView::Discover { .. } => answer is Found,
        StepView::FetchJson { .. } => answer is Document,
        StepView::FetchText { .. } => answer is Text,
        StepView::Finished { .. } => true,
    }
}

/// The step that follows an answer.
pub open spec fn follow(step: StepView, answer: Answer) -> StepView {
    match (step, answer) {
        (StepView::Discover { manual_hosts, .. }, Answer::Found(result)) => after_discovery(
            manual_hosts,
            result,
        ),
        (StepView::FetchJson { run, .. }, Answer::Document(result)) => after_json(run, result),
        (StepView::FetchText { ip, path, .. }, Answer::Text(accepted)) => after_text(
            ip,
            path,
            accepted,
        ),
        _ => step,
    }
}

/// Where a run stands after a row of answers.
pub open spec fn drive(step: StepView, answers: Seq<Answer>) -> StepView
    decreases answers.len(),
{
    if answers.len() == 0 {
        step
    } else {
        drive(follow(step, answers[0]), answers.drop_first())
    }
}

/// Whether each answer of a row is one to the request that is due when it comes.
pub open spec fn all_fit(step: StepView, answers: Seq<Answer>) -> bool
    decreases answers.len(),
{
    answers.len() == 0 || (fits(step, answers[0]) && all_fit(
        follow(step, answers[0]),
        answers.drop_first(),
    ))
}

/// How many requests a goal makes to its gateway at most.
pub open spec fn requests_of(goal: Goal) -> nat {
    match goal {
        Goal::RefreshSensors => 2,
        Goal::GatewayInfo => 1,
        Goal::Reboot => 3,
    }
}

/// How many requests are still to come at most.
pub open spec fn pending(step: StepView) -> nat {
    match step {
        StepView::Discover { manual_hosts, .. } => 1 + manual_hosts.len(),
        StepView::FetchJson { run, .. } => match run {
            FetchView::Probe { rest, .. } => 1 + rest.len(),
            FetchView::Resolve { goal, rest, .. } => 1 + rest.len() + requests_of(goal),
            FetchView::FirstPage { .. } => 2,
            FetchView::SecondPage { .. } => 1,
            FetchView::Info => 1,
        },
        StepView::FetchText { path, .. } => match path {
            RebootPath::Html => 3,
            RebootPath::Cgi => 2,
            RebootPath::CgiBin => 1,
        },
        StepView::Finished { .. } => 0,
    }
}

/// Every answer brings a run nearer to its end.
pub proof fn an_answer_leaves_less_to_ask(step: StepView, answer: Answer)
    requires
        fits(step, answer),
        !(step is Finished),
    ensures
        pending(follow(step, answer)) < pending(step),
{
}

/// A run is over after at most as many answers as are pending.
pub proof fn a_run_ends(step: StepView, answers: Seq<Answer>)
    requires
        all_fit(step, answers),
        answers.len() >= pending(step),
    ensures
        drive(step, answers) is Finished,
    decreases answers.len(),
{
    if answers.len() > 0 {
        if !(step is Finished) {
            an_answer_leaves_less_to_ask(step, answers[0]);
        }
        a_run_ends(follow(step, answers[0]), answers.drop_first());
    }
}

/// An action asks the network at most once for each listed host and three times beyond that.
pub proof fn an_action_asks_little(
    action: Seq<char>,
    gateway: Option<Seq<char>>,
    manual_hosts: Seq<Seq<char>>,
)
    requires
        first_step(action, gateway, manual_hosts) is Some,
    ensures
        pending(first_step(action, gateway, manual_hosts)->0) <= manual_hosts.len() + 3,
{
}

/// The actions by name.
pub open spec fn is_action(action: Seq<char>) -> bool {
    ||| action == "discover_gateways"@
    ||| action == "refresh_sensors"@
    ||| action == "get_gateway_info"@
    ||| action == "reboot_gateway"@
}

/// Exactly the known actions are run.
pub proof fn known_actions_are_run(
    action: Seq<char>,
    gateway: Option<Seq<char>>,
    manual_hosts: Seq<Seq<char>>,
)
    ensures
        first_step(action, gateway, manual_hosts) is Some <==> is_action(action),
{
}

/// A command with a text for an action goes unanswered if and only if the action is unknown,
/// whatever becomes of its run.
pub proof fn only_unknown_actions_go_unanswered(
    action: Seq<char>,
    gateway: Option<Seq<char>>,
    manual_hosts: Seq<Seq<char>>,
    reply: Option<JsonView>,
)
    ensures
        settled(
            action,
            run_ended(first_step(action, gateway, manual_hosts) is Some, reply),
        ) is None <==> !is_action(action),
{
}

/// The names of the actions differ.
pub(crate) proof fn action_names_differ()
    ensures
        "discover_gateways"@ != "refresh_sensors"@,
        "discover_gateways"@ != "get_gateway_info"@,
        "discover_gateways"@ != "reboot_gateway"@,
        "refresh_sensors"@ != "get_gateway_info"@,
        "refresh_sensors"@ != "reboot_gateway"@,
        "get_gateway_info"@ != "reboot_gateway"@,
{
    reveal_strlit("discover_gateways");
    reveal_strlit("refresh_sensors");
    reveal_strlit("get_gateway_info");
    reveal_strlit("reboot_gateway");
    assert("discover_gateways"@[0] == 'd');
    assert("refresh_sensors"@[0] == 'r');
    assert("refresh_sensors"@[2] == 'f');
    assert("get_gateway_info"@[0] == 'g');
    assert("reboot_gateway"@[0] == 'r');
    assert("reboot_gateway"@[2] == 'b');
}

/// With a gateway configured, no listed host is asked in its place.
pub proof fn a_configured_gateway_is_used(
    action: Seq<char>,
    ip: Seq<char>,
    manual_hosts: Seq<Seq<char>>,
)
    ensures
        action == "refresh_sensors"@ ==> first_step(action, Some(ip), manual_hosts) == Some(
            pursue(Goal::RefreshSensors, ip),
        ),
        action == "get_gateway_info"@ ==> first_step(action, Some(ip), manual_hosts) == Some(
            pursue(Goal::GatewayInfo, ip),
        ),
        action == "reboot_gateway"@ ==> first_step(action, Some(ip), manual_hosts) == Some(
            pursue(Goal::Reboot, ip),
        ),
{
    action_names_differ();
}

/// Without a gateway and without listed hosts, the actions that need one fail at once.
pub proof fn without_a_gateway_an_action_fails(action: Seq<char>)
    ensures
        action == "refresh_sensors"@ || action == "get_gateway_info"@ ==> first_step(
            action,
            None,
            Seq::empty(),
        ) == Some(
            StepView::Finished {
                reply: error_reply("gateway_ip not configured; nothing to query"@),
            },
        ),
        action == "reboot_gateway"@ ==> first_step(action, None, Seq::empty()) == Some(
            StepView::Finished {
                reply: error_reply("gateway_ip not configured; nothing to reboot"@),
            },
        ),
{
    action_names_differ();
}

/// The answers of listed hosts as answers of the network.
pub open spec fn documents(results: Seq<Result<JsonView, Seq<char>>>) -> Seq<Answer> {
    results.map_values(|result: Result<JsonView, Seq<char>>| Answer::Document(result))
}

/// Where no gateway is configured, the first listed host that answers stands in for it: those
/// before it are passed over, and those after it are not asked.
pub proof fn the_first_host_that_answers_stands_in(
    goal: Goal,
    manual_hosts: Seq<Seq<char>>,
    results: Seq<Result<JsonView, Seq<char>>>,
)
    requires
        0 < results.len() <= manual_hosts.len(),
        results.last() is Ok,
        forall|i: int| 0 <= i < results.len() - 1 ==> results[i] is Err,
    ensures
        drive(resolve_next(goal, manual_hosts), documents(results)) == pursue(
            goal,
            manual_hosts[results.len() - 1],
        ),
    decreases results.len(),
{
    reveal_with_fuel(drive, 2);
    let step = resolve_next(goal, manual_hosts);
    let answers = documents(results);
    assert(answers.drop_first() =~= documents(results.drop_first()));
    assert(answers[0] == Answer::Document(results[0]));
    if results.len() == 1 {
        assert(answers.drop_first().len() == 0);
        assert(follow(step, answers[0]) == pursue(goal, manual_hosts[0]));
    } else {
        assert(results[0] is Err);
        let tail = results.drop_first();
        assert(tail.last() == results.last());
        assert forall|i: int| 0 <= i < tail.len() - 1 implies tail[i] is Err by {
            assert(results[i + 1] is Err);
        }
        the_first_host_that_answers_stands_in(goal, manual_hosts.drop_first(), tail);
    }
}

/// Where no gateway is configured and no listed host answers, the action says so.
pub proof fn no_host_answers(
    goal: Goal,
    manual_hosts: Seq<Seq<char>>,
    results: Seq<Result<JsonView, Seq<char>>>,
)
    requires
        results.len() == manual_hosts.len(),
        forall|i: int| 0 <= i < results.len() ==> results[i] is Err,
    ensures
        drive(resolve_next(goal, manual_hosts), documents(results)) == (StepView::Finished {
            reply: error_reply(unresolved(goal)),
        }),
    decreases results.len(),
{
    let answers = documents(results);
    if results.len() > 0 {
        assert(answers.drop_first() =~= documents(results.drop_first()));
        assert(answers[0] == Answer::Document(results[0]));
        assert(results[0] is Err);
        let tail = results.drop_first();
        assert forall|i: int| 0 <= i < tail.len() implies tail[i] is Err by {
            assert(results[i + 1] is Err);
        }
        no_host_answers(goal, manual_hosts.drop_first(), tail);
    }
}

/// The entries of the listed hosts that answered, in the order of the list.
pub open spec fn consoles(
    manual_hosts: Seq<Seq<char>>,
    results: Seq<Result<JsonView, Seq<char>>>,
) -> Seq<JsonView>
    decreases manual_hosts.len(),
{
    if manual_hosts.len() == 0 || results.len() == 0 {
        Seq::empty()
    } else {
        let later = consoles(manual_hosts.drop_first(), results.drop_first());
        match results[0] {
            Ok(info) => seq![manual_console(manual_hosts[0], info)] + later,
            Err(_) => later,
        }
    }
}

proof fn probing_collects_the_consoles(
    manual_hosts: Seq<Seq<char>>,
    found: Seq<JsonView>,
    failure: Option<Seq<char>>,
    results: Seq<Result<JsonView, Seq<char>>>,
)
    requires
        results.len() == manual_hosts.len(),
    ensures
        drive(probe_next(manual_hosts, found, failure), documents(results))
            == (StepView::Finished {
            reply: discovery_reply(found + consoles(manual_hosts, results), failure),
        }),
    decreases results.len(),
{
    let answers = documents(results);
    if results.len() == 0 {
        assert(found + consoles(manual_hosts, results) =~= found);
    } else {
        assert(answers.drop_first() =~= documents(results.drop_first()));
        assert(answers[0] == Answer::Document(results[0]));
        let rest = manual_hosts.drop_first();
        let tail = results.drop_first();
        match results[0] {
            Ok(info) => {
                let more = found.push(manual_console(manual_hosts[0], info));
                probing_collects_the_consoles(rest, more, failure, tail);
                assert(more + consoles(rest, tail) =~= found + consoles(manual_hosts, results));
            },
            Err(_) => {
                probing_collects_the_consoles(rest, found, failure, tail);
            },
        }
    }
}

/// A discovery replies with the consoles that answered the broadcast, followed by the listed
/// hosts that answered over HTTP, and with how many they are together.
pub proof fn a_discovery_merges_the_listed_hosts(
    gateway: Option<Seq<char>>,
    manual_hosts: Seq<Seq<char>>,
    found: Seq<JsonView>,
    results: Seq<Result<JsonView, Seq<char>>>,
)
    requires
        results.len() == manual_hosts.len(),
    ensures
        first_step("discover_gateways"@, gateway, manual_hosts) is Some,
        drive(
            first_step("discover_gateways"@, gateway, manual_hosts)->0,
            seq![Answer::Found(Ok(found))] + documents(results),
        ) == (StepView::Finished {
            reply: discovered_reply(found + consoles(manual_hosts, results)),
        }),
{
    let answers = seq![Answer::Found(Ok(found))] + documents(results);
    assert(answers.drop_first() =~= documents(results));
    probing_collects_the_consoles(manual_hosts, found, None, results);
}

/// A discovery whose broadcast fails asks the listed hosts all the same. It replies with those
/// that answered, and with the failure only where none did.
pub proof fn a_failed_broadcast_leaves_the_listed_hosts(
    gateway: Option<Seq<char>>,
    manual_hosts: Seq<Seq<char>>,
    error: Seq<char>,
    results: Seq<Result<JsonView, Seq<char>>>,
)
    requires
        results.len() == manual_hosts.len(),
    ensures
        first_step("discover_gateways"@, gateway, manual_hosts) is Some,
        drive(
            first_step("discover_gateways"@, gateway, manual_hosts)->0,
            seq![Answer::Found(Err(error))] + documents(results),
        ) == (StepView::Finished {
            reply: if exists|i: int| 0 <= i < results.len() && (#[trigger] results[i]) is Ok {
                discovered_reply(consoles(manual_hosts, results))
            } else {
                error_reply("UDP discovery failed: "@ + error)
            },
        }),
{
    let answers = seq![Answer::Found(Err(error))] + documents(results);
    let none = Seq::<JsonView>::empty();
    assert(answers.drop_first() =~= documents(results));
    probing_collects_the_consoles(manual_hosts, none, Some(error), results);
    assert(none + consoles(manual_hosts, results) =~= consoles(manual_hosts, results));
    some_console_if_some_host_answers(manual_hosts, results);
}

proof fn some_console_if_some_host_answers(
    manual_hosts: Seq<Seq<char>>,
    results: Seq<Result<JsonView, Seq<char>>>,
)
    requires
        results.len() == manual_hosts.len(),
    ensures
        consoles(manual_hosts, results).len() > 0 <==> exists|i: int|
            0 <= i < results.len() && (#[trigger] results[i]) is Ok,
    decreases results.len(),
{
    if results.len() > 0 {
        let tail = results.drop_first();
        some_console_if_some_host_answers(manual_hosts.drop_first(), tail);
        if exists|i: int| 0 <= i < tail.len() && (#[trigger] tail[i]) is Ok {
            let i = choose|i: int| 0 <= i < tail.len() && (#[trigger] tail[i]) is Ok;
            assert(results[i + 1] is Ok);
        }
        if exists|i: int| 0 <= i < results.len() && (#[trigger] results[i]) is Ok {
            let i = choose|i: int| 0 <= i < results.len() && (#[trigger] results[i]) is Ok;
            if i > 0 {
                assert(tail[i - 1] is Ok);
            }
        }
    }
}

/// A refresh asks for both pages, whatever comes of the first, and replies with both.
pub proof fn a_refresh_replies_with_both_pages(
    ip: Seq<char>,
    first: Result<JsonView, Seq<char>>,
    second: Result<JsonView, Seq<char>>,
)
    ensures
        drive(
            pursue(Goal::RefreshSensors, ip),
            seq![Answer::Document(first), Answer::Document(second)],
        ) == (StepView::Finished { reply: sensors_reply(page_entry(first), page_entry(second)) }),
        pursue(Goal::RefreshSensors, ip)->FetchJson_url == first_page_url(ip),
        follow(pursue(Goal::RefreshSensors, ip), Answer::Document(first))->FetchJson_url
            == second_page_url(ip),
{
    reveal_with_fuel(drive, 3);
    let answers = seq![Answer::Document(first), Answer::Document(second)];
    assert(answers.drop_first()[0] == answers[1]);
}

/// The description of the gateway is handed on as it came.
pub proof fn the_description_is_handed_on(ip: Seq<char>, result: Result<JsonView, Seq<char>>)
    ensures
        drive(pursue(Goal::GatewayInfo, ip), seq![Answer::Document(result)])
            == (StepView::Finished { reply: info_reply(result) }),
        pursue(Goal::GatewayInfo, ip)->FetchJson_url == device_info_url(ip),
{
    reveal_with_fuel(drive, 2);
}

/// The reboot paths in the order in which they are tried.
pub open spec fn reboot_paths() -> Seq<RebootPath> {
    seq![RebootPath::Html, RebootPath::Cgi, RebootPath::CgiBin]
}

/// So many refusals, and then an acceptance.
pub open spec fn accepted_after(refusals: nat) -> Seq<Answer> {
    Seq::new(refusals + 1, |i: int| Answer::Text(i == refusals))
}

/// A reboot replies with the first address that accepts it.
pub proof fn the_first_reboot_path_that_accepts_wins(ip: Seq<char>, refusals: nat)
    requires
        refusals < reboot_paths().len(),
    ensures
        drive(pursue(Goal::Reboot, ip), accepted_after(refusals)) == (StepView::Finished {
            reply: ok_reply(
                seq![
                    (
                        "endpoint"@,
                        JsonView::Str(reboot_url(ip, reboot_paths()[refusals as int])),
                    ),
                ],
            ),
        }),
{
    reveal_with_fuel(drive, 4);
    let answers = accepted_after(refusals);
    if refusals >= 1 {
        assert(answers[0] == Answer::Text(false));
        assert(answers.drop_first()[0] == answers[1]);
    }
    if refusals == 2 {
        assert(answers[1] == Answer::Text(false));
        assert(answers.drop_first().drop_first()[0] == answers[2]);
    }
    assert(answers[refusals as int] == Answer::Text(true));
}

/// A reboot that no address accepts says so.
pub proof fn a_reboot_may_be_refused(ip: Seq<char>)
    ensures
        drive(
            pursue(Goal::Reboot, ip),
            seq![Answer::Text(false), Answer::Text(false), Answer::Text(false)],
        ) == (StepView::Finished {
            reply: error_reply("no known reboot endpoint accepted; check gateway firmware"@),
        }),
{
    reveal_with_fuel(drive, 4);
    let answers = seq![Answer::Text(false), Answer::Text(false), Answer::Text(false)];
    assert(answers.drop_first()[0] == answers[1]);
    assert(answers.drop_first().drop_first()[0] == answers[2]);
}

/// Whether an address lies on a host.
pub open spec fn on_host(url: Seq<char>, host: Seq<char>) -> bool {
    ("http://"@ + host + "/"@).is_prefix_of(url)
}

/// The hosts that an action may ask: the gateway and the listed ones.
pub open spec fn known_host(
    gateway: Option<Seq<char>>,
    manual_hosts: Seq<Seq<char>>,
    host: Seq<char>,
) -> bool {
    gateway == Some(host) || manual_hosts.contains(host)
}

/// Whether a step asks a host that an action may ask, and so do all that follow.
pub open spec fn stays_with(
    step: StepView,
    gateway: Option<Seq<char>>,
    manual_hosts: Seq<Seq<char>>,
) -> bool {
    match step {
        StepView::Discover { manual_hosts: rest, .. } => all_known(gateway, manual_hosts, rest),
        StepView::FetchJson { run, url } => {
            &&& exists|host: Seq<char>| #[trigger]
                known_host(gateway, manual_hosts, host) && on_host(url, host)
            &&& match run {
                FetchView::Probe { host, rest, .. } => known_host(gateway, manual_hosts, host)
                    && all_known(gateway, manual_hosts, rest),
                FetchView::Resolve { host, rest, .. } => known_host(gateway, manual_hosts, host)
                    && all_known(gateway, manual_hosts, rest),
                FetchView::FirstPage { ip } => known_host(gateway, manual_hosts, ip),
                FetchView::SecondPage { .. } => true,
                FetchView::Info => true,
            }
        },
        StepView::FetchText { ip, path, url } => {
            &&& known_host(gateway, manual_hosts, ip)
            &&& on_host(url, ip)
        },
        StepView::Finished { .. } => true,
    }
}

/// Whether an action may ask every host of a list.
pub open spec fn all_known(
    gateway: Option<Seq<char>>,
    manual_hosts: Seq<Seq<char>>,
    rest: Seq<Seq<char>>,
) -> bool {
    forall|i: int|
        0 <= i < rest.len() ==> known_host(gateway, manual_hosts, #[trigger] rest[i])
}

proof fn addresses_lie_on_their_host(ip: Seq<char>)
    ensures
        on_host(device_info_url(ip), ip),
        on_host(first_page_url(ip), ip),
        on_host(second_page_url(ip), ip),
        forall|path: RebootPath| on_host(#[trigger] reboot_url(ip, path), ip),
{
    reveal_strlit("/");
    reveal_strlit("/get_device_info?");
    reveal_strlit("/get_sensors_info?page=1");
    reveal_strlit("/get_sensors_info?page=2");
    reveal_strlit("/reboot.html");
    reveal_strlit("/reboot.cgi");
    reveal_strlit("/cgi-bin/reboot");
    let head = "http://"@ + ip + "/"@;
    let n = head.len() as int;
    assert(device_info_url(ip).take(n) =~= head);
    assert(first_page_url(ip).take(n) =~= head);
    assert(second_page_url(ip).take(n) =~= head);
    assert forall|path: RebootPath| on_host(#[trigger] reboot_url(ip, path), ip) by {
        assert(reboot_url(ip, path).take(n) =~= head);
    }
}

proof fn goals_stay_with_their_gateway(
    goal: Goal,
    ip: Seq<char>,
    gateway: Option<Seq<char>>,
    manual_hosts: Seq<Seq<char>>,
)
    requires
        known_host(gateway, manual_hosts, ip),
    ensures
        stays_with(pursue(goal, ip), gateway, manual_hosts),
{
    addresses_lie_on_their_host(ip);
}

proof fn asking_a_list_stays_with_it(
    goal: Goal,
    rest: Seq<Seq<char>>,
    found: Seq<JsonView>,
    failure: Option<Seq<char>>,
    gateway: Option<Seq<char>>,
    manual_hosts: Seq<Seq<char>>,
)
    requires
        all_known(gateway, manual_hosts, rest),
    ensures
        stays_with(probe_next(rest, found, failure), gateway, manual_hosts),
        stays_with(resolve_next(goal, rest), gateway, manual_hosts),
{
    if rest.len() > 0 {
        addresses_lie_on_their_host(rest[0]);
        assert(known_host(gateway, manual_hosts, rest[0]));
        assert forall|i: int| 0 <= i < rest.drop_first().len() implies known_host(
            gateway,
            manual_hosts,
            #[trigger] rest.drop_first()[i],
        ) by {
            assert(known_host(gateway, manual_hosts, rest[i + 1]));
        }
    }
}

proof fn following_stays_with_the_known_hosts(
    step: StepView,
    answer: Answer,
    gateway: Option<Seq<char>>,
    manual_hosts: Seq<Seq<char>>,
)
    requires
        stays_with(step, gateway, manual_hosts),
    ensures
        stays_with(follow(step, answer), gateway, manual_hosts),
{
    match (step, answer) {
        (StepView::Discover { manual_hosts: rest, .. }, Answer::Found(result)) => {
            let (found, failure) = match result {
                Ok(found) => (found, None),
                Err(e) => (Seq::empty(), Some(e)),
            };
            asking_a_list_stays_with_it(Goal::Reboot, rest, found, failure, gateway, manual_hosts);
        },
        (StepView::FetchJson { run, .. }, Answer::Document(result)) => match run {
            FetchView::Probe { host, rest, found, failure } => {
                let more = match result {
                    Ok(info) => found.push(manual_console(host, info)),
                    Err(_) => found,
                };
                asking_a_list_stays_with_it(
                    Goal::Reboot,
                    rest,
                    more,
                    failure,
                    gateway,
                    manual_hosts,
                );
            },
            FetchView::Resolve { goal, host, rest } => {
                asking_a_list_stays_with_it(goal, rest, Seq::empty(), None, gateway, manual_hosts);
                goals_stay_with_their_gateway(goal, host, gateway, manual_hosts);
            },
            FetchView::FirstPage { ip } => {
                addresses_lie_on_their_host(ip);
            },
            _ => {},
        },
        (StepView::FetchText { ip, .. }, _) => {
            addresses_lie_on_their_host(ip);
        },
        _ => {},
    }
}

proof fn driving_stays_with_the_known_hosts(
    step: StepView,
    answers: Seq<Answer>,
    gateway: Option<Seq<char>>,
    manual_hosts: Seq<Seq<char>>,
)
    requires
        stays_with(step, gateway, manual_hosts),
    ensures
        stays_with(drive(step, answers), gateway, manual_hosts),
    decreases answers.len(),
{
    if answers.len() > 0 {
        following_stays_with_the_known_hosts(step, answers[0], gateway, manual_hosts);
        driving_stays_with_the_known_hosts(
            follow(step, answers[0]),
            answers.drop_first(),
            gateway,
            manual_hosts,
        );
    }
}

/// Whatever is answered, an action asks only the configured gateway and the listed hosts.
pub proof fn only_known_hosts_are_asked(
    action: Seq<char>,
    gateway: Option<Seq<char>>,
    manual_hosts: Seq<Seq<char>>,
    answers: Seq<Answer>,
)
    requires
        first_step(action, gateway, manual_hosts) is Some,
    ensures
        stays_with(
            drive(first_step(action, gateway, manual_hosts)->0, answers),
            gateway,
            manual_hosts,
        ),
        drive(first_step(action, gateway, manual_hosts)->0, answers) matches StepView::FetchJson {
            url,
            ..
        } ==> exists|host: Seq<char>|
            (gateway == Some(host) || manual_hosts.contains(host)) && #[trigger] (("http://"@ + host
                + "/"@).is_prefix_of(url)),
        drive(first_step(action, gateway, manual_hosts)->0, answers) matches StepView::FetchText {
            url,
            ..
        } ==> exists|host: Seq<char>|
            (gateway == Some(host) || manual_hosts.contains(host)) && #[trigger] (("http://"@ + host
                + "/"@).is_prefix_of(url)),
{
    let step = first_step(action, gateway, manual_hosts)->0;
    assert forall|i: int| 0 <= i < manual_hosts.len() implies known_host(
        gateway,
        manual_hosts,
        #[trigger] manual_hosts[i],
    ) by {
        assert(manual_hosts.contains(manual_hosts[i]));
    }
    match gateway {
        Some(ip) => {
            goals_stay_with_their_gateway(Goal::RefreshSensors, ip, gateway, manual_hosts);
            goals_stay_with_their_gateway(Goal::GatewayInfo, ip, gateway, manual_hosts);
            goals_stay_with_their_gateway(Goal::Reboot, ip, gateway, manual_hosts);
        },
        None => {
            let none = Seq::<JsonView>::empty();
            asking_a_list_stays_with_it(
                Goal::RefreshSensors,
                manual_hosts,
                none,
                None,
                gateway,
                manual_hosts,
            );
            asking_a_list_stays_with_it(
                Goal::GatewayInfo,
                manual_hosts,
                none,
                None,
                gateway,
                manual_hosts,
            );
            asking_a_list_stays_with_it(
                Goal::Reboot,
                manual_hosts,
                none,
                None,
                gateway,
                manual_hosts,
            );
        },
    }
    driving_stays_with_the_known_hosts(step, answers, gateway, manual_hosts);
    match drive(step, answers) {
        StepView::FetchJson { url, .. } => {
            let host = choose|host: Seq<char>| #[trigger]
                known_host(gateway, manual_hosts, host) && on_host(url, host);
            assert(("http://"@ + host + "/"@).is_prefix_of(url));
        },
        StepView::FetchText { ip, url, .. } => {
            assert(("http://"@ + ip + "/"@).is_prefix_of(url));
        },
        _ => {},
    }
}

/// Whether a reply says that its action failed: a status and a reason, and nothing else.
pub open spec fn says_error(reply: JsonView) -> bool {
    &&& reply.keys() == seq!["status"@, "error"@]
    &&& reply.get("status"@) == Some(JsonView::Str("error"@))
    &&& reply.get("error"@) matches Some(JsonView::Str(_))
}

/// The keys of the data of an action.
pub open spec fn data_keys(action: Seq<char>) -> Seq<Seq<char>> {
    if action == "discover_gateways"@ {
        seq!["discovered"@, "count"@]
    } else if action == "refresh_sensors"@ {
        seq!["sensors"@]
    } else if action == "get_gateway_info"@ {
        seq!["info"@]
    } else {
        seq!["endpoint"@]
    }
}

/// Whether a reply says that its action went well, and holds its data and nothing else. What was
/// discovered is a list, and the count is its length.
pub open spec fn says_ok(action: Seq<char>, reply: JsonView) -> bool {
    &&& reply.keys() == seq!["status"@] + data_keys(action)
    &&& reply.get("status"@) == Some(JsonView::Str("ok"@))
    &&& forall|i: int|
        0 <= i < data_keys(action).len() ==> reply.get(#[trigger] data_keys(action)[i]) is Some
    &&& action == "discover_gateways"@ ==> {
        &&& reply.get("discovered"@) matches Some(JsonView::Array(found))
        &&& reply.get("count"@) == Some(JsonView::Number(decimal(found.len())))
    }
}

/// The name of the action that has a goal.
pub open spec fn action_of(goal: Goal) -> Seq<char> {
    match goal {
        Goal::RefreshSensors => "refresh_sensors"@,
        Goal::GatewayInfo => "get_gateway_info"@,
        Goal::Reboot => "reboot_gateway"@,
    }
}

/// Whether a step belongs to an action.
spec fn belongs(step: StepView, action: Seq<char>) -> bool {
    match step {
        StepView::Discover { .. } => action == "discover_gateways"@,
        StepView::FetchJson { run, .. } => match run {
            FetchView::Probe { .. } => action == "discover_gateways"@,
            FetchView::Resolve { goal, .. } => action == action_of(goal),
            FetchView::FirstPage { .. } => action == "refresh_sensors"@,
            FetchView::SecondPage { .. } => action == "refresh_sensors"@,
            FetchView::Info => action == "get_gateway_info"@,
        },
        StepView::FetchText { .. } => action == "reboot_gateway"@,
        StepView::Finished { reply } => says_error(reply) || says_ok(action, reply),
    }
}

proof fn keys_of_replies_differ()
    ensures
        "status"@ != "error"@,
        "status"@ != "discovered"@,
        "status"@ != "count"@,
        "status"@ != "sensors"@,
        "status"@ != "info"@,
        "status"@ != "endpoint"@,
        "discovered"@ != "count"@,
{
    reveal_strlit("status");
    reveal_strlit("error");
    reveal_strlit("discovered");
    reveal_strlit("count");
    reveal_strlit("sensors");
    reveal_strlit("info");
    reveal_strlit("endpoint");
    assert("status"@.len() == 6 && "error"@.len() == 5 && "discovered"@.len() == 10);
    assert("count"@.len() == 5 && "sensors"@.len() == 7 && "info"@.len() == 4);
    assert("endpoint"@.len() == 8);
}

proof fn a_failure_says_error(error: Seq<char>)
    ensures
        says_error(error_reply(error)),
{
    keys_of_replies_differ();
    reveal_with_fuel(lookup, 3);
    let fields = error_reply(error)->Object_0;
    assert(fields.drop_first()[0] == fields[1]);
    assert(error_reply(error).keys() =~= seq!["status"@, "error"@]);
}

proof fn one_datum_says_ok(action: Seq<char>, key: Seq<char>, value: JsonView)
    requires
        action != "discover_gateways"@,
        data_keys(action) == seq![key],
    ensures
        says_ok(action, ok_reply(seq![(key, value)])),
{
    keys_of_replies_differ();
    reveal_with_fuel(lookup, 3);
    let reply = ok_reply(seq![(key, value)]);
    let fields = reply->Object_0;
    assert(data_keys(action)[0] == key);
    assert(fields.drop_first()[0] == fields[1]);
    assert(reply.keys() =~= seq!["status"@] + data_keys(action));
}

proof fn a_discovery_says_ok(found: Seq<JsonView>)
    ensures
        says_ok("discover_gateways"@, discovered_reply(found)),
{
    keys_of_replies_differ();
    reveal_with_fuel(lookup, 4);
    let action = "discover_gateways"@;
    let reply = discovered_reply(found);
    let fields = reply->Object_0;
    assert(fields.drop_first()[0] == fields[1]);
    assert(fields.drop_first().drop_first()[0] == fields[2]);
    assert(lookup(fields, "discovered"@) == Some(JsonView::Array(found)));
    assert(lookup(fields, "count"@) == Some(JsonView::Number(decimal(found.len()))));
    assert(reply.keys() =~= seq!["status"@] + data_keys(action));
}

proof fn replies_say_how_it_went()
    ensures
        forall|error: Seq<char>| says_error(#[trigger] error_reply(error)),
        forall|found: Seq<JsonView>|
            says_ok("discover_gateways"@, #[trigger] discovered_reply(found)),
        forall|first: JsonView, second: JsonView|
            says_ok("refresh_sensors"@, #[trigger] sensors_reply(first, second)),
        forall|info: JsonView|
            says_ok("get_gateway_info"@, #[trigger] ok_reply(seq![("info"@, info)])),
        forall|url: Seq<char>|
            says_ok(
                "reboot_gateway"@,
                #[trigger] ok_reply(seq![("endpoint"@, JsonView::Str(url))]),
            ),
{
    action_names_differ();
    assert forall|error: Seq<char>| says_error(#[trigger] error_reply(error)) by {
        a_failure_says_error(error);
    }
    assert forall|found: Seq<JsonView>|
        says_ok("discover_gateways"@, #[trigger] discovered_reply(found)) by {
        a_discovery_says_ok(found);
    }
    assert forall|first: JsonView, second: JsonView|
        says_ok("refresh_sensors"@, #[trigger] sensors_reply(first, second)) by {
        let pages = JsonView::Object(seq![("page_1"@, first), ("page_2"@, second)]);
        one_datum_says_ok("refresh_sensors"@, "sensors"@, pages);
    }
    assert forall|info: JsonView|
        says_ok("get_gateway_info"@, #[trigger] ok_reply(seq![("info"@, info)])) by {
        one_datum_says_ok("get_gateway_info"@, "info"@, info);
    }
    assert forall|url: Seq<char>|
        says_ok(
            "reboot_gateway"@,
            #[trigger] ok_reply(seq![("endpoint"@, JsonView::Str(url))]),
        ) by {
        one_datum_says_ok("reboot_gateway"@, "endpoint"@, JsonView::Str(url));
    }
}

proof fn driving_keeps_to_the_action(step: StepView, answers: Seq<Answer>, action: Seq<char>)
    requires
        belongs(step, action),
    ensures
        belongs(drive(step, answers), action),
    decreases answers.len(),
{
    replies_say_how_it_went();
    if answers.len() > 0 {
        driving_keeps_to_the_action(follow(step, answers[0]), answers.drop_first(), action);
    }
}

/// Whatever is answered, a reply says how it went and nothing beyond that: a good one has exactly
/// a status and the data of its action, and any other exactly a status and an error.
pub proof fn a_reply_is_good_or_an_error(
    action: Seq<char>,
    gateway: Option<Seq<char>>,
    manual_hosts: Seq<Seq<char>>,
    answers: Seq<Answer>,
)
    requires
        first_step(action, gateway, manual_hosts) is Some,
    ensures
        drive(first_step(action, gateway, manual_hosts)->0, answers) matches StepView::Finished {
            reply,
        } ==> {
            &&& reply.get("status"@) == Some(JsonView::Str("ok"@)) <==> says_ok(action, reply)
            &&& reply.get("status"@) != Some(JsonView::Str("ok"@)) <==> says_error(reply)
        },
{
    action_names_differ();
    replies_say_how_it_went();
    reveal_strlit("ok");
    reveal_strlit("error");
    assert("ok"@.len() == 2 && "error"@.len() == 5);
    driving_keeps_to_the_action(first_step(action, gateway, manual_hosts)->0, answers, action);
}

// ---------------------------------------------------------------------------------------------
// Requests and replies, written out
// ---------------------------------------------------------------------------------------------

/// The first request of each action, written out: a discovery broadcasts and listens for three
/// seconds, a refresh asks the gateway for the first page, an enquiry for its description and a
/// reboot at the most common address.
pub proof fn the_first_request_of_an_action(
    gateway: Option<Seq<char>>,
    ip: Seq<char>,
    manual_hosts: Seq<Seq<char>>,
)
    ensures
        first_step("discover_gateways"@, gateway, manual_hosts) == Some(
            StepView::Discover { manual_hosts, wait_secs: 3 },
        ),
        first_step("refresh_sensors"@, Some(ip), manual_hosts) == Some(
            StepView::FetchJson {
                run: FetchView::FirstPage { ip },
                url: "http://"@ + ip + "/get_sensors_info?page=1"@,
            },
        ),
        first_step("get_gateway_info"@, Some(ip), manual_hosts) == Some(
            StepView::FetchJson {
                run: FetchView::Info,
                url: "http://"@ + ip + "/get_device_info?"@,
            },
        ),
        first_step("reboot_gateway"@, Some(ip), manual_hosts) == Some(
            StepView::FetchText {
                ip,
                path: RebootPath::Html,
                url: "http://"@ + ip + "/reboot.html"@,
            },
        ),
{
    action_names_differ();
}

/// What an action does once a listed host stands in for its gateway is what it does with a
/// configured one.
pub proof fn a_stand_in_is_used_like_a_gateway(
    goal: Goal,
    host: Seq<char>,
    manual_hosts: Seq<Seq<char>>,
)
    ensures
        goal == Goal::RefreshSensors ==> first_step("refresh_sensors"@, Some(host), manual_hosts)
            == Some(pursue(goal, host)) && first_step("refresh_sensors"@, None, manual_hosts)
            == Some(resolve_next(goal, manual_hosts)),
        goal == Goal::GatewayInfo ==> first_step("get_gateway_info"@, Some(host), manual_hosts)
            == Some(pursue(goal, host)) && first_step("get_gateway_info"@, None, manual_hosts)
            == Some(resolve_next(goal, manual_hosts)),
        goal == Goal::Reboot ==> first_step("reboot_gateway"@, Some(host), manual_hosts) == Some(
            pursue(goal, host),
        ) && first_step("reboot_gateway"@, None, manual_hosts) == Some(
            resolve_next(goal, manual_hosts),
        ),
{
    action_names_differ();
}

/// Without a gateway the listed hosts are asked one after the other for their description, as long
/// as none answers.
pub proof fn listed_hosts_are_asked_in_order(
    goal: Goal,
    manual_hosts: Seq<Seq<char>>,
    results: Seq<Result<JsonView, Seq<char>>>,
)
    requires
        results.len() < manual_hosts.len(),
        forall|i: int| 0 <= i < results.len() ==> (#[trigger] results[i]) is Err,
    ensures
        drive(resolve_next(goal, manual_hosts), documents(results)) is FetchJson,
        drive(resolve_next(goal, manual_hosts), documents(results))->FetchJson_url == "http://"@
            + manual_hosts[results.len() as int] + "/get_device_info?"@,
    decreases results.len(),
{
    if results.len() > 0 {
        let answers = documents(results);
        let tail = results.drop_first();
        assert(answers.drop_first() =~= documents(tail));
        assert(answers[0] == Answer::Document(results[0]));
        assert(results[0] is Err);
        assert forall|i: int| 0 <= i < tail.len() implies (#[trigger] tail[i]) is Err by {
            assert(results[i + 1] is Err);
        }
        listed_hosts_are_asked_in_order(goal, manual_hosts.drop_first(), tail);
    }
}

/// Without a gateway and with no listed host that answers, the reply says what is missing.
pub proof fn the_reply_without_a_gateway(
    manual_hosts: Seq<Seq<char>>,
    results: Seq<Result<JsonView, Seq<char>>>,
)
    requires
        results.len() == manual_hosts.len(),
        forall|i: int| 0 <= i < results.len() ==> (#[trigger] results[i]) is Err,
    ensures
        ({
            let nothing_to_query = JsonView::Object(
                seq![
                    ("status"@, JsonView::Str("error"@)),
                    ("error"@, JsonView::Str("gateway_ip not configured; nothing to query"@)),
                ],
            );
            let nothing_to_reboot = JsonView::Object(
                seq![
                    ("status"@, JsonView::Str("error"@)),
                    ("error"@, JsonView::Str("gateway_ip not configured; nothing to reboot"@)),
                ],
            );
            let answers = documents(results);
            &&& drive(first_step("refresh_sensors"@, None, manual_hosts)->0, answers) == (
            StepView::Finished { reply: nothing_to_query })
            &&& drive(first_step("get_gateway_info"@, None, manual_hosts)->0, answers) == (
            StepView::Finished { reply: nothing_to_query })
            &&& drive(first_step("reboot_gateway"@, None, manual_hosts)->0, answers) == (
            StepView::Finished { reply: nothing_to_reboot })
        }),
{
    action_names_differ();
    no_host_answers(Goal::RefreshSensors, manual_hosts, results);
    no_host_answers(Goal::GatewayInfo, manual_hosts, results);
    no_host_answers(Goal::Reboot, manual_hosts, results);
}

/// A listed host that answers adds one console with its address and its answer, behind those of the
/// hosts before it; one that does not answer adds none. These equations say what the consoles of a
/// list are.
pub proof fn a_host_that_answers_adds_a_console(
    manual_hosts: Seq<Seq<char>>,
    results: Seq<Result<JsonView, Seq<char>>>,
    host: Seq<char>,
    info: JsonView,
    error: Seq<char>,
)
    requires
        results.len() == manual_hosts.len(),
    ensures
        consoles(Seq::empty(), Seq::empty()).len() == 0,
        consoles(manual_hosts.push(host), results.push(Ok(info))) == consoles(
            manual_hosts,
            results,
        ).push(JsonView::Object(seq![("ip"@, JsonView::Str(host)), ("info"@, info)])),
        consoles(manual_hosts.push(host), results.push(Err(error))) == consoles(
            manual_hosts,
            results,
        ),
    decreases manual_hosts.len(),
{
    reveal_with_fuel(consoles, 2);
    let hosts = manual_hosts.push(host);
    let good = results.push(Ok(info));
    let bad = results.push(Err(error));
    let entry = JsonView::Object(seq![("ip"@, JsonView::Str(host)), ("info"@, info)]);
    if manual_hosts.len() == 0 {
        assert(hosts.drop_first().len() == 0);
        assert(consoles(hosts, good) =~= seq![entry]);
        assert(consoles(manual_hosts, results).push(entry) =~= seq![entry]);
        assert(consoles(hosts, bad) =~= consoles(manual_hosts, results));
    } else {
        let rest = manual_hosts.drop_first();
        let tail = results.drop_first();
        a_host_that_answers_adds_a_console(rest, tail, host, info, error);
        assert(hosts.drop_first() =~= rest.push(host));
        assert(good.drop_first() =~= tail.push(Ok(info)));
        assert(bad.drop_first() =~= tail.push(Err(error)));
        assert(consoles(hosts, good) =~= consoles(manual_hosts, results).push(entry));
        assert(consoles(hosts, bad) =~= consoles(manual_hosts, results));
    }
}

/// A discovery reports every console: those that answered the broadcast as they answered it, then
/// the listed hosts that answered, and how many they are together.
pub proof fn a_discovery_reports_every_console(
    gateway: Option<Seq<char>>,
    manual_hosts: Seq<Seq<char>>,
    found: Seq<JsonView>,
    results: Seq<Result<JsonView, Seq<char>>>,
)
    requires
        results.len() == manual_hosts.len(),
    ensures
        ({
            let end = drive(
                first_step("discover_gateways"@, gateway, manual_hosts)->0,
                seq![Answer::Found(Ok(found))] + documents(results),
            );
            let all = found + consoles(manual_hosts, results);
            &&& end is Finished
            &&& end->reply == JsonView::Object(
                seq![
                    ("status"@, JsonView::Str("ok"@)),
                    ("discovered"@, JsonView::Array(all)),
                    ("count"@, JsonView::Number(decimal(all.len()))),
                ],
            )
            &&& end->reply.get("status"@) == Some(JsonView::Str("ok"@))
            &&& end->reply.get("discovered"@) == Some(JsonView::Array(all))
            &&& end->reply.get("count"@) == Some(JsonView::Number(decimal(all.len())))
        }),
{
    let all = found + consoles(manual_hosts, results);
    a_discovery_merges_the_listed_hosts(gateway, manual_hosts, found, results);
    a_discovery_reply_written_out(all);
}

proof fn a_discovery_reply_written_out(all: Seq<JsonView>)
    ensures
        discovered_reply(all) == JsonView::Object(
            seq![
                ("status"@, JsonView::Str("ok"@)),
                ("discovered"@, JsonView::Array(all)),
                ("count"@, JsonView::Number(decimal(all.len()))),
            ],
        ),
        discovered_reply(all).get("status"@) == Some(JsonView::Str("ok"@)),
        discovered_reply(all).get("discovered"@) == Some(JsonView::Array(all)),
        discovered_reply(all).get("count"@) == Some(JsonView::Number(decimal(all.len()))),
{
    keys_of_replies_differ();
    let fields = seq![
        ("status"@, JsonView::Str("ok"@)),
        ("discovered"@, JsonView::Array(all)),
        ("count"@, JsonView::Number(decimal(all.len()))),
    ];
    assert(discovered_reply(all)->Object_0 =~= fields);
    the_first_field_with_a_key_counts(fields, "status"@, 0);
    the_first_field_with_a_key_counts(fields, "discovered"@, 1);
    the_first_field_with_a_key_counts(fields, "count"@, 2);
}

/// A discovery whose broadcast failed reports the listed hosts that answered, and how many they
/// are; where none answered it says why the broadcast failed.
pub proof fn a_discovery_without_a_broadcast(
    gateway: Option<Seq<char>>,
    manual_hosts: Seq<Seq<char>>,
    error: Seq<char>,
    results: Seq<Result<JsonView, Seq<char>>>,
)
    requires
        results.len() == manual_hosts.len(),
    ensures
        ({
            let end = drive(
                first_step("discover_gateways"@, gateway, manual_hosts)->0,
                seq![Answer::Found(Err(error))] + documents(results),
            );
            let all = consoles(manual_hosts, results);
            &&& end is Finished
            &&& (exists|i: int| 0 <= i < results.len() && (#[trigger] results[i]) is Ok) ==> {
                &&& end->reply == JsonView::Object(
                    seq![
                        ("status"@, JsonView::Str("ok"@)),
                        ("discovered"@, JsonView::Array(all)),
                        ("count"@, JsonView::Number(decimal(all.len()))),
                    ],
                )
                &&& end->reply.get("discovered"@) == Some(JsonView::Array(all))
                &&& end->reply.get("count"@) == Some(JsonView::Number(decimal(all.len())))
            }
            &&& (forall|i: int| 0 <= i < results.len() ==> (#[trigger] results[i]) is Err)
                ==> end->reply == JsonView::Object(
                seq![
                    ("status"@, JsonView::Str("error"@)),
                    ("error"@, JsonView::Str("UDP discovery failed: "@ + error)),
                ],
            )
        }),
{
    a_failed_broadcast_leaves_the_listed_hosts(gateway, manual_hosts, error, results);
    a_discovery_reply_written_out(consoles(manual_hosts, results));
}

/// Whatever came of its broadcast, a discovery asks every listed host for its description, in
/// order, whatever came of those before.
pub proof fn a_discovery_asks_every_listed_host(
    gateway: Option<Seq<char>>,
    manual_hosts: Seq<Seq<char>>,
    broadcast: Result<Seq<JsonView>, Seq<char>>,
    results: Seq<Result<JsonView, Seq<char>>>,
)
    requires
        results.len() < manual_hosts.len(),
    ensures
        ({
            let due = drive(
                first_step("discover_gateways"@, gateway, manual_hosts)->0,
                seq![Answer::Found(broadcast)] + documents(results),
            );
            &&& due is FetchJson
            &&& due->FetchJson_url == "http://"@ + manual_hosts[results.len() as int]
                + "/get_device_info?"@
        }),
{
    let answers = seq![Answer::Found(broadcast)] + documents(results);
    assert(answers.drop_first() =~= documents(results));
    match broadcast {
        Ok(found) => {
            probing_asks_in_order(manual_hosts, found, None, results);
        },
        Err(e) => {
            probing_asks_in_order(manual_hosts, Seq::empty(), Some(e), results);
        },
    }
}

proof fn probing_asks_in_order(
    manual_hosts: Seq<Seq<char>>,
    found: Seq<JsonView>,
    failure: Option<Seq<char>>,
    results: Seq<Result<JsonView, Seq<char>>>,
)
    requires
        results.len() < manual_hosts.len(),
    ensures
        drive(probe_next(manual_hosts, found, failure), documents(results)) is FetchJson,
        drive(probe_next(manual_hosts, found, failure), documents(results))->FetchJson_url
            == "http://"@ + manual_hosts[results.len() as int] + "/get_device_info?"@,
    decreases results.len(),
{
    if results.len() > 0 {
        let answers = documents(results);
        let tail = results.drop_first();
        assert(answers.drop_first() =~= documents(tail));
        assert(answers[0] == Answer::Document(results[0]));
        let more = match results[0] {
            Ok(info) => found.push(manual_console(manual_hosts[0], info)),
            Err(_) => found,
        };
        probing_asks_in_order(manual_hosts.drop_first(), more, failure, tail);
    }
}

/// A refresh asks the gateway for both pages and hands each on as it came: under its key stands the
/// page itself, whatever value it is, or the reason why it did not come.
pub proof fn a_refresh_hands_on_both_pages(
    ip: Seq<char>,
    manual_hosts: Seq<Seq<char>>,
    first: Result<JsonView, Seq<char>>,
    second: Result<JsonView, Seq<char>>,
)
    ensures
        ({
            let start = first_step("refresh_sensors"@, Some(ip), manual_hosts)->0;
            let middle = drive(start, seq![Answer::Document(first)]);
            let end = drive(start, seq![Answer::Document(first), Answer::Document(second)]);
            &&& start is FetchJson
            &&& start->FetchJson_url == "http://"@ + ip + "/get_sensors_info?page=1"@
            &&& middle is FetchJson
            &&& middle->FetchJson_url == "http://"@ + ip + "/get_sensors_info?page=2"@
            &&& end is Finished
            &&& end->reply.get("status"@) == Some(JsonView::Str("ok"@))
            &&& end->reply.get("sensors"@) is Some
            &&& first is Ok ==> (end->reply.get("sensors"@)->0).get("page_1"@) == Some(first->Ok_0)
            &&& second is Ok ==> (end->reply.get("sensors"@)->0).get("page_2"@) == Some(
                second->Ok_0,
            )
            &&& first is Err ==> (end->reply.get("sensors"@)->0).get("page_1"@) == Some(
                JsonView::Object(seq![("error"@, JsonView::Str(first->Err_0))]),
            )
            &&& second is Err ==> (end->reply.get("sensors"@)->0).get("page_2"@) == Some(
                JsonView::Object(seq![("error"@, JsonView::Str(second->Err_0))]),
            )
            &&& end->reply.keys() == seq!["status"@, "sensors"@]
            &&& (end->reply.get("sensors"@)->0).keys() == seq!["page_1"@, "page_2"@]
        }),
{
    action_names_differ();
    keys_of_replies_differ();
    reveal_with_fuel(drive, 3);
    a_refresh_replies_with_both_pages(ip, first, second);
    reveal_strlit("page_1");
    reveal_strlit("page_2");
    assert("page_1"@[5] == '1' && "page_2"@[5] == '2');
    let pages = seq![("page_1"@, page_entry(first)), ("page_2"@, page_entry(second))];
    let fields = seq![("status"@, JsonView::Str("ok"@)), ("sensors"@, JsonView::Object(pages))];
    let reply = sensors_reply(page_entry(first), page_entry(second));
    assert(reply->Object_0 =~= fields);
    the_first_field_with_a_key_counts(fields, "status"@, 0);
    the_first_field_with_a_key_counts(fields, "sensors"@, 1);
    the_first_field_with_a_key_counts(pages, "page_1"@, 0);
    the_first_field_with_a_key_counts(pages, "page_2"@, 1);
    assert(reply.keys() =~= seq!["status"@, "sensors"@]);
    assert(JsonView::Object(pages).keys() =~= seq!["page_1"@, "page_2"@]);
}

/// An enquiry asks the gateway for its description and hands that on as it came, whatever value it
/// is, or says why it did not come.
pub proof fn an_enquiry_hands_on_the_description(
    ip: Seq<char>,
    manual_hosts: Seq<Seq<char>>,
    result: Result<JsonView, Seq<char>>,
)
    ensures
        ({
            let start = first_step("get_gateway_info"@, Some(ip), manual_hosts)->0;
            let end = drive(start, seq![Answer::Document(result)]);
            &&& start is FetchJson
            &&& start->FetchJson_url == "http://"@ + ip + "/get_device_info?"@
            &&& end is Finished
            &&& result is Ok ==> end->reply == JsonView::Object(
                seq![("status"@, JsonView::Str("ok"@)), ("info"@, result->Ok_0)],
            )
            &&& result is Ok ==> end->reply.get("info"@) == Some(result->Ok_0)
            &&& result is Err ==> end->reply == JsonView::Object(
                seq![
                    ("status"@, JsonView::Str("error"@)),
                    ("error"@, JsonView::Str("get_device_info: "@ + result->Err_0)),
                ],
            )
        }),
{
    action_names_differ();
    keys_of_replies_differ();
    the_description_is_handed_on(ip, result);
    if let Ok(info) = result {
        let fields = seq![("status"@, JsonView::Str("ok"@)), ("info"@, info)];
        assert(info_reply(result)->Object_0 =~= fields);
        the_first_field_with_a_key_counts(fields, "info"@, 1);
    }
}

/// A reboot is asked for at three addresses, one after the other until one accepts; the reply names
/// the one that did, or says that none did.
#[verifier::rlimit(40)]
pub proof fn a_reboot_tries_three_addresses(ip: Seq<char>, manual_hosts: Seq<Seq<char>>)
    ensures
        ({
            let start = first_step("reboot_gateway"@, Some(ip), manual_hosts)->0;
            let html = "http://"@ + ip + "/reboot.html"@;
            let cgi = "http://"@ + ip + "/reboot.cgi"@;
            let cgi_bin = "http://"@ + ip + "/cgi-bin/reboot"@;
            let no = Answer::Text(false);
            let yes = Answer::Text(true);
            let accepted = |url: Seq<char>|
                StepView::Finished {
                    reply: JsonView::Object(
                        seq![
                            ("status"@, JsonView::Str("ok"@)),
                            ("endpoint"@, JsonView::Str(url)),
                        ],
                    ),
                };
            &&& start is FetchText && start->FetchText_url == html
            &&& drive(start, seq![yes]) == accepted(html)
            &&& drive(start, seq![no]) is FetchText && drive(start, seq![no])->FetchText_url == cgi
            &&& drive(start, seq![no, yes]) == accepted(cgi)
            &&& drive(start, seq![no, no]) is FetchText && drive(
                start,
                seq![no, no],
            )->FetchText_url == cgi_bin
            &&& drive(start, seq![no, no, yes]) == accepted(cgi_bin)
            &&& drive(start, seq![no, no, no]) == (StepView::Finished {
                reply: JsonView::Object(
                    seq![
                        ("status"@, JsonView::Str("error"@)),
                        (
                            "error"@,
                            JsonView::Str(
                                "no known reboot endpoint accepted; check gateway firmware"@,
                            ),
                        ),
                    ],
                ),
            })
        }),
{
    action_names_differ();
    reveal_with_fuel(drive, 4);
    let no = Answer::Text(false);
    let yes = Answer::Text(true);
    assert(seq![no, yes].drop_first() =~= seq![yes]);
    assert(seq![no, no].drop_first() =~= seq![no]);
    assert(seq![no, no, yes].drop_first() =~= seq![no, yes]);
    assert(seq![no, no, no].drop_first() =~= seq![no, no]);
    assert forall|url: Seq<char>| #[trigger]
        ok_reply(seq![("endpoint"@, JsonView::Str(url))]) == JsonView::Object(
        seq![("status"@, JsonView::Str("ok"@)), ("endpoint"@, JsonView::Str(url))],
    ) by {
        assert(ok_reply(seq![("endpoint"@, JsonView::Str(url))])->Object_0 =~= seq![
            ("status"@, JsonView::Str("ok"@)),
            ("endpoint"@, JsonView::Str(url)),
        ]);
    }
}

/// Where no gateway is configured, an action whose listed host answered goes on to that host as it
/// would to a gateway: from there on the two runs are the same.
pub proof fn a_stand_in_answers_like_a_gateway(
    goal: Goal,
    manual_hosts: Seq<Seq<char>>,
    results: Seq<Result<JsonView, Seq<char>>>,
    answers: Seq<Answer>,
)
    requires
        0 < results.len() <= manual_hosts.len(),
        results.last() is Ok,
        forall|i: int| 0 <= i < results.len() - 1 ==> results[i] is Err,
    ensures
        first_step(action_of(goal), None, manual_hosts) is Some,
        drive(
            first_step(action_of(goal), None, manual_hosts)->0,
            documents(results) + answers,
        ) == drive(
            first_step(
                action_of(goal),
                Some(manual_hosts[results.len() - 1]),
                manual_hosts,
            )->0,
            answers,
        ),
{
    action_names_differ();
    the_first_host_that_answers_stands_in(goal, manual_hosts, results);
    driving_goes_on(resolve_next(goal, manual_hosts), documents(results), answers);
}

proof fn driving_goes_on(step: StepView, first: Seq<Answer>, second: Seq<Answer>)
    ensures
        drive(step, first + second) == drive(drive(step, first), second),
    decreases first.len(),
{
    if first.len() == 0 {
        assert(first + second =~= second);
    } else {
        assert((first + second).drop_first() =~= first.drop_first() + second);
        driving_goes_on(follow(step, first[0]), first.drop_first(), second);
    }
}

} // verus!
