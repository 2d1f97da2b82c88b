//! The management actions that the plugin offers to HomeCore.
//!
//! An action is a run of requests to the gateway. Each step of the run says which request is due;
//! the caller performs it and hands the answer back, until the reply is there.

use crate::json::{members, values, Json, JsonView};
use crate::text::{decimal, join, join3, same, text_of, texts, to_decimal};
use vstd::prelude::*;

verus! {

/// How long a discovery listens for answers to its broadcast.
pub const DISCOVERY_SECS: u64 = 3;

/// What an action does once it knows the address of a gateway.
#[derive(Debug, Clone, Copy, PartialEq, Eq, Structural)]
pub enum Goal {
    RefreshSensors,
    GatewayInfo,
    Reboot,
}

/// The places where firmware revisions offer a reboot, the most common first.
#[derive(Debug, Clone, Copy, PartialEq, Eq, Structural)]
pub enum RebootPath {
    Html,
    Cgi,
    CgiBin,
}

/// A run that waits for the consoles that answered a broadcast.
#[derive(Debug)]
pub struct Discovery {
    pub manual_hosts: Vec<String>,
}

/// A run that waits for a JSON document from a gateway.
#[derive(Debug)]
pub enum Fetch {
    /// A listed host is asked whether it is a console, to add it to the discovered ones. Where
    /// the broadcast failed, `failure` says why.
    Probe { host: String, rest: Vec<String>, found: Vec<Json>, failure: Option<String> },
    /// A listed host is asked whether it can stand in for the gateway that is not configured.
    Resolve { goal: Goal, host: String, rest: Vec<String> },
    /// The first page of the sensor list is due.
    FirstPage { ip: String },
    /// The second page of the sensor list is due.
    SecondPage { ip: String, first: Json },
    /// The description of the gateway is due.
    Info,
}

/// A run that waits for a gateway to accept a reboot.
#[derive(Debug)]
pub struct Rebooting {
    pub ip: String,
    pub path: RebootPath,
}

/// What is due next in the run of an action.
#[derive(Debug)]
pub enum ActionStep {
    /// Broadcast a query, and listen that long for answers.
    Discover { discovery: Discovery, wait_secs: u64 },
    /// Get the JSON document under the address.
    FetchJson { fetch: Fetch, url: String },
    /// Get the text under the address.
    FetchText { rebooting: Rebooting, url: String },
    /// The action is over.
    Finished { reply: Json },
}

/// What a run that waits for a JSON document knows.
#[verifier::ext_equal]
pub enum FetchView {
    Probe {
        host: Seq<char>,
        rest: Seq<Seq<char>>,
        found: Seq<JsonView>,
        failure: Option<Seq<char>>,
    },
    Resolve { goal: Goal, host: Seq<char>, rest: Seq<Seq<char>> },
    FirstPage { ip: Seq<char> },
    SecondPage { ip: Seq<char>, first: JsonView },
    Info,
}

/// What a step says.
#[verifier::ext_equal]
pub enum StepView {
    Discover { manual_hosts: Seq<Seq<char>>, wait_secs: u64 },
    FetchJson { run: FetchView, url: Seq<char> },
    FetchText { ip: Seq<char>, path: RebootPath, url: Seq<char> },
    Finished { reply: JsonView },
}

impl View for Fetch {
    type V = FetchView;

    open spec fn view(&self) -> FetchView {
        match self {
            Fetch::Probe { host, rest, found, failure } => FetchView::Probe {
                host: host@,
                rest: texts(rest@),
                found: values(found@),
                failure: text_of(*failure),
            },
            Fetch::Resolve { goal, host, rest } => FetchView::Resolve {
                goal: *goal,
                host: host@,
                rest: texts(rest@),
            },
            Fetch::FirstPage { ip } => FetchView::FirstPage { ip: ip@ },
            Fetch::SecondPage { ip, first } => FetchView::SecondPage { ip: ip@, first: first@ },
            Fetch::Info => FetchView::Info,
        }
    }
}

impl View for ActionStep {
    type V = StepView;

    open spec fn view(&self) -> StepView {
        match self {
            ActionStep::Discover { discovery, wait_secs } => StepView::Discover {
                manual_hosts: texts(discovery.manual_hosts@),
                wait_secs: *wait_secs,
            },
            ActionStep::FetchJson { fetch, url } => StepView::FetchJson { run: fetch@, url: url@ },
            ActionStep::FetchText { rebooting, url } => StepView::FetchText {
                ip: rebooting.ip@,
                path: rebooting.path,
                url: url@,
            },
            ActionStep::Finished { reply } => StepView::Finished { reply: reply@ },
        }
    }
}

// ---------------------------------------------------------------------------------------------
// Replies and addresses
// ---------------------------------------------------------------------------------------------

/// The reply of an action that went well, with its data.
pub open spec fn ok_reply(data: Seq<(Seq<char>, JsonView)>) -> JsonView {
    JsonView::Object(seq![("status"@, JsonView::Str("ok"@))] + data)
}

/// The reply of an action that failed, with the reason.
pub open spec fn error_reply(error: Seq<char>) -> JsonView {
    JsonView::Object(
        seq![("status"@, JsonView::Str("error"@)), ("error"@, JsonView::Str(error))],
    )
}

/// The reply of a discovery: the consoles and how many they are.
pub open spec fn discovered_reply(found: Seq<JsonView>) -> JsonView {
    ok_reply(
        seq![
            ("discovered"@, JsonView::Array(found)),
            ("count"@, JsonView::Number(decimal(found.len()))),
        ],
    )
}

/// The reply of a discovery that may have failed to broadcast: the failure counts only where no
/// console was found in another way.
pub open spec fn discovery_reply(found: Seq<JsonView>, failure: Option<Seq<char>>) -> JsonView {
    match failure {
        Some(e) if found.len() == 0 => error_reply("UDP discovery failed: "@ + e),
        _ => discovered_reply(found),
    }
}

/// The entry of a listed host among the discovered consoles.
pub open spec fn manual_console(host: Seq<char>, info: JsonView) -> JsonView {
    JsonView::Object(seq![("ip"@, JsonView::Str(host)), ("info"@, info)])
}

/// One page of the sensor list: the document, or why there is none.
pub open spec fn page_entry(result: Result<JsonView, Seq<char>>) -> JsonView {
    match result {
        Ok(page) => page,
        Err(e) => JsonView::Object(seq![("error"@, JsonView::Str(e))]),
    }
}

/// The reply of a sensor refresh with its two pages.
pub open spec fn sensors_reply(first: JsonView, second: JsonView) -> JsonView {
    ok_reply(
        seq![("sensors"@, JsonView::Object(seq![("page_1"@, first), ("page_2"@, second)]))],
    )
}

/// The reply about the gateway itself.
pub open spec fn info_reply(result: Result<JsonView, Seq<char>>) -> JsonView {
    match result {
        Ok(info) => ok_reply(seq![("info"@, info)]),
        Err(e) => error_reply("get_device_info: "@ + e),
    }
}

/// Why an action cannot run without a gateway.
pub open spec fn unresolved(goal: Goal) -> Seq<char> {
    match goal {
        Goal::Reboot => "gateway_ip not configured; nothing to reboot"@,
        _ => "gateway_ip not configured; nothing to query"@,
    }
}

/// Where a gateway describes itself.
pub open spec fn device_info_url(ip: Seq<char>) -> Seq<char> {
    "http://"@ + ip + "/get_device_info?"@
}

/// Where a gateway lists its sensors: the first page.
pub open spec fn first_page_url(ip: Seq<char>) -> Seq<char> {
    "http://"@ + ip + "/get_sensors_info?page=1"@
}

/// Where a gateway lists its sensors: the second page.
pub open spec fn second_page_url(ip: Seq<char>) -> Seq<char> {
    "http://"@ + ip + "/get_sensors_info?page=2"@
}

/// Where a gateway may accept a reboot.
pub open spec fn reboot_url(ip: Seq<char>, path: RebootPath) -> Seq<char> {
    match path {
        RebootPath::Html => "http://"@ + ip + "/reboot.html"@,
        RebootPath::Cgi => "http://"@ + ip + "/reboot.cgi"@,
        RebootPath::CgiBin => "http://"@ + ip + "/cgi-bin/reboot"@,
    }
}

// ---------------------------------------------------------------------------------------------
// The run of an action
// ---------------------------------------------------------------------------------------------

/// Asks the next listed host, or ends the discovery.
pub open spec fn probe_next(
    rest: Seq<Seq<char>>,
    found: Seq<JsonView>,
    failure: Option<Seq<char>>,
) -> StepView {
    if rest.len() == 0 {
        StepView::Finished { reply: discovery_reply(found, failure) }
    } else {
        StepView::FetchJson {
            run: FetchView::Probe { host: rest[0], rest: rest.drop_first(), found, failure },
            url: device_info_url(rest[0]),
        }
    }
}

/// Asks the next listed host to stand in for the gateway, or gives up.
pub open spec fn resolve_next(goal: Goal, rest: Seq<Seq<char>>) -> StepView {
    if rest.len() == 0 {
        StepView::Finished { reply: error_reply(unresolved(goal)) }
    } else {
        StepView::FetchJson {
            run: FetchView::Resolve { goal, host: rest[0], rest: rest.drop_first() },
            url: device_info_url(rest[0]),
        }
    }
}

/// Tries a reboot under one of the known paths.
pub open spec fn try_reboot(ip: Seq<char>, path: RebootPath) -> StepView {
    StepView::FetchText { ip, path, url: reboot_url(ip, path) }
}

/// The first request to the gateway that a goal makes.
pub open spec fn pursue(goal: Goal, ip: Seq<char>) -> StepView {
    match goal {
        Goal::RefreshSensors => StepView::FetchJson {
            run: FetchView::FirstPage { ip },
            url: first_page_url(ip),
        },
        Goal::GatewayInfo => StepView::FetchJson {
            run: FetchView::Info,
            url: device_info_url(ip),
        },
        Goal::Reboot => try_reboot(ip, RebootPath::Html),
    }
}

/// The first step of a goal: with the configured gateway, or with a listed host that answers.
pub open spec fn with_gateway(
    goal: Goal,
    gateway: Option<Seq<char>>,
    manual_hosts: Seq<Seq<char>>,
) -> StepView {
    match gateway {
        Some(ip) => pursue(goal, ip),
        None => resolve_next(goal, manual_hosts),
    }
}

/// The first step of an action; none where the action is unknown.
pub open spec fn first_step(
    action: Seq<char>,
    gateway: Option<Seq<char>>,
    manual_hosts: Seq<Seq<char>>,
) -> Option<StepView> {
    if action == "discover_gateways"@ {
        Some(StepView::Discover { manual_hosts, wait_secs: DISCOVERY_SECS })
    } else if action == "refresh_sensors"@ {
        Some(with_gateway(Goal::RefreshSensors, gateway, manual_hosts))
    } else if action == "get_gateway_info"@ {
        Some(with_gateway(Goal::GatewayInfo, gateway, manual_hosts))
    } else if action == "reboot_gateway"@ {
        Some(with_gateway(Goal::Reboot, gateway, manual_hosts))
    } else {
        None
    }
}

/// The step after the broadcast was answered, or failed. The listed hosts are asked either way:
/// they are those that a broadcast may not reach.
pub open spec fn after_discovery(
    manual_hosts: Seq<Seq<char>>,
    result: Result<Seq<JsonView>, Seq<char>>,
) -> StepView {
    match result {
        Ok(found) => probe_next(manual_hosts, found, None),
        Err(e) => probe_next(manual_hosts, Seq::empty(), Some(e)),
    }
}

/// The step after a JSON document came, or did not.
pub open spec fn after_json(run: FetchView, result: Result<JsonView, Seq<char>>) -> StepView {
    match run {
        FetchView::Probe { host, rest, found, failure } => match result {
            Ok(info) => probe_next(rest, found.push(manual_console(host, info)), failure),
            Err(_) => probe_next(rest, found, failure),
        },
        FetchView::Resolve { goal, host, rest } => match result {
            Ok(_) => pursue(goal, host),
            Err(_) => resolve_next(goal, rest),
        },
        FetchView::FirstPage { ip } => StepView::FetchJson {
            run: FetchView::SecondPage { ip, first: page_entry(result) },
            url: second_page_url(ip),
        },
        FetchView::SecondPage { ip, first } => StepView::Finished {
            reply: sensors_reply(first, page_entry(result)),
        },
        FetchView::Info => StepView::Finished { reply: info_reply(result) },
    }
}

/// The step after a reboot was accepted under a path, or was not.
pub open spec fn after_text(ip: Seq<char>, path: RebootPath, accepted: bool) -> StepView {
    if accepted {
        StepView::Finished {
            reply: ok_reply(seq![("endpoint"@, JsonView::Str(reboot_url(ip, path)))]),
        }
    } else {
        match path {
            RebootPath::Html => try_reboot(ip, RebootPath::Cgi),
            RebootPath::Cgi => try_reboot(ip, RebootPath::CgiBin),
            RebootPath::CgiBin => StepView::Finished {
                reply: error_reply(
                    "no known reboot endpoint accepted; check gateway firmware"@,
                ),
            },
        }
    }
}

/// The view of the result of a request.
pub open spec fn answer(result: Result<Json, String>) -> Result<JsonView, Seq<char>> {
    match result {
        Ok(value) => Ok(value@),
        Err(e) => Err(e@),
    }
}

// ---------------------------------------------------------------------------------------------
// Executable side
// ---------------------------------------------------------------------------------------------

fn field(key: &str, value: Json) -> (entry: (String, Json))
    ensures
        entry.0@ == key@,
        entry.1 == value,
{
    (key.to_owned(), value)
}

fn make_error(error: &str) -> (reply: Json)
    ensures
        reply@ == error_reply(error@),
{
    let fields = vec![field("status", Json::text("error")), field("error", Json::text(error))];
    let reply = Json::object(fields);
    assert(members(fields@) =~= error_reply(error@)->Object_0);
    reply
}

fn make_discovered(found: Vec<Json>) -> (reply: Json)
    ensures
        reply@ == discovered_reply(values(found@)),
{
    let count = to_decimal(found.len());
    let fields = vec![
        field("status", Json::text("ok")),
        field("discovered", Json::array(found)),
        field("count", Json::Number(count)),
    ];
    let reply = Json::object(fields);
    assert(members(fields@) =~= discovered_reply(values(found@))->Object_0);
    reply
}

fn make_page(result: Result<Json, String>) -> (page: Json)
    ensures
        page@ == page_entry(answer(result)),
{
    match result {
        Ok(page) => page,
        Err(e) => {
            let fields = vec![field("error", Json::Str(e))];
            let page = Json::object(fields);
            assert(members(fields@) =~= page_entry(answer(result))->Object_0);
            page
        },
    }
}

fn make_sensors(first: Json, second: Json) -> (reply: Json)
    ensures
        reply@ == sensors_reply(first@, second@),
{
    let pages = vec![field("page_1", first), field("page_2", second)];
    let sensors = Json::object(pages);
    assert(members(pages@) =~= seq![("page_1"@, first@), ("page_2"@, second@)]);
    let fields = vec![field("status", Json::text("ok")), field("sensors", sensors)];
    let reply = Json::object(fields);
    assert(members(fields@) =~= sensors_reply(first@, second@)->Object_0);
    reply
}

fn make_info(result: Result<Json, String>) -> (reply: Json)
    ensures
        reply@ == info_reply(answer(result)),
{
    match result {
        Ok(info) => {
            let fields = vec![field("status", Json::text("ok")), field("info", info)];
            let reply = Json::object(fields);
            assert(members(fields@) =~= info_reply(answer(result))->Object_0);
            reply
        },
        Err(e) => make_error(join("get_device_info: ", e.as_str()).as_str()),
    }
}

fn make_rebooted(url: &str) -> (reply: Json)
    ensures
        reply@ == ok_reply(seq![("endpoint"@, JsonView::Str(url@))]),
{
    let fields = vec![field("status", Json::text("ok")), field("endpoint", Json::text(url))];
    let reply = Json::object(fields);
    assert(members(fields@) =~= ok_reply(seq![("endpoint"@, JsonView::Str(url@))])->Object_0);
    reply
}

fn make_console(host: String, info: Json) -> (entry: Json)
    ensures
        entry@ == manual_console(host@, info@),
{
    let fields = vec![field("ip", Json::Str(host)), field("info", info)];
    let entry = Json::object(fields);
    assert(members(fields@) =~= manual_console(host@, info@)->Object_0);
    entry
}

fn go_on_probing(rest: Vec<String>, found: Vec<Json>, failure: Option<String>) -> (step: ActionStep)
    ensures
        step@ == probe_next(texts(rest@), values(found@), text_of(failure)),
{
    let mut rest = rest;
    if rest.len() == 0 {
        let reply = match failure {
            Some(e) => if found.len() == 0 {
                make_error(join("UDP discovery failed: ", e.as_str()).as_str())
            } else {
                make_discovered(found)
            },
            None => make_discovered(found),
        };
        ActionStep::Finished { reply }
    } else {
        let ghost all = rest@;
        let host = rest.remove(0);
        assert(texts(rest@) =~= texts(all).drop_first());
        let url = join3("http://", host.as_str(), "/get_device_info?");
        ActionStep::FetchJson { fetch: Fetch::Probe { host, rest, found, failure }, url }
    }
}

fn go_on_resolving(goal: Goal, rest: Vec<String>) -> (step: ActionStep)
    ensures
        step@ == resolve_next(goal, texts(rest@)),
{
    let mut rest = rest;
    if rest.len() == 0 {
        let error = match goal {
            Goal::Reboot => "gateway_ip not configured; nothing to reboot",
            _ => "gateway_ip not configured; nothing to query",
        };
        ActionStep::Finished { reply: make_error(error) }
    } else {
        let ghost all = rest@;
        let host = rest.remove(0);
        assert(texts(rest@) =~= texts(all).drop_first());
        let url = join3("http://", host.as_str(), "/get_device_info?");
        ActionStep::FetchJson { fetch: Fetch::Resolve { goal, host, rest }, url }
    }
}

fn reboot_address(ip: &str, path: RebootPath) -> (url: String)
    ensures
        url@ == reboot_url(ip@, path),
{
    match path {
        RebootPath::Html => join3("http://", ip, "/reboot.html"),
        RebootPath::Cgi => join3("http://", ip, "/reboot.cgi"),
        RebootPath::CgiBin => join3("http://", ip, "/cgi-bin/reboot"),
    }
}

fn go_on_rebooting(ip: String, path: RebootPath) -> (step: ActionStep)
    ensures
        step@ == try_reboot(ip@, path),
{
    let url = reboot_address(ip.as_str(), path);
    ActionStep::FetchText { rebooting: Rebooting { ip, path }, url }
}

fn go_on_with(goal: Goal, ip: String) -> (step: ActionStep)
    ensures
        step@ == pursue(goal, ip@),
{
    match goal {
        Goal::RefreshSensors => {
            let url = join3("http://", ip.as_str(), "/get_sensors_info?page=1");
            ActionStep::FetchJson { fetch: Fetch::FirstPage { ip }, url }
        },
        Goal::GatewayInfo => {
            let url = join3("http://", ip.as_str(), "/get_device_info?");
            ActionStep::FetchJson { fetch: Fetch::Info, url }
        },
        Goal::Reboot => go_on_rebooting(ip, RebootPath::Html),
    }
}

fn go_for(goal: Goal, gateway_ip: Option<String>, manual_hosts: Vec<String>) -> (step: ActionStep)
    ensures
        step@ == with_gateway(
            goal,
            text_of(gateway_ip),
            texts(manual_hosts@),
        ),
{
    match gateway_ip {
        Some(ip) => go_on_with(goal, ip),
        None => go_on_resolving(goal, manual_hosts),
    }
}

/// Starts an action of the manifest. Gives `None` for an action that the plugin does not know.
///
/// Where no gateway is configured, the first of the listed hosts that answers stands in for it.
pub fn run_action(
    action: &str,
    gateway_ip: Option<String>,
    manual_hosts: Vec<String>,
) -> (step: Option<ActionStep>)
    ensures
        match step {
            Some(step) => Some(step@),
            None => None,
        } == first_step(
            action@,
            text_of(gateway_ip),
            texts(manual_hosts@),
        ),
{
    if same(action, "discover_gateways") {
        Some(ActionStep::Discover {
            discovery: Discovery { manual_hosts },
            wait_secs: DISCOVERY_SECS,
        })
    } else if same(action, "refresh_sensors") {
        Some(go_for(Goal::RefreshSensors, gateway_ip, manual_hosts))
    } else if same(action, "get_gateway_info") {
        Some(go_for(Goal::GatewayInfo, gateway_ip, manual_hosts))
    } else if same(action, "reboot_gateway") {
        Some(go_for(Goal::Reboot, gateway_ip, manual_hosts))
    } else {
        None
    }
}

/// The action that a management command asks for: the text under its key `action`.
pub fn requested_action(command: &Json) -> (action: Option<String>)
    ensures
        match action {
            Some(action) => command@.get("action"@) == Some(JsonView::Str(action@)),
            None => !(command@.get("action"@) matches Some(JsonView::Str(_))),
        },
{
    match command.get("action") {
        Some(Json::Str(action)) => Some(action.clone()),
        _ => None,
    }
}

/// What came of a management command.
#[derive(Debug)]
pub enum Run {
    /// The plugin does not know the action.
    Unknown,
    /// The action was begun and did not come to its end.
    BrokeOff,
    /// The action ended with a reply.
    Replied(Json),
}

/// What came of a command, in words.
#[verifier::ext_equal]
pub enum RunView {
    Unknown,
    BrokeOff,
    Replied(JsonView),
}

impl View for Run {
    type V = RunView;

    open spec fn view(&self) -> RunView {
        match self {
            Run::Unknown => RunView::Unknown,
            Run::BrokeOff => RunView::BrokeOff,
            Run::Replied(reply) => RunView::Replied(reply@),
        }
    }
}

/// What came of a command, by whether its action was begun and by the reply of a run that came to
/// its end.
pub open spec fn run_ended(begun: bool, reply: Option<JsonView>) -> RunView {
    if !begun {
        RunView::Unknown
    } else {
        match reply {
            Some(reply) => RunView::Replied(reply),
            None => RunView::BrokeOff,
        }
    }
}

/// The answer to a command: the reply of the run, an error where the run broke off, and none where
/// the action is unknown, so that somebody else may answer.
pub open spec fn settled(action: Seq<char>, run: RunView) -> Option<JsonView> {
    match run {
        RunView::Unknown => None,
        RunView::BrokeOff => Some(
            error_reply("action '"@ + action + "' failed or is unknown"@),
        ),
        RunView::Replied(reply) => Some(reply),
    }
}

/// What came of a command. `begun` says whether `run_action` gave a first step, and `reply` is the
/// reply of a run that came to its end.
pub fn conclude(begun: bool, reply: Option<Json>) -> (run: Run)
    ensures
        run@ == run_ended(
            begun,
            match reply {
                Some(reply) => Some(reply@),
                None => None,
            },
        ),
        run is Unknown <==> !begun,
        run is BrokeOff <==> begun && reply is None,
        begun && reply is Some ==> run is Replied && run->Replied_0 == reply->0,
{
    if !begun {
        Run::Unknown
    } else {
        match reply {
            Some(reply) => Run::Replied(reply),
            None => Run::BrokeOff,
        }
    }
}

/// The answer to a management command: the reply of its run, or an error where the run broke off.
/// A command whose action is unknown is not answered.
pub fn settle(action: &str, run: Run) -> (reply: Option<Json>)
    ensures
        match run {
            Run::Unknown => reply is None,
            Run::BrokeOff => reply matches Some(r) && r@ == error_reply(
                "action '"@ + action@ + "' failed or is unknown"@,
            ),
            Run::Replied(value) => reply matches Some(r) && r@ == value@,
        },
        match reply {
            Some(reply) => Some(reply@),
            None => None,
        } == settled(action@, run@),
{
    match run {
        Run::Unknown => None,
        Run::BrokeOff => Some(
            make_error(join3("action '", action, "' failed or is unknown").as_str()),
        ),
        Run::Replied(reply) => Some(reply),
    }
}

impl Discovery {
    /// Goes on with what the broadcast brought: the consoles that answered, or why it failed.
    pub fn resume(self, result: Result<Vec<Json>, String>) -> (step: ActionStep)
        ensures
            step@ == after_discovery(
                texts(self.manual_hosts@),
                match result {
                    Ok(found) => Ok(values(found@)),
                    Err(e) => Err(e@),
                },
            ),
    {
        match result {
            Ok(found) => go_on_probing(self.manual_hosts, found, None),
            Err(e) => {
                let found: Vec<Json> = Vec::new();
                assert(values(found@) =~= Seq::<JsonView>::empty());
                go_on_probing(self.manual_hosts, found, Some(e))
            },
        }
    }
}

impl Fetch {
    /// Goes on with the document that was asked for, or with why it did not come.
    pub fn resume(self, result: Result<Json, String>) -> (step: ActionStep)
        ensures
            step@ == after_json(self@, answer(result)),
    {
        match self {
            Fetch::Probe { host, rest, found, failure } => {
                let mut found = found;
                let ghost before = found@;
                if let Ok(info) = result {
                    found.push(make_console(host, info));
                    assert(values(found@) =~= values(before).push(
                        manual_console(host@, info@),
                    ));
                }
                go_on_probing(rest, found, failure)
            },
            Fetch::Resolve { goal, host, rest } => match result {
                Ok(_) => go_on_with(goal, host),
                Err(_) => go_on_resolving(goal, rest),
            },
            Fetch::FirstPage { ip } => {
                let url = join3("http://", ip.as_str(), "/get_sensors_info?page=2");
                ActionStep::FetchJson {
                    fetch: Fetch::SecondPage { ip, first: make_page(result) },
                    url,
                }
            },
            Fetch::SecondPage { ip: _, first } => ActionStep::Finished {
                reply: make_sensors(first, make_page(result)),
            },
            Fetch::Info => ActionStep::Finished { reply: make_info(result) },
        }
    }
}

impl Rebooting {
    /// Goes on after the address was asked: any answer but a failure means that the gateway
    /// reboots.
    pub fn resume(self, result: Result<String, String>) -> (step: ActionStep)
        ensures
            step@ == after_text(self.ip@, self.path, result is Ok),
    {
        match result {
            Ok(_) => ActionStep::Finished {
                reply: make_rebooted(reboot_address(self.ip.as_str(), self.path).as_str()),
            },
            Err(_) => match self.path {
                RebootPath::Html => go_on_rebooting(self.ip, RebootPath::Cgi),
                RebootPath::Cgi => go_on_rebooting(self.ip, RebootPath::CgiBin),
                RebootPath::CgiBin => ActionStep::Finished {
                    reply: make_error(
                        "no known reboot endpoint accepted; check gateway firmware",
                    ),
                },
            },
        }
    }
}

/// A step is read as it is: which request is due, where, and what the run knows so far.
pub proof fn a_step_is_read_as_it_is(step: ActionStep)
    ensures
        match step {
            ActionStep::Discover { discovery, wait_secs } => {
                &&& step@ is Discover
                &&& step@->manual_hosts == texts(discovery.manual_hosts@)
                &&& step@->wait_secs == wait_secs
            },
            ActionStep::FetchJson { fetch, url } => {
                &&& step@ is FetchJson
                &&& step@->run == fetch@
                &&& step@->FetchJson_url == url@
            },
            ActionStep::FetchText { rebooting, url } => {
                &&& step@ is FetchText
                &&& step@->ip == rebooting.ip@
                &&& step@->path == rebooting.path
                &&& step@->FetchText_url == url@
            },
            ActionStep::Finished { reply } => {
                &&& step@ is Finished
                &&& step@->reply == reply@
            },
        },
{
}

/// What a run knows is read as it is.
pub proof fn a_run_is_read_as_it_is(fetch: Fetch)
    ensures
        match fetch {
            Fetch::Probe { host, rest, found, failure } => fetch@ == (FetchView::Probe {
                host: host@,
                rest: texts(rest@),
                found: values(found@),
                failure: text_of(failure),
            }),
            Fetch::Resolve { goal, host, rest } => fetch@ == (FetchView::Resolve {
                goal,
                host: host@,
                rest: texts(rest@),
            }),
            Fetch::FirstPage { ip } => fetch@ == (FetchView::FirstPage { ip: ip@ }),
            Fetch::SecondPage { ip, first } => fetch@ == (FetchView::SecondPage {
                ip: ip@,
                first: first@,
            }),
            Fetch::Info => fetch@ == FetchView::Info,
        },
{
}

/// The answer to a request is read as it is.
pub proof fn an_answer_is_read_as_it_is(result: Result<Json, String>)
    ensures
        match result {
            Ok(value) => answer(result) == Ok::<JsonView, Seq<char>>(value@),
            Err(e) => answer(result) == Err::<JsonView, Seq<char>>(e@),
        },
{
}

/// A command is answered with the reply of its run, as it is; with an error that names the action
/// where the run broke off; and not at all where no run was begun.
pub proof fn how_a_command_is_answered(action: Seq<char>, reply: JsonView)
    ensures
        settled(action, run_ended(true, Some(reply))) == Some(reply),
        settled(action, run_ended(true, None)) == Some(
            JsonView::Object(
                seq![
                    ("status"@, JsonView::Str("error"@)),
                    (
                        "error"@,
                        JsonView::Str("action '"@ + action + "' failed or is unknown"@),
                    ),
                ],
            ),
        ),
        settled(action, run_ended(false, Some(reply))) is None,
        settled(action, run_ended(false, None)) is None,
{
}

} // verus!
