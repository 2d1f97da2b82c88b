//! The manifest that tells HomeCore which actions the plugin offers.

use crate::action_laws::{
    a_reply_is_good_or_an_error, action_names_differ, data_keys, drive, is_action, says_error,
    Answer,
};
use crate::actions::{first_step, StepView};
use crate::json::{members, Json, JsonView};
use vstd::prelude::*;

verus! {

pub const DISCOVER_GATEWAYS_HELP: &'static str =
    "Send a UDP CMD_BROADCAST query on port 45000 and listen ~3 seconds for replies. Returns the list of consoles on the LAN with MAC, IP, and any model / firmware strings extractable from the reply payload.";

pub const REFRESH_SENSORS_HELP: &'static str =
    "Query `/get_sensors_info?page=1` and `?page=2` on the configured gateway and return the live sensor list with signal levels and battery values. Useful after pairing a new external sensor.";

pub const GET_GATEWAY_INFO_HELP: &'static str =
    "Pull `/get_device_info` from the configured gateway — model, firmware, MAC, network. Diagnostic snapshot.";

pub const REBOOT_GATEWAY_HELP: &'static str =
    "Reboot the configured Ecowitt console via its web UI's reboot endpoint. Use sparingly — interrupts uploads for ~30 seconds while the console restarts.";

/// Who may run an action.
#[derive(Debug, Clone, Copy, PartialEq, Eq, Structural)]
pub enum RequiresRole {
    User,
    Admin,
}

/// How runs of one action may overlap.
#[derive(Debug, Clone, Copy, PartialEq, Eq, Structural)]
pub enum Concurrency {
    /// As HomeCore has it where an action does not say.
    Default,
}

/// An action as the manifest lists it.
#[derive(Debug)]
pub struct Action {
    pub id: String,
    pub label: String,
    pub description: Option<String>,
    pub params: Option<Json>,
    pub result: Option<Json>,
    pub stream: bool,
    pub cancelable: bool,
    pub concurrency: Concurrency,
    pub item_key: Option<String>,
    pub item_operations: Option<Json>,
    pub requires_role: RequiresRole,
    pub timeout_ms: Option<u64>,
}

/// The manifest.
#[derive(Debug)]
pub struct Capabilities {
    pub spec: String,
    pub plugin_id: String,
    pub actions: Vec<Action>,
}

/// What the manifest says of an action of this plugin. None of them takes parameters, streams,
/// can be cancelled, works on items or has a time limit of its own.
#[verifier::ext_equal]
pub struct ActionEntry {
    pub id: Seq<char>,
    pub label: Seq<char>,
    pub description: Seq<char>,
    pub result: Option<JsonView>,
    pub requires_role: RequiresRole,
}

impl Action {
    /// Whether this is the entry, with everything else at rest.
    pub open spec fn lists(self, entry: ActionEntry) -> bool {
        &&& self.id@ == entry.id
        &&& self.label@ == entry.label
        &&& self.description matches Some(description) && description@ == entry.description
        &&& self.params is None
        &&& match (self.result, entry.result) {
            (Some(result), Some(shape)) => result@ == shape,
            (None, None) => true,
            _ => false,
        }
        &&& !self.stream
        &&& !self.cancelable
        &&& self.concurrency == Concurrency::Default
        &&& self.item_key is None
        &&& self.item_operations is None
        &&& self.requires_role == entry.requires_role
        &&& self.timeout_ms is None
    }
}

/// The shape of a value of the given JSON type.
pub open spec fn of_type(name: Seq<char>) -> JsonView {
    JsonView::Object(seq![("type"@, JsonView::Str(name))])
}

/// The actions of the manifest.
pub open spec fn manifest() -> Seq<ActionEntry> {
    seq![
        ActionEntry {
            id: "discover_gateways"@,
            label: "Discover gateways"@,
            description: DISCOVER_GATEWAYS_HELP@,
            result: Some(
                JsonView::Object(
                    seq![
                        ("discovered"@, of_type("array"@)),
                        ("count"@, of_type("integer"@)),
                    ],
                ),
            ),
            requires_role: RequiresRole::User,
        },
        ActionEntry {
            id: "refresh_sensors"@,
            label: "Refresh sensor inventory"@,
            description: REFRESH_SENSORS_HELP@,
            result: Some(JsonView::Object(seq![("sensors"@, of_type("array"@))])),
            requires_role: RequiresRole::User,
        },
        ActionEntry {
            id: "get_gateway_info"@,
            label: "Gateway info"@,
            description: GET_GATEWAY_INFO_HELP@,
            result: Some(JsonView::Object(seq![("info"@, of_type("object"@))])),
            requires_role: RequiresRole::User,
        },
        ActionEntry {
            id: "reboot_gateway"@,
            label: "Reboot gateway"@,
            description: REBOOT_GATEWAY_HELP@,
            result: None,
            requires_role: RequiresRole::Admin,
        },
    ]
}

fn typed(key: &str, name: &str) -> (entry: (String, Json))
    ensures
        entry.0@ == key@,
        entry.1@ == of_type(name@),
{
    let fields = vec![("type".to_owned(), Json::text(name))];
    let shape = Json::object(fields);
    assert(members(fields@) =~= of_type(name@)->Object_0);
    (key.to_owned(), shape)
}

fn action(
    id: &str,
    label: &str,
    description: &str,
    result: Option<Json>,
    requires_role: RequiresRole,
) -> (action: Action)
    ensures
        action.lists(
            ActionEntry {
                id: id@,
                label: label@,
                description: description@,
                result: match result {
                    Some(shape) => Some(shape@),
                    None => None,
                },
                requires_role,
            },
        ),
{
    Action {
        id: id.to_owned(),
        label: label.to_owned(),
        description: Some(description.to_owned()),
        params: None,
        result,
        stream: false,
        cancelable: false,
        concurrency: Concurrency::Default,
        item_key: None,
        item_operations: None,
        requires_role,
        timeout_ms: None,
    }
}

/// The manifest of the plugin.
pub fn capabilities_manifest() -> (capabilities: Capabilities)
    ensures
        capabilities.spec@ == "1"@,
        capabilities.plugin_id@ == Seq::<char>::empty(),
        capabilities.actions@.len() == manifest().len(),
        forall|i: int|
            0 <= i < manifest().len() ==> (#[trigger] capabilities.actions@[i]).lists(
                manifest()[i],
            ),
{
    let found = vec![typed("discovered", "array"), typed("count", "integer")];
    let discovered = Json::object(found);
    assert(members(found@) =~= (manifest()[0].result->0)->Object_0);
    let pages = vec![typed("sensors", "array")];
    let sensors = Json::object(pages);
    assert(members(pages@) =~= (manifest()[1].result->0)->Object_0);
    let about = vec![typed("info", "object")];
    let info = Json::object(about);
    assert(members(about@) =~= (manifest()[2].result->0)->Object_0);
    let actions = vec![
        action(
            "discover_gateways",
            "Discover gateways",
            DISCOVER_GATEWAYS_HELP,
            Some(discovered),
            RequiresRole::User,
        ),
        action(
            "refresh_sensors",
            "Refresh sensor inventory",
            REFRESH_SENSORS_HELP,
            Some(sensors),
            RequiresRole::User,
        ),
        action(
            "get_gateway_info",
            "Gateway info",
            GET_GATEWAY_INFO_HELP,
            Some(info),
            RequiresRole::User,
        ),
        action("reboot_gateway", "Reboot gateway", REBOOT_GATEWAY_HELP, None, RequiresRole::Admin),
    ];
    Capabilities { spec: "1".to_owned(), plugin_id: String::new(), actions }
}

/// The manifest lists exactly the actions that can be run.
pub proof fn the_manifest_lists_what_can_be_run(
    id: Seq<char>,
    gateway: Option<Seq<char>>,
    manual_hosts: Seq<Seq<char>>,
)
    ensures
        first_step(id, gateway, manual_hosts) is Some <==> exists|i: int|
            0 <= i < manifest().len() && (#[trigger] manifest()[i]).id == id,
{
    if first_step(id, gateway, manual_hosts) is Some {
        assert(is_action(id));
        assert(manifest()[0].id == id || manifest()[1].id == id || manifest()[2].id == id
            || manifest()[3].id == id);
    }
}

/// No two actions of the manifest share an id.
pub proof fn manifest_ids_differ(i: int, j: int)
    requires
        0 <= i < j < manifest().len(),
    ensures
        manifest()[i].id != manifest()[j].id,
{
    action_names_differ();
}

/// Only the reboot asks for an administrator.
pub proof fn only_the_reboot_needs_an_administrator(i: int)
    requires
        0 <= i < manifest().len(),
    ensures
        manifest()[i].requires_role == RequiresRole::Admin <==> manifest()[i].id
            == "reboot_gateway"@,
{
    action_names_differ();
}

/// The keys of a reply that says it went well are a status and the keys that the manifest promises
/// for its action, and no others; those of any other reply are a status and an error.
pub proof fn a_reply_has_the_promised_keys(
    at: int,
    gateway: Option<Seq<char>>,
    manual_hosts: Seq<Seq<char>>,
    answers: Seq<Answer>,
)
    requires
        0 <= at < manifest().len(),
        manifest()[at].result is Some,
    ensures
        first_step(manifest()[at].id, gateway, manual_hosts) is Some,
        drive(
            first_step(manifest()[at].id, gateway, manual_hosts)->0,
            answers,
        ) matches StepView::Finished { reply } ==> {
            if reply.get("status"@) == Some(JsonView::Str("ok"@)) {
                reply.keys() == seq!["status"@] + (manifest()[at].result->0).keys()
            } else {
                says_error(reply)
            }
        },
{
    action_names_differ();
    a_reply_is_good_or_an_error(manifest()[at].id, gateway, manual_hosts, answers);
    assert((manifest()[at].result->0).keys() =~= data_keys(manifest()[at].id));
}

/// The manifest, written out: what each action is called, what it does, what it replies with and
/// who may run it.
pub proof fn the_manifest_written_out(actions: Seq<Action>)
    requires
        actions.len() == manifest().len(),
        forall|i: int| 0 <= i < manifest().len() ==> (#[trigger] actions[i]).lists(manifest()[i]),
    ensures
        actions.len() == 4,
        actions[0].id@ == "discover_gateways"@,
        actions[0].label@ == "Discover gateways"@,
        actions[0].description is Some,
        (actions[0].description->0)@
            == "Send a UDP CMD_BROADCAST query on port 45000 and listen ~3 seconds for replies. Returns the list of consoles on the LAN with MAC, IP, and any model / firmware strings extractable from the reply payload."@,
        actions[0].result is Some,
        (actions[0].result->0)@ == JsonView::Object(
            seq![
                ("discovered"@, JsonView::Object(seq![("type"@, JsonView::Str("array"@))])),
                ("count"@, JsonView::Object(seq![("type"@, JsonView::Str("integer"@))])),
            ],
        ),
        actions[0].requires_role == RequiresRole::User,
        actions[1].id@ == "refresh_sensors"@,
        actions[1].label@ == "Refresh sensor inventory"@,
        actions[1].description is Some,
        (actions[1].description->0)@
            == "Query `/get_sensors_info?page=1` and `?page=2` on the configured gateway and return the live sensor list with signal levels and battery values. Useful after pairing a new external sensor."@,
        actions[1].result is Some,
        (actions[1].result->0)@ == JsonView::Object(
            seq![
                ("sensors"@, JsonView::Object(seq![("type"@, JsonView::Str("array"@))])),
            ],
        ),
        actions[1].requires_role == RequiresRole::User,
        actions[2].id@ == "get_gateway_info"@,
        actions[2].label@ == "Gateway info"@,
        actions[2].description is Some,
        (actions[2].description->0)@
            == "Pull `/get_device_info` from the configured gateway — model, firmware, MAC, network. Diagnostic snapshot."@,
        actions[2].result is Some,
        (actions[2].result->0)@ == JsonView::Object(
            seq![
                ("info"@, JsonView::Object(seq![("type"@, JsonView::Str("object"@))])),
            ],
        ),
        actions[2].requires_role == RequiresRole::User,
        actions[3].id@ == "reboot_gateway"@,
        actions[3].label@ == "Reboot gateway"@,
        actions[3].description is Some,
        (actions[3].description->0)@
            == "Reboot the configured Ecowitt console via its web UI's reboot endpoint. Use sparingly — interrupts uploads for ~30 seconds while the console restarts."@,
        actions[3].result is None,
        actions[3].requires_role == RequiresRole::Admin,
{
    assert(actions[0].lists(manifest()[0]));
    assert(actions[1].lists(manifest()[1]));
    assert(actions[2].lists(manifest()[2]));
    assert(actions[3].lists(manifest()[3]));
}

/// No action takes parameters, streams, can be cancelled, works on items or has a time limit of its
/// own.
pub proof fn no_action_has_extras(actions: Seq<Action>, at: int)
    requires
        actions.len() == manifest().len(),
        forall|i: int| 0 <= i < manifest().len() ==> (#[trigger] actions[i]).lists(manifest()[i]),
        0 <= at < actions.len(),
    ensures
        actions[at].params is None,
        !actions[at].stream,
        !actions[at].cancelable,
        actions[at].concurrency == Concurrency::Default,
        actions[at].item_key is None,
        actions[at].item_operations is None,
        actions[at].timeout_ms is None,
{
    assert(actions[at].lists(manifest()[at]));
}

} // verus!
