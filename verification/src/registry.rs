//! The registry of devices: a device is registered with HomeCore when it is first seen.
//!
//! A batch of updates is worked off as a row of calls to HomeCore. The registry says which call is
//! due; the caller performs it and says whether it succeeded, until the batch is done.

use crate::cache;
use crate::cache::{cached, is_cache_path, list_document};
use crate::json::{Json, JsonView};
use crate::text::texts;
use vstd::hash_set::StringHashSet;
use vstd::prelude::*;
use vstd::utf8::{decode_utf8, valid_utf8};

verus! {

/// The state that a sensor reported.
#[derive(Debug, PartialEq, Eq)]
pub struct DeviceUpdate {
    pub device_id: String,
    pub name: String,
    pub device_type: &'static str,
    pub state: Json,
}

/// What an update says.
#[verifier::ext_equal]
pub struct UpdateView {
    pub device_id: Seq<char>,
    pub name: Seq<char>,
    pub device_type: Seq<char>,
    pub state: JsonView,
}

impl View for DeviceUpdate {
    type V = UpdateView;

    open spec fn view(&self) -> UpdateView {
        UpdateView {
            device_id: self.device_id@,
            name: self.name@,
            device_type: self.device_type@,
            state: self.state@,
        }
    }
}

/// What each update of a list says.
pub open spec fn updates_of(list: Seq<DeviceUpdate>) -> Seq<UpdateView> {
    list.map_values(|update: DeviceUpdate| update@)
}

/// A call to HomeCore, or to the disk, that the registry wants made.
#[derive(Debug, PartialEq, Eq)]
pub enum RegistryCall {
    /// Register a device, in no area and with no further description.
    RegisterDevice { device_id: String, name: String, device_type: &'static str },
    /// Subscribe to the commands of a device.
    SubscribeCommands { device_id: String },
    /// Say that a device is there.
    PublishAvailability { device_id: String, online: bool },
    /// Write the cache file.
    SaveCache { path: String, document: Vec<u8> },
    /// Publish the state of a device.
    PublishState { device_id: String, state: Json },
    /// The batch is done.
    Done,
}

/// What a call says.
#[verifier::ext_equal]
pub enum CallView {
    RegisterDevice { device_id: Seq<char>, name: Seq<char>, device_type: Seq<char> },
    SubscribeCommands { device_id: Seq<char> },
    PublishAvailability { device_id: Seq<char>, online: bool },
    SaveCache { path: Seq<char>, document: Seq<u8> },
    PublishState { device_id: Seq<char>, state: JsonView },
    Done,
}

impl View for RegistryCall {
    type V = CallView;

    open spec fn view(&self) -> CallView {
        match self {
            RegistryCall::RegisterDevice { device_id, name, device_type } => {
                CallView::RegisterDevice {
                    device_id: device_id@,
                    name: name@,
                    device_type: device_type@,
                }
            },
            RegistryCall::SubscribeCommands { device_id } => CallView::SubscribeCommands {
                device_id: device_id@,
            },
            RegistryCall::PublishAvailability { device_id, online } => {
                CallView::PublishAvailability { device_id: device_id@, online: *online }
            },
            RegistryCall::SaveCache { path, document } => CallView::SaveCache {
                path: path@,
                document: document@,
            },
            RegistryCall::PublishState { device_id, state } => CallView::PublishState {
                device_id: device_id@,
                state: state@,
            },
            RegistryCall::Done => CallView::Done,
        }
    }
}

/// How far a batch has come. The number is the place of the update whose device is new.
#[derive(Debug, Clone, Copy)]
enum Stage {
    Registering(usize),
    Subscribing(usize),
    Announcing(usize),
    Saving(usize),
    Publishing,
}

/// A batch of updates that is being worked off.
#[derive(Debug)]
pub struct UpdateBatch {
    updates: Vec<DeviceUpdate>,
    stage: Stage,
}

/// How far a batch has come.
pub enum StageView {
    /// The device of an update is being registered.
    Registering(int),
    /// Its commands are being subscribed to.
    Subscribing(int),
    /// It is being announced.
    Announcing(int),
    /// The cache is being written.
    Saving(int),
    /// All devices are dealt with; the remaining updates are being published.
    Publishing,
}

/// The updates of a batch, and how far it has come.
#[verifier::ext_equal]
pub struct BatchView {
    pub updates: Seq<UpdateView>,
    pub stage: StageView,
}

impl View for UpdateBatch {
    type V = BatchView;

    closed spec fn view(&self) -> BatchView {
        BatchView {
            updates: updates_of(self.updates@),
            stage: match self.stage {
                Stage::Registering(at) => StageView::Registering(at as int),
                Stage::Subscribing(at) => StageView::Subscribing(at as int),
                Stage::Announcing(at) => StageView::Announcing(at as int),
                Stage::Saving(at) => StageView::Saving(at as int),
                Stage::Publishing => StageView::Publishing,
            },
        }
    }
}

impl BatchView {
    /// Whether the batch stands at one of its updates, or at their end.
    pub open spec fn wf(self) -> bool {
        match self.stage {
            StageView::Registering(at) => 0 <= at < self.updates.len(),
            StageView::Subscribing(at) => 0 <= at < self.updates.len(),
            StageView::Announcing(at) => 0 <= at < self.updates.len(),
            StageView::Saving(at) => 0 <= at < self.updates.len(),
            StageView::Publishing => true,
        }
    }
}

/// The registry: which devices have been registered, in the order in which they were, and which
/// ones an earlier run had registered.
pub struct DeviceRegistry {
    known: StringHashSet,
    order: Vec<String>,
    earlier: Vec<String>,
    plugin_id: String,
    cache_path: String,
}

/// What a registry knows.
#[verifier::ext_equal]
pub struct RegistryView {
    pub registered: Seq<Seq<char>>,
    pub earlier: Seq<Seq<char>>,
    pub plugin_id: Seq<char>,
    pub cache_path: Seq<char>,
}

impl View for DeviceRegistry {
    type V = RegistryView;

    closed spec fn view(&self) -> RegistryView {
        RegistryView {
            registered: texts(self.order@),
            earlier: texts(self.earlier@),
            plugin_id: self.plugin_id@,
            cache_path: self.cache_path@,
        }
    }
}

/// A device that is to be unregistered.
#[derive(Debug, PartialEq, Eq)]
pub struct StaleDevice {
    pub plugin_id: String,
    pub device_id: String,
}

// ---------------------------------------------------------------------------------------------
// How a batch is worked off
// ---------------------------------------------------------------------------------------------

/// The registered ids with one more.
pub open spec fn with_id(registered: Seq<Seq<char>>, id: Seq<char>) -> Seq<Seq<char>> {
    if registered.contains(id) {
        registered
    } else {
        registered.push(id)
    }
}

/// The call that registers the device of an update.
pub open spec fn register_call(update: UpdateView) -> CallView {
    CallView::RegisterDevice {
        device_id: update.device_id,
        name: update.name,
        device_type: update.device_type,
    }
}

/// The call that publishes an update.
pub open spec fn publish_call(update: UpdateView) -> CallView {
    CallView::PublishState { device_id: update.device_id, state: update.state }
}

/// Publishes the next update, or ends the batch.
pub open spec fn publish_next(updates: Seq<UpdateView>) -> (BatchView, CallView) {
    if updates.len() == 0 {
        (BatchView { updates, stage: StageView::Publishing }, CallView::Done)
    } else {
        (
            BatchView { updates: updates.drop_first(), stage: StageView::Publishing },
            publish_call(updates[0]),
        )
    }
}

/// Registers the device of the first update, from the given one on, whose device is not
/// registered; publishes where there is none.
pub open spec fn scan(
    registered: Seq<Seq<char>>,
    updates: Seq<UpdateView>,
    from: int,
) -> (BatchView, CallView)
    decreases updates.len() - from,
{
    if from >= updates.len() {
        publish_next(updates)
    } else if registered.contains(updates[from].device_id) {
        scan(registered, updates, from + 1)
    } else {
        (
            BatchView { updates, stage: StageView::Registering(from) },
            register_call(updates[from]),
        )
    }
}

/// One step: what a registry and a batch become when the call that was due has been made, and
/// which call is due then. Only the outcome of a registration matters.
pub open spec fn step(
    registry: RegistryView,
    batch: BatchView,
    succeeded: bool,
) -> (RegistryView, BatchView, CallView) {
    let updates = batch.updates;
    match batch.stage {
        StageView::Registering(at) => if succeeded {
            (
                registry,
                BatchView { updates, stage: StageView::Subscribing(at) },
                CallView::SubscribeCommands { device_id: updates[at].device_id },
            )
        } else {
            let (next, call) = scan(registry.registered, updates, at + 1);
            (registry, next, call)
        },
        StageView::Subscribing(at) => (
            registry,
            BatchView { updates, stage: StageView::Announcing(at) },
            CallView::PublishAvailability { device_id: updates[at].device_id, online: true },
        ),
        StageView::Announcing(at) => {
            let registered = with_id(registry.registered, updates[at].device_id);
            (
                RegistryView { registered, ..registry },
                BatchView { updates, stage: StageView::Saving(at) },
                CallView::SaveCache {
                    path: registry.cache_path,
                    document: list_document(registered),
                },
            )
        },
        StageView::Saving(at) => {
            let (next, call) = scan(registry.registered, updates, at + 1);
            (registry, next, call)
        },
        StageView::Publishing => {
            let (next, call) = publish_next(updates);
            (registry, next, call)
        },
    }
}

impl RegistryView {
    /// The devices that an earlier run registered and that have not been registered since.
    pub open spec fn stale(self) -> Seq<Seq<char>> {
        self.earlier.filter(|id: Seq<char>| !self.registered.contains(id))
    }
}

// ---------------------------------------------------------------------------------------------
// Executable side
// ---------------------------------------------------------------------------------------------

impl DeviceRegistry {
    /// Whether the registry is sound: no device stands in it twice, and what is looked up is what
    /// is listed.
    pub closed spec fn wf(self) -> bool {
        &&& texts(self.order@).no_duplicates()
        &&& forall|id: Seq<char>|
            #[trigger] self.known@.contains(id) <==> texts(self.order@).contains(id)
    }

    /// An empty registry whose cache lies beside the configuration file. `earlier` is the text of
    /// the cache file as an earlier run left it, where it can be read: the first registration
    /// overwrites the file.
    pub fn new(plugin_id: String, config_path: &str, earlier: Option<&str>) -> (registry:
        DeviceRegistry)
        ensures
            registry.wf(),
            registry@.registered == Seq::<Seq<char>>::empty(),
            registry@.earlier == cached(
                match earlier {
                    Some(text) => Some(text@),
                    None => None,
                },
            ),
            registry@.plugin_id == plugin_id@,
            is_cache_path(config_path@, registry@.cache_path),
    {
        let registry = DeviceRegistry {
            known: StringHashSet::new(),
            order: Vec::new(),
            earlier: cache::load_cache(earlier),
            plugin_id,
            cache_path: cache::cache_path(config_path),
        };
        assert(registry@.registered =~= Seq::<Seq<char>>::empty());
        registry
    }

    /// Whether a device is registered.
    pub fn is_registered(&self, device_id: &str) -> (found: bool)
        requires
            self.wf(),
        ensures
            found == self@.registered.contains(device_id@),
    {
        self.known.contains(device_id)
    }

    /// The path of the cache file.
    pub fn cache_path(&self) -> (path: &str)
        ensures
            path@ == self@.cache_path,
    {
        self.cache_path.as_str()
    }

    /// Starts to work off a batch: first every new device is registered, then every update is
    /// published.
    pub fn process_updates(&self, updates: Vec<DeviceUpdate>) -> (started: (
        UpdateBatch,
        RegistryCall,
    ))
        requires
            self.wf(),
        ensures
            (started.0@, started.1@) == scan(self@.registered, updates_of(updates@), 0),
            started.0@.wf(),
            started.1 matches RegistryCall::PublishState { device_id, state } ==> {
                &&& updates@.len() > 0
                &&& device_id@ == updates@[0].device_id@
                &&& state@ == updates@[0].state@
            },
            started.1 is Done <==> updates@.len() == 0,
    {
        proof {
            a_scan_registers_or_publishes(self@.registered, updates_of(updates@), 0);
        }
        self.scan_from(updates, 0)
    }

    /// Goes on with a batch after the call that was due has been made.
    pub fn advance(&mut self, batch: UpdateBatch, succeeded: bool) -> (next: (
        UpdateBatch,
        RegistryCall,
    ))
        requires
            old(self).wf(),
            batch@.wf(),
        ensures
            final(self).wf(),
            next.0@.wf(),
            (final(self)@, next.0@, next.1@) == step(old(self)@, batch@, succeeded),
            next.1@ matches CallView::SaveCache { document, .. } ==> {
                &&& valid_utf8(document)
                &&& cached(Some(decode_utf8(document))) == final(self)@.registered
            },
    {
        proof {
            scanning_saves_nothing();
        }
        let updates = batch.updates;
        match batch.stage {
            Stage::Registering(at) => if succeeded {
                let device_id = updates[at].device_id.clone();
                (
                    UpdateBatch { updates, stage: Stage::Subscribing(at) },
                    RegistryCall::SubscribeCommands { device_id },
                )
            } else {
                assert(at < updates.len());
                self.scan_from(updates, at + 1)
            },
            Stage::Subscribing(at) => {
                let device_id = updates[at].device_id.clone();
                (
                    UpdateBatch { updates, stage: Stage::Announcing(at) },
                    RegistryCall::PublishAvailability { device_id, online: true },
                )
            },
            Stage::Announcing(at) => {
                self.register_device(updates[at].device_id.clone());
                let path = self.cache_path.clone();
                let document = self.save_cache();
                (
                    UpdateBatch { updates, stage: Stage::Saving(at) },
                    RegistryCall::SaveCache { path, document },
                )
            },
            Stage::Saving(at) => {
                assert(at < updates.len());
                self.scan_from(updates, at + 1)
            },
            Stage::Publishing => publish_from(updates),
        }
    }

    /// Notes that a device is registered.
    fn register_device(&mut self, device_id: String)
        requires
            old(self).wf(),
        ensures
            final(self).wf(),
            final(self)@ == (RegistryView {
                registered: with_id(old(self)@.registered, device_id@),
                ..old(self)@
            }),
    {
        let ghost before = texts(self.order@);
        if !self.is_registered(device_id.as_str()) {
            self.known.insert(device_id.clone());
            self.order.push(device_id);
            proof {
                let after = texts(self.order@);
                assert(after =~= before.push(device_id@));
                assert forall|id: Seq<char>| #[trigger]
                    self.known@.contains(id) <==> after.contains(id) by {
                    if before.contains(id) {
                        let i = choose|i: int| 0 <= i < before.len() && before[i] == id;
                        assert(after[i] == id);
                    }
                    assert(after[before.len() as int] == device_id@);
                    if after.contains(id) {
                        let i = choose|i: int| 0 <= i < after.len() && after[i] == id;
                        assert(i < before.len() ==> before[i] == id);
                    }
                }
            }
        }
    }

    /// Registers the first new device from the given update on, or starts to publish.
    fn scan_from(&self, updates: Vec<DeviceUpdate>, from: usize) -> (next: (
        UpdateBatch,
        RegistryCall,
    ))
        requires
            self.wf(),
            from <= updates@.len(),
        ensures
            (next.0@, next.1@) == scan(self@.registered, updates_of(updates@), from as int),
            next.0@.wf(),
    {
        let ghost all = updates_of(updates@);
        let mut at: usize = from;
        while at < updates.len()
            invariant
                self.wf(),
                at <= updates@.len(),
                all == updates_of(updates@),
                scan(self@.registered, all, from as int) == scan(
                    self@.registered,
                    all,
                    at as int,
                ),
            decreases updates@.len() - at,
        {
            assert(all[at as int] == updates@[at as int]@);
            if !self.is_registered(updates[at].device_id.as_str()) {
                let device_id = updates[at].device_id.clone();
                let name = updates[at].name.clone();
                let device_type = updates[at].device_type;
                return (
                    UpdateBatch { updates, stage: Stage::Registering(at) },
                    RegistryCall::RegisterDevice { device_id, name, device_type },
                );
            }
            at = at + 1;
        }
        publish_from(updates)
    }

    /// The contents of the cache file: the registered devices.
    pub fn save_cache(&self) -> (document: Vec<u8>)
        ensures
            document@ == list_document(self@.registered),
            valid_utf8(document@),
            cached(Some(decode_utf8(document@))) == self@.registered,
    {
        cache::encode(&self.order)
    }

    /// The devices that an earlier run registered and that this one has not.
    pub fn cleanup_stale(&self) -> (stale: Vec<StaleDevice>)
        requires
            self.wf(),
        ensures
            stale_ids(stale@) == self@.stale(),
            forall|i: int|
                0 <= i < stale@.len() ==> (#[trigger] stale@[i]).plugin_id@ == self@.plugin_id,
    {
        let ghost all = texts(self.earlier@);
        let ghost pred = |id: Seq<char>| !self@.registered.contains(id);
        let mut stale: Vec<StaleDevice> = Vec::new();
        let mut i: usize = 0;
        assert(all.take(0).filter(pred) =~= Seq::<Seq<char>>::empty()) by {
            reveal(Seq::filter);
        }
        assert(stale_ids(stale@) =~= Seq::<Seq<char>>::empty());
        while i < self.earlier.len()
            invariant
                self.wf(),
                i <= self.earlier@.len(),
                all == texts(self.earlier@),
                pred == (|id: Seq<char>| !self@.registered.contains(id)),
                stale_ids(stale@) == all.take(i as int).filter(pred),
                forall|j: int|
                    0 <= j < stale@.len() ==> (#[trigger] stale@[j]).plugin_id@
                        == self@.plugin_id,
            decreases self.earlier@.len() - i,
        {
            let ghost before = stale@;
            let device_id = self.earlier[i].clone();
            assert(all.take(i + 1).drop_last() =~= all.take(i as int));
            assert(all.take(i + 1).last() == device_id@);
            if !self.is_registered(device_id.as_str()) {
                stale.push(StaleDevice { plugin_id: self.plugin_id.clone(), device_id });
                assert(stale_ids(stale@) =~= stale_ids(before).push(device_id@));
            }
            proof {
                reveal(Seq::filter);
            }
            i = i + 1;
        }
        assert(all.take(i as int) =~= all);
        stale
    }
}

proof fn scanning_saves_nothing()
    ensures
        forall|registered: Seq<Seq<char>>, updates: Seq<UpdateView>, from: int|
            !((#[trigger] scan(registered, updates, from)).1 is SaveCache),
{
    assert forall|registered: Seq<Seq<char>>, updates: Seq<UpdateView>, from: int|
        !((#[trigger] scan(registered, updates, from)).1 is SaveCache) by {
        a_scan_saves_nothing(registered, updates, from);
    }
}

proof fn a_scan_saves_nothing(registered: Seq<Seq<char>>, updates: Seq<UpdateView>, from: int)
    ensures
        !(scan(registered, updates, from).1 is SaveCache),
    decreases updates.len() - from,
{
    if from < updates.len() && registered.contains(updates[from].device_id) {
        a_scan_saves_nothing(registered, updates, from + 1);
    }
}

proof fn a_scan_registers_or_publishes(
    registered: Seq<Seq<char>>,
    updates: Seq<UpdateView>,
    from: int,
)
    requires
        0 <= from <= updates.len(),
    ensures
        match scan(registered, updates, from).1 {
            CallView::RegisterDevice { .. } => updates.len() > 0,
            CallView::PublishState { device_id, state } => {
                &&& updates.len() > 0
                &&& device_id == updates[0].device_id
                &&& state == updates[0].state
            },
            CallView::Done => updates.len() == 0,
            _ => false,
        },
    decreases updates.len() - from,
{
    if from < updates.len() && registered.contains(updates[from].device_id) {
        a_scan_registers_or_publishes(registered, updates, from + 1);
    }
}

/// A registry lists no device twice.
pub proof fn no_device_is_listed_twice(registry: DeviceRegistry)
    requires
        registry.wf(),
    ensures
        registry@.registered.no_duplicates(),
{
}

/// The ids of devices that are to be unregistered.
pub open spec fn stale_ids(stale: Seq<StaleDevice>) -> Seq<Seq<char>> {
    stale.map_values(|device: StaleDevice| device.device_id@)
}

/// Publishes the first of the updates, or ends the batch.
fn publish_from(updates: Vec<DeviceUpdate>) -> (next: (UpdateBatch, RegistryCall))
    ensures
        (next.0@, next.1@) == publish_next(updates_of(updates@)),
        next.0@.wf(),
{
    let mut updates = updates;
    if updates.len() == 0 {
        (UpdateBatch { updates, stage: Stage::Publishing }, RegistryCall::Done)
    } else {
        let ghost all = updates@;
        let update = updates.remove(0);
        assert(updates_of(updates@) =~= updates_of(all).drop_first());
        (
            UpdateBatch { updates, stage: Stage::Publishing },
            RegistryCall::PublishState { device_id: update.device_id, state: update.state },
        )
    }
}

/// An update, a list of updates and a list of stale devices are read as they are, in order and
/// without loss.
pub proof fn updates_are_read_as_they_are(
    update: DeviceUpdate,
    list: Seq<DeviceUpdate>,
    stale: Seq<StaleDevice>,
)
    ensures
        update@.device_id == update.device_id@,
        update@.name == update.name@,
        update@.device_type == update.device_type@,
        update@.state == update.state@,
        updates_of(list).len() == list.len(),
        forall|i: int| 0 <= i < list.len() ==> (#[trigger] updates_of(list)[i]) == list[i]@,
        stale_ids(stale).len() == stale.len(),
        forall|i: int|
            0 <= i < stale.len() ==> (#[trigger] stale_ids(stale)[i]) == stale[i].device_id@,
{
}

/// A call is read as it is.
pub proof fn a_call_is_read_as_it_is(call: RegistryCall)
    ensures
        match call {
            RegistryCall::RegisterDevice { device_id, name, device_type } => {
                &&& call@ is RegisterDevice
                &&& call@->RegisterDevice_device_id == device_id@
                &&& call@->name == name@
                &&& call@->device_type == device_type@
            },
            RegistryCall::SubscribeCommands { device_id } => {
                &&& call@ is SubscribeCommands
                &&& call@->SubscribeCommands_device_id == device_id@
            },
            RegistryCall::PublishAvailability { device_id, online } => {
                &&& call@ is PublishAvailability
                &&& call@->PublishAvailability_device_id == device_id@
                &&& call@->online == online
            },
            RegistryCall::SaveCache { path, document } => {
                &&& call@ is SaveCache
                &&& call@->path == path@
                &&& call@->document == document@
            },
            RegistryCall::PublishState { device_id, state } => {
                &&& call@ is PublishState
                &&& call@->PublishState_device_id == device_id@
                &&& call@->state == state@
            },
            RegistryCall::Done => call@ is Done,
        },
{
}

} // verus!
