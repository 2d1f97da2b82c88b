//! What holds of a whole batch of updates, whichever registrations HomeCore accepts.

use crate::cache::{cached, list_document};
use crate::registry::{
    publish_call, register_call, scan, step, with_id, BatchView, CallView, RegistryView, StageView,
    UpdateView,
};
use vstd::prelude::*;
use vstd::utf8::decode_utf8;

verus! {

/// How many calls a batch can still make, and a bit more.
pub open spec fn rank(batch: BatchView) -> int {
    let n = batch.updates.len();
    match batch.stage {
        StageView::Registering(at) => n + 4 * (n - at) + 1,
        StageView::Subscribing(at) => n + 4 * (n - at),
        StageView::Announcing(at) => n + 4 * (n - at) - 1,
        StageView::Saving(at) => n + 4 * (n - at) - 2,
        StageView::Publishing => n as int,
    }
}

/// The outcome of the call that is due, where HomeCore accepts the registrations for the given
/// updates. The other calls are taken to succeed; it does not matter.
pub open spec fn outcome(batch: BatchView, accepts: spec_fn(int) -> bool) -> bool {
    match batch.stage {
        StageView::Registering(at) => accepts(at),
        _ => true,
    }
}

/// The calls that a batch makes from where it stands, and the registry after them.
pub open spec fn calls_to_come(
    registry: RegistryView,
    batch: BatchView,
    accepts: spec_fn(int) -> bool,
) -> (RegistryView, Seq<CallView>)
    decreases rank(batch),
    when batch.wf()
    via a_step_lowers_the_rank
{
    let (registry1, batch1, call) = step(registry, batch, outcome(batch, accepts));
    if call is Done {
        (registry1, Seq::empty())
    } else {
        let (registry2, calls) = calls_to_come(registry1, batch1, accepts);
        (registry2, seq![call] + calls)
    }
}

proof fn scan_lowers_the_rank(registered: Seq<Seq<char>>, updates: Seq<UpdateView>, from: int)
    requires
        0 <= from <= updates.len(),
    ensures
        scan(registered, updates, from).0.wf(),
        !(scan(registered, updates, from).1 is Done) ==> 0 <= rank(
            scan(registered, updates, from).0,
        ) <= updates.len() + 4 * (updates.len() - from) + 1,
    decreases updates.len() - from,
{
    if from < updates.len() && registered.contains(updates[from].device_id) {
        scan_lowers_the_rank(registered, updates, from + 1);
    }
}

#[via_fn]
proof fn a_step_lowers_the_rank(
    registry: RegistryView,
    batch: BatchView,
    accepts: spec_fn(int) -> bool,
) {
    let updates = batch.updates;
    match batch.stage {
        StageView::Registering(at) => {
            scan_lowers_the_rank(registry.registered, updates, at + 1);
        },
        StageView::Saving(at) => {
            scan_lowers_the_rank(registry.registered, updates, at + 1);
        },
        _ => {},
    }
}

/// All the calls of a batch, and the registry after them.
pub open spec fn all_calls(
    registry: RegistryView,
    updates: Seq<UpdateView>,
    from: int,
    accepts: spec_fn(int) -> bool,
) -> (RegistryView, Seq<CallView>) {
    let (batch, call) = scan(registry.registered, updates, from);
    if call is Done {
        (registry, Seq::empty())
    } else {
        let (registry1, calls) = calls_to_come(registry, batch, accepts);
        (registry1, seq![call] + calls)
    }
}

/// The calls that publish every update.
pub open spec fn publish_calls(updates: Seq<UpdateView>) -> Seq<CallView> {
    updates.map_values(|update: UpdateView| publish_call(update))
}

/// A registry with one more device.
pub open spec fn grown(registry: RegistryView, id: Seq<char>) -> RegistryView {
    RegistryView { registered: with_id(registry.registered, id), ..registry }
}

/// The calls that register the devices of the updates from the given one on, and the registry
/// after them: a device that is registered is passed over; for another a registration is tried,
/// and where it is accepted its commands are subscribed to, it is announced and the cache is
/// written.
pub open spec fn registrations(
    registry: RegistryView,
    updates: Seq<UpdateView>,
    from: int,
    accepts: spec_fn(int) -> bool,
) -> (RegistryView, Seq<CallView>)
    decreases updates.len() - from,
{
    if from >= updates.len() {
        (registry, Seq::empty())
    } else if registry.registered.contains(updates[from].device_id) {
        registrations(registry, updates, from + 1, accepts)
    } else if accepts(from) {
        let id = updates[from].device_id;
        let registry1 = grown(registry, id);
        let (registry2, calls) = registrations(registry1, updates, from + 1, accepts);
        (
            registry2,
            seq![
                register_call(updates[from]),
                CallView::SubscribeCommands { device_id: id },
                CallView::PublishAvailability { device_id: id, online: true },
                CallView::SaveCache {
                    path: registry.cache_path,
                    document: list_document(registry1.registered),
                },
            ] + calls,
        )
    } else {
        let (registry1, calls) = registrations(registry, updates, from + 1, accepts);
        (registry1, seq![register_call(updates[from])] + calls)
    }
}

proof fn publishing_publishes_the_rest(
    registry: RegistryView,
    updates: Seq<UpdateView>,
    accepts: spec_fn(int) -> bool,
)
    ensures
        calls_to_come(
            registry,
            BatchView { updates, stage: StageView::Publishing },
            accepts,
        ) == (registry, publish_calls(updates)),
    decreases updates.len(),
{
    let batch = BatchView { updates, stage: StageView::Publishing };
    if updates.len() == 0 {
        assert(publish_calls(updates) =~= Seq::<CallView>::empty());
    } else {
        let rest = updates.drop_first();
        publishing_publishes_the_rest(registry, rest, accepts);
        assert(seq![publish_call(updates[0])] + publish_calls(rest) =~= publish_calls(updates));
    }
}

/// A batch first registers the new devices of its updates in order, and then publishes every
/// update in order. Nothing but the outcome of the registrations decides which calls are made.
pub proof fn a_batch_registers_and_publishes(
    registry: RegistryView,
    updates: Seq<UpdateView>,
    from: int,
    accepts: spec_fn(int) -> bool,
)
    requires
        0 <= from <= updates.len(),
    ensures
        all_calls(registry, updates, from, accepts).0 == registrations(
            registry,
            updates,
            from,
            accepts,
        ).0,
        all_calls(registry, updates, from, accepts).1 == registrations(
            registry,
            updates,
            from,
            accepts,
        ).1 + publish_calls(updates),
    decreases updates.len() - from,
{
    reveal_with_fuel(calls_to_come, 2);
    let registered = registry.registered;
    if from == updates.len() {
        publishing_publishes_the_rest(registry, updates, accepts);
        if updates.len() > 0 {
            let rest = updates.drop_first();
            publishing_publishes_the_rest(registry, rest, accepts);
            assert(seq![publish_call(updates[0])] + publish_calls(rest) =~= publish_calls(
                updates,
            ));
        }
        assert(all_calls(registry, updates, from, accepts).1 =~= publish_calls(updates));
        assert(Seq::<CallView>::empty() + publish_calls(updates) =~= publish_calls(updates));
    } else if registered.contains(updates[from].device_id) {
        a_batch_registers_and_publishes(registry, updates, from + 1, accepts);
    } else {
        let id = updates[from].device_id;
        let batch = BatchView { updates, stage: StageView::Registering(from) };
        if accepts(from) {
            let grown_registry = grown(registry, id);
            a_batch_registers_and_publishes(grown_registry, updates, from + 1, accepts);
            let subscribing = BatchView { updates, stage: StageView::Subscribing(from) };
            let announcing = BatchView { updates, stage: StageView::Announcing(from) };
            let saving = BatchView { updates, stage: StageView::Saving(from) };
            let (last_registry, later) = all_calls(grown_registry, updates, from + 1, accepts);
            let (next, call) = scan(grown_registry.registered, updates, from + 1);
            scan_lowers_the_rank(grown_registry.registered, updates, from + 1);
            assert(step(grown_registry, saving, true) == (grown_registry, next, call));
            assert(calls_to_come(grown_registry, saving, accepts).1 =~= later);
            assert(calls_to_come(grown_registry, saving, accepts).0 == last_registry);
            let save = CallView::SaveCache {
                path: registry.cache_path,
                document: list_document(grown_registry.registered),
            };
            assert(calls_to_come(registry, announcing, accepts) == (
                last_registry,
                seq![save] + later,
            ));
            let announce = CallView::PublishAvailability { device_id: id, online: true };
            assert(calls_to_come(registry, subscribing, accepts) == (
                last_registry,
                seq![announce] + (seq![save] + later),
            ));
            let subscribe = CallView::SubscribeCommands { device_id: id };
            assert(calls_to_come(registry, batch, accepts) == (
                last_registry,
                seq![subscribe] + (seq![announce] + (seq![save] + later)),
            ));
            assert(all_calls(registry, updates, from, accepts).1 =~= registrations(
                registry,
                updates,
                from,
                accepts,
            ).1 + publish_calls(updates));
        } else {
            a_batch_registers_and_publishes(registry, updates, from + 1, accepts);
            let (last_registry, later) = all_calls(registry, updates, from + 1, accepts);
            let (next, call) = scan(registry.registered, updates, from + 1);
            scan_lowers_the_rank(registry.registered, updates, from + 1);
            assert(step(registry, batch, false) == (registry, next, call));
            assert(calls_to_come(registry, batch, accepts).1 =~= later);
            assert(calls_to_come(registry, batch, accepts).0 == last_registry);
            assert(all_calls(registry, updates, from, accepts).1 =~= registrations(
                registry,
                updates,
                from,
                accepts,
            ).1 + publish_calls(updates));
        }
    }
}

/// Whether a call succeeds matters only where it registers a device.
pub proof fn only_registrations_can_fail(
    registry: RegistryView,
    batch: BatchView,
    succeeded: bool,
)
    requires
        !(batch.stage is Registering),
    ensures
        step(registry, batch, succeeded) == step(registry, batch, true),
{
}

/// A device is never forgotten: what was registered stays, in its place, and so does what an
/// earlier run had registered.
pub proof fn registered_devices_stay(
    registry: RegistryView,
    updates: Seq<UpdateView>,
    from: int,
    accepts: spec_fn(int) -> bool,
)
    requires
        0 <= from <= updates.len(),
    ensures
        registry.registered.is_prefix_of(
            registrations(registry, updates, from, accepts).0.registered,
        ),
        registrations(registry, updates, from, accepts).0.earlier == registry.earlier,
        registrations(registry, updates, from, accepts).0.plugin_id == registry.plugin_id,
        registrations(registry, updates, from, accepts).0.cache_path == registry.cache_path,
    decreases updates.len() - from,
{
    if from < updates.len() {
        let id = updates[from].device_id;
        if registry.registered.contains(id) || !accepts(from) {
            registered_devices_stay(registry, updates, from + 1, accepts);
        } else {
            let next = grown(registry, id);
            registered_devices_stay(next, updates, from + 1, accepts);
            let last = registrations(next, updates, from + 1, accepts).0.registered;
            assert(registry.registered =~= last.take(registry.registered.len() as int)) by {
                assert(next.registered =~= last.take(next.registered.len() as int));
                assert forall|i: int| 0 <= i < registry.registered.len() implies last[i]
                    == registry.registered[i] by {
                    assert(next.registered[i] == last[i]);
                }
            }
        }
    }
}

/// After a batch a device is registered if it was before, or if HomeCore accepts it for one of
/// the updates; and in no other case.
pub proof fn accepted_devices_are_registered(
    registry: RegistryView,
    updates: Seq<UpdateView>,
    from: int,
    accepts: spec_fn(int) -> bool,
    id: Seq<char>,
)
    requires
        0 <= from <= updates.len(),
    ensures
        registrations(registry, updates, from, accepts).0.registered.contains(id) <==> (
        registry.registered.contains(id) || exists|i: int|
            from <= i < updates.len() && (#[trigger] updates[i]).device_id == id && accepts(i)),
    decreases updates.len() - from,
{
    if from < updates.len() {
        let here = updates[from].device_id;
        if registry.registered.contains(here) || !accepts(from) {
            accepted_devices_are_registered(registry, updates, from + 1, accepts, id);
        } else {
            let next = grown(registry, here);
            accepted_devices_are_registered(next, updates, from + 1, accepts, id);
            assert(next.registered =~= registry.registered.push(here));
            if registry.registered.contains(id) {
                let i = choose|i: int|
                    0 <= i < registry.registered.len() && registry.registered[i] == id;
                assert(next.registered[i] == id);
            }
            if id == here {
                assert(next.registered[registry.registered.len() as int] == id);
                assert(updates[from].device_id == id);
            }
            if next.registered.contains(id) && id != here {
                let i = choose|i: int| 0 <= i < next.registered.len() && next.registered[i] == id;
                assert(registry.registered[i] == id);
            }
        }
    }
}

/// A device that is registered is not registered again; and nothing is published, nor the batch
/// ended, while devices are being registered.
pub proof fn only_new_devices_are_registered(
    registry: RegistryView,
    updates: Seq<UpdateView>,
    from: int,
    accepts: spec_fn(int) -> bool,
    at: int,
)
    requires
        0 <= from <= updates.len(),
        0 <= at < registrations(registry, updates, from, accepts).1.len(),
    ensures
        registrations(registry, updates, from, accepts).1[at]
            matches CallView::RegisterDevice { device_id, .. } ==> !registry.registered.contains(
            device_id,
        ),
        !(registrations(registry, updates, from, accepts).1[at] is PublishState),
        !(registrations(registry, updates, from, accepts).1[at] is Done),
    decreases updates.len() - from,
{
    if from < updates.len() {
        let here = updates[from].device_id;
        if registry.registered.contains(here) {
            only_new_devices_are_registered(registry, updates, from + 1, accepts, at);
        } else if accepts(from) {
            if at >= 4 {
                let next = grown(registry, here);
                only_new_devices_are_registered(next, updates, from + 1, accepts, at - 4);
                assert forall|id: Seq<char>| #[trigger]
                    registry.registered.contains(id) implies next.registered.contains(id) by {
                    let i = choose|i: int|
                        0 <= i < registry.registered.len() && registry.registered[i] == id;
                    assert(next.registered[i] == id);
                }
            }
        } else if at >= 1 {
            only_new_devices_are_registered(registry, updates, from + 1, accepts, at - 1);
        }
    }
}

/// A batch from devices that are all registered only publishes.
pub proof fn known_devices_are_only_published(
    registry: RegistryView,
    updates: Seq<UpdateView>,
    from: int,
    accepts: spec_fn(int) -> bool,
)
    requires
        0 <= from <= updates.len(),
        forall|i: int|
            from <= i < updates.len() ==> registry.registered.contains(
                (#[trigger] updates[i]).device_id,
            ),
    ensures
        all_calls(registry, updates, from, accepts) == (registry, publish_calls(updates)),
    decreases updates.len() - from,
{
    if from < updates.len() {
        assert(registry.registered.contains(updates[from].device_id));
        known_devices_are_only_published(registry, updates, from + 1, accepts);
    } else {
        a_batch_registers_and_publishes(registry, updates, from, accepts);
        assert(Seq::<CallView>::empty() + publish_calls(updates) =~= publish_calls(updates));
    }
}

proof fn filtering_leaves_out_the_registered(
    listed: Seq<Seq<char>>,
    registered: Seq<Seq<char>>,
    id: Seq<char>,
)
    ensures
        listed.filter(|id: Seq<char>| !registered.contains(id)).contains(id) <==> (
        listed.contains(id) && !registered.contains(id)),
    decreases listed.len(),
{
    reveal(Seq::filter);
    let pred = |id: Seq<char>| !registered.contains(id);
    if listed.len() > 0 {
        let head = listed.drop_last();
        let last = listed.last();
        filtering_leaves_out_the_registered(head, registered, id);
        let kept = head.filter(pred);
        assert(listed =~= head.push(last));
        if listed.contains(id) && id != last {
            let i = choose|i: int| 0 <= i < listed.len() && listed[i] == id;
            assert(head[i] == id);
        }
        if head.contains(id) {
            let i = choose|i: int| 0 <= i < head.len() && head[i] == id;
            assert(listed[i] == id);
        }
        assert(listed[listed.len() - 1] == last);
        if pred(last) {
            let all = kept.push(last);
            assert(all[kept.len() as int] == last);
            if kept.contains(id) {
                let i = choose|i: int| 0 <= i < kept.len() && kept[i] == id;
                assert(all[i] == id);
            }
            if all.contains(id) && id != last {
                let i = choose|i: int| 0 <= i < all.len() && all[i] == id;
                assert(kept[i] == id);
            }
        }
    }
}

/// A device is stale exactly if an earlier run registered it and this one has not.
pub proof fn stale_devices_are_known_from_earlier_and_not_registered(
    registry: RegistryView,
    id: Seq<char>,
)
    ensures
        registry.stale().contains(id) <==> (registry.earlier.contains(id)
            && !registry.registered.contains(id)),
{
    filtering_leaves_out_the_registered(registry.earlier, registry.registered, id);
}

/// What one run saved is stale in a later one until it is registered there: the devices to
/// unregister are those that the saved registry held and the current one does not.
pub proof fn a_saved_device_is_stale_until_it_is_seen(
    document: Seq<u8>,
    saved: RegistryView,
    current: RegistryView,
    id: Seq<char>,
)
    requires
        cached(Some(decode_utf8(document))) == saved.registered,
        current.earlier == cached(Some(decode_utf8(document))),
    ensures
        current.stale().contains(id) <==> (saved.registered.contains(id)
            && !current.registered.contains(id)),
{
    stale_devices_are_known_from_earlier_and_not_registered(current, id);
}

/// A batch takes a device off the stale ones exactly if HomeCore accepts it for one of the
/// updates. Writing the cache takes none off: what only an earlier run registered stays stale,
/// whatever this run registers.
pub proof fn a_batch_leaves_the_unseen_stale(
    registry: RegistryView,
    updates: Seq<UpdateView>,
    accepts: spec_fn(int) -> bool,
    id: Seq<char>,
)
    ensures
        all_calls(registry, updates, 0, accepts).0.stale().contains(id) <==> (
        registry.stale().contains(id) && !exists|i: int|
            0 <= i < updates.len() && (#[trigger] updates[i]).device_id == id && accepts(i)),
{
    let after = all_calls(registry, updates, 0, accepts).0;
    a_batch_registers_and_publishes(registry, updates, 0, accepts);
    registered_devices_stay(registry, updates, 0, accepts);
    accepted_devices_are_registered(registry, updates, 0, accepts, id);
    stale_devices_are_known_from_earlier_and_not_registered(registry, id);
    stale_devices_are_known_from_earlier_and_not_registered(after, id);
}

/// Whether a row of calls holds a registration of a device.
pub open spec fn registers(calls: Seq<CallView>, id: Seq<char>) -> bool {
    exists|at: int|
        0 <= at < calls.len() && (#[trigger] calls[at] matches CallView::RegisterDevice {
            device_id,
            ..
        } && device_id == id)
}

proof fn rows_register_what_their_parts_do(
    first: Seq<CallView>,
    second: Seq<CallView>,
    id: Seq<char>,
)
    ensures
        registers(first + second, id) <==> registers(first, id) || registers(second, id),
{
    let both = first + second;
    if registers(first, id) {
        let at = choose|at: int|
            0 <= at < first.len() && (#[trigger] first[at] matches CallView::RegisterDevice {
                device_id,
                ..
            } && device_id == id);
        assert(both[at] == first[at]);
    }
    if registers(second, id) {
        let at = choose|at: int|
            0 <= at < second.len() && (#[trigger] second[at] matches CallView::RegisterDevice {
                device_id,
                ..
            } && device_id == id);
        assert(both[first.len() + at] == second[at]);
    }
    if registers(both, id) {
        let at = choose|at: int|
            0 <= at < both.len() && (#[trigger] both[at] matches CallView::RegisterDevice {
                device_id,
                ..
            } && device_id == id);
        if at < first.len() {
            assert(first[at] == both[at]);
        } else {
            assert(second[at - first.len()] == both[at]);
        }
    }
}

/// Whether a batch has news of a device from the given update on.
pub open spec fn has_news(updates: Seq<UpdateView>, from: int, id: Seq<char>) -> bool {
    exists|i: int| from <= i < updates.len() && (#[trigger] updates[i]).device_id == id
}

proof fn new_devices_are_tried(
    registry: RegistryView,
    updates: Seq<UpdateView>,
    from: int,
    accepts: spec_fn(int) -> bool,
    id: Seq<char>,
)
    requires
        0 <= from <= updates.len(),
    ensures
        registers(registrations(registry, updates, from, accepts).1, id) <==> (has_news(
            updates,
            from,
            id,
        ) && !registry.registered.contains(id)),
    decreases updates.len() - from,
{
    if from < updates.len() {
        let here = updates[from].device_id;
        assert(has_news(updates, from, id) <==> here == id || has_news(updates, from + 1, id));
        if registry.registered.contains(here) {
            new_devices_are_tried(registry, updates, from + 1, accepts, id);
        } else if accepts(from) {
            let next = grown(registry, here);
            new_devices_are_tried(next, updates, from + 1, accepts, id);
            let head = seq![
                register_call(updates[from]),
                CallView::SubscribeCommands { device_id: here },
                CallView::PublishAvailability { device_id: here, online: true },
                CallView::SaveCache {
                    path: registry.cache_path,
                    document: list_document(next.registered),
                },
            ];
            rows_register_what_their_parts_do(
                head,
                registrations(next, updates, from + 1, accepts).1,
                id,
            );
            assert(head[0] == register_call(updates[from]));
            assert(registers(head, id) <==> here == id);
            if id != here {
                if registry.registered.contains(id) {
                    let i = choose|i: int|
                        0 <= i < registry.registered.len() && registry.registered[i] == id;
                    assert(next.registered[i] == id);
                }
                if next.registered.contains(id) {
                    let i = choose|i: int|
                        0 <= i < next.registered.len() && next.registered[i] == id;
                    assert(registry.registered[i] == id);
                }
            }
        } else {
            new_devices_are_tried(registry, updates, from + 1, accepts, id);
            let head = seq![register_call(updates[from])];
            rows_register_what_their_parts_do(
                head,
                registrations(registry, updates, from + 1, accepts).1,
                id,
            );
            assert(head[0] == register_call(updates[from]));
            assert(registers(head, id) <==> here == id);
        }
    }
}

/// A batch tries to register a device if and only if it has news of it and the device is not
/// registered.
pub proof fn a_batch_tries_every_new_device(
    registry: RegistryView,
    updates: Seq<UpdateView>,
    accepts: spec_fn(int) -> bool,
    id: Seq<char>,
)
    ensures
        registers(all_calls(registry, updates, 0, accepts).1, id) <==> (has_news(updates, 0, id)
            && !registry.registered.contains(id)),
{
    a_batch_registers_and_publishes(registry, updates, 0, accepts);
    new_devices_are_tried(registry, updates, 0, accepts, id);
    rows_register_what_their_parts_do(
        registrations(registry, updates, 0, accepts).1,
        publish_calls(updates),
        id,
    );
    assert(!registers(publish_calls(updates), id));
}

/// A device that HomeCore did not accept is tried again: every next batch with news of a device
/// registers it if and only if it was not registered before and no registration of it was accepted
/// in the batch before.
pub proof fn a_refused_device_is_tried_again(
    registry: RegistryView,
    updates: Seq<UpdateView>,
    accepts: spec_fn(int) -> bool,
    next_updates: Seq<UpdateView>,
    next_accepts: spec_fn(int) -> bool,
    id: Seq<char>,
)
    requires
        has_news(next_updates, 0, id),
    ensures
        registers(
            all_calls(
                all_calls(registry, updates, 0, accepts).0,
                next_updates,
                0,
                next_accepts,
            ).1,
            id,
        ) <==> (!registry.registered.contains(id) && !exists|i: int|
            0 <= i < updates.len() && (#[trigger] updates[i]).device_id == id && accepts(i)),
{
    let after = all_calls(registry, updates, 0, accepts).0;
    a_batch_registers_and_publishes(registry, updates, 0, accepts);
    accepted_devices_are_registered(registry, updates, 0, accepts, id);
    a_batch_tries_every_new_device(after, next_updates, next_accepts, id);
}

/// The last call of a row that writes the cache.
pub open spec fn last_save(calls: Seq<CallView>) -> Option<CallView>
    decreases calls.len(),
{
    if calls.len() == 0 {
        None
    } else if calls.last() is SaveCache {
        Some(calls.last())
    } else {
        last_save(calls.drop_last())
    }
}

proof fn the_later_save_counts(first: Seq<CallView>, second: Seq<CallView>)
    ensures
        last_save(first + second) == (if last_save(second) is Some {
            last_save(second)
        } else {
            last_save(first)
        }),
    decreases second.len(),
{
    if second.len() == 0 {
        assert(first + second =~= first);
    } else {
        assert((first + second).drop_last() =~= first + second.drop_last());
        assert((first + second).last() == second.last());
        the_later_save_counts(first, second.drop_last());
    }
}

/// The cache keeps up with the registry: where a batch writes it, what it writes last lists the
/// registry as the batch leaves it; and where it does not, the registry is as it was.
pub proof fn the_cache_keeps_up(
    registry: RegistryView,
    updates: Seq<UpdateView>,
    from: int,
    accepts: spec_fn(int) -> bool,
)
    requires
        0 <= from <= updates.len(),
    ensures
        ({
            let (after, calls) = registrations(registry, updates, from, accepts);
            match last_save(calls) {
                Some(save) => save == (CallView::SaveCache {
                    path: registry.cache_path,
                    document: list_document(after.registered),
                }),
                None => after == registry,
            }
        }),
    decreases updates.len() - from,
{
    if from < updates.len() {
        let id = updates[from].device_id;
        if registry.registered.contains(id) {
            the_cache_keeps_up(registry, updates, from + 1, accepts);
        } else if accepts(from) {
            let next = grown(registry, id);
            the_cache_keeps_up(next, updates, from + 1, accepts);
            let head = seq![
                register_call(updates[from]),
                CallView::SubscribeCommands { device_id: id },
                CallView::PublishAvailability { device_id: id, online: true },
                CallView::SaveCache {
                    path: registry.cache_path,
                    document: list_document(next.registered),
                },
            ];
            the_later_save_counts(head, registrations(next, updates, from + 1, accepts).1);
            assert(last_save(head) == Some(head[3]));
        } else {
            the_cache_keeps_up(registry, updates, from + 1, accepts);
            let head = seq![register_call(updates[from])];
            the_later_save_counts(head, registrations(registry, updates, from + 1, accepts).1);
            reveal_with_fuel(last_save, 2);
            assert(last_save(head) is None);
        }
    }
}

/// A device that was accepted is not registered again in the same batch, however often the batch
/// has news of it.
pub proof fn an_accepted_device_is_left_alone(
    registry: RegistryView,
    updates: Seq<UpdateView>,
    from: int,
    accepts: spec_fn(int) -> bool,
    first: int,
    second: int,
)
    requires
        0 <= from <= updates.len(),
        0 <= first < second < registrations(registry, updates, from, accepts).1.len(),
        registrations(registry, updates, from, accepts).1[first] is SubscribeCommands,
    ensures
        registrations(registry, updates, from, accepts).1[second]
            matches CallView::RegisterDevice { device_id, .. } ==> device_id
            != registrations(registry, updates, from, accepts).1[first]->SubscribeCommands_device_id,
    decreases updates.len() - from,
{
    if from < updates.len() {
        let here = updates[from].device_id;
        if registry.registered.contains(here) {
            an_accepted_device_is_left_alone(registry, updates, from + 1, accepts, first, second);
        } else if accepts(from) {
            let next = grown(registry, here);
            if first >= 4 {
                an_accepted_device_is_left_alone(
                    next,
                    updates,
                    from + 1,
                    accepts,
                    first - 4,
                    second - 4,
                );
            } else if second >= 4 {
                only_new_devices_are_registered(next, updates, from + 1, accepts, second - 4);
                assert(next.registered[registry.registered.len() as int] == here);
            }
        } else if first >= 1 {
            an_accepted_device_is_left_alone(
                registry,
                updates,
                from + 1,
                accepts,
                first - 1,
                second - 1,
            );
        }
    }
}

/// A batch whose first new device, from the given update on, is that of the update `at` registers
/// it, with its id, its name and its type.
pub proof fn the_first_new_device_is_registered_as_it_is(
    registered: Seq<Seq<char>>,
    updates: Seq<UpdateView>,
    from: int,
    at: int,
)
    requires
        0 <= from <= at < updates.len(),
        !registered.contains(updates[at].device_id),
        forall|i: int| from <= i < at ==> registered.contains((#[trigger] updates[i]).device_id),
    ensures
        scan(registered, updates, from).0.updates == updates,
        scan(registered, updates, from).0.stage == StageView::Registering(at),
        scan(registered, updates, from).1 is RegisterDevice,
        scan(registered, updates, from).1->RegisterDevice_device_id == updates[at].device_id,
        scan(registered, updates, from).1->name == updates[at].name,
        scan(registered, updates, from).1->device_type == updates[at].device_type,
    decreases at - from,
{
    if from < at {
        assert(registered.contains(updates[from].device_id));
        the_first_new_device_is_registered_as_it_is(registered, updates, from + 1, at);
    }
}

/// A batch without a new device from the given update on publishes its first update as it is, and
/// keeps the others for later; without updates it is done.
pub proof fn without_a_new_device_the_first_update_is_published(
    registered: Seq<Seq<char>>,
    updates: Seq<UpdateView>,
    from: int,
)
    requires
        0 <= from <= updates.len(),
        forall|i: int|
            from <= i < updates.len() ==> registered.contains((#[trigger] updates[i]).device_id),
    ensures
        scan(registered, updates, from).0.stage is Publishing,
        updates.len() == 0 ==> scan(registered, updates, from).1 is Done,
        updates.len() > 0 ==> {
            &&& scan(registered, updates, from).0.updates == updates.drop_first()
            &&& scan(registered, updates, from).1 is PublishState
            &&& scan(registered, updates, from).1->PublishState_device_id == updates[0].device_id
            &&& scan(registered, updates, from).1->state == updates[0].state
        },
    decreases updates.len() - from,
{
    if from < updates.len() {
        assert(registered.contains(updates[from].device_id));
        without_a_new_device_the_first_update_is_published(registered, updates, from + 1);
    }
}

/// An accepted device is subscribed to, then announced as online, then noted and saved, all under
/// its own id; and then the batch goes on with the update after it. A refused device is left where
/// it is, and the batch goes on with the update after it.
pub proof fn an_accepted_device_is_introduced(
    registry: RegistryView,
    updates: Seq<UpdateView>,
    at: int,
    succeeded: bool,
)
    requires
        0 <= at < updates.len(),
    ensures
        ({
            let id = updates[at].device_id;
            let registering = BatchView { updates, stage: StageView::Registering(at) };
            let subscribing = BatchView { updates, stage: StageView::Subscribing(at) };
            let announcing = BatchView { updates, stage: StageView::Announcing(at) };
            let saving = BatchView { updates, stage: StageView::Saving(at) };
            let next = scan(registry.registered, updates, at + 1);
            &&& step(registry, registering, true) == (
                registry,
                subscribing,
                CallView::SubscribeCommands { device_id: id },
            )
            &&& step(registry, registering, false) == (registry, next.0, next.1)
            &&& step(registry, subscribing, succeeded) == (
                registry,
                announcing,
                CallView::PublishAvailability { device_id: id, online: true },
            )
            &&& !registry.registered.contains(id) ==> {
                let after = step(registry, announcing, succeeded);
                &&& after.0.registered == registry.registered.push(id)
                &&& after.0.earlier == registry.earlier
                &&& after.0.plugin_id == registry.plugin_id
                &&& after.0.cache_path == registry.cache_path
                &&& after.1 == saving
                &&& after.2 is SaveCache
                &&& after.2->path == registry.cache_path
                &&& after.2->document == list_document(registry.registered.push(id))
            }
            &&& registry.registered.contains(id) ==> {
                let after = step(registry, announcing, succeeded);
                &&& after.0 == registry
                &&& after.1 == saving
                &&& after.2 == (CallView::SaveCache {
                    path: registry.cache_path,
                    document: list_document(registry.registered),
                })
            }
            &&& step(registry, saving, succeeded) == (registry, next.0, next.1)
        }),
{
}

/// A batch that publishes hands on its first update as it is, and keeps the others for later;
/// without updates it is done. The registry does not change.
pub proof fn a_publishing_batch_hands_on_its_updates(
    registry: RegistryView,
    updates: Seq<UpdateView>,
    succeeded: bool,
)
    ensures
        ({
            let batch = BatchView { updates, stage: StageView::Publishing };
            let after = step(registry, batch, succeeded);
            &&& after.0 == registry
            &&& after.1.stage is Publishing
            &&& updates.len() == 0 ==> after.2 is Done
            &&& updates.len() > 0 ==> {
                &&& after.1.updates == updates.drop_first()
                &&& after.2 is PublishState
                &&& after.2->PublishState_device_id == updates[0].device_id
                &&& after.2->state == updates[0].state
            }
        }),
{
}

/// Every batch ends by publishing every update, in order: the call that publishes an update carries
/// its device id and its state, whatever value that is. Nothing is published before.
pub proof fn every_update_is_published_as_it_is(
    registry: RegistryView,
    updates: Seq<UpdateView>,
    accepts: spec_fn(int) -> bool,
)
    ensures
        ({
            let calls = all_calls(registry, updates, 0, accepts).1;
            let before = calls.len() - updates.len();
            &&& before >= 0
            &&& forall|i: int|
                0 <= i < updates.len() ==> {
                    &&& (#[trigger] calls[before + i]) is PublishState
                    &&& calls[before + i]->PublishState_device_id == updates[i].device_id
                    &&& calls[before + i]->state == updates[i].state
                }
            &&& forall|at: int| 0 <= at < before ==> !((#[trigger] calls[at]) is PublishState)
        }),
{
    a_batch_registers_and_publishes(registry, updates, 0, accepts);
    let first = registrations(registry, updates, 0, accepts).1;
    let calls = all_calls(registry, updates, 0, accepts).1;
    let before = calls.len() - updates.len();
    assert(before == first.len());
    assert forall|i: int| 0 <= i < updates.len() implies {
        &&& (#[trigger] calls[before + i]) is PublishState
        &&& calls[before + i]->PublishState_device_id == updates[i].device_id
        &&& calls[before + i]->state == updates[i].state
    } by {
        assert(calls[before + i] == publish_calls(updates)[i]);
    }
    assert forall|at: int| 0 <= at < before implies !((#[trigger] calls[at]) is PublishState) by {
        only_new_devices_are_registered(registry, updates, 0, accepts, at);
        assert(calls[at] == first[at]);
    }
}

/// The registrations of a batch, one update after the other: a registered device is passed over, a
/// refused one is only tried, and an accepted one is registered under its id, name and type,
/// subscribed to, announced as online and saved together with those before it.
pub proof fn the_registrations_of_a_batch(
    registry: RegistryView,
    updates: Seq<UpdateView>,
    from: int,
    accepts: spec_fn(int) -> bool,
)
    requires
        0 <= from < updates.len(),
    ensures
        ({
            let id = updates[from].device_id;
            let (after, calls) = registrations(registry, updates, from, accepts);
            let register = CallView::RegisterDevice {
                device_id: updates[from].device_id,
                name: updates[from].name,
                device_type: updates[from].device_type,
            };
            let with_it = RegistryView { registered: registry.registered.push(id), ..registry };
            if registry.registered.contains(id) {
                (after, calls) == registrations(registry, updates, from + 1, accepts)
            } else if accepts(from) {
                &&& after == registrations(with_it, updates, from + 1, accepts).0
                &&& calls == seq![
                    register,
                    CallView::SubscribeCommands { device_id: id },
                    CallView::PublishAvailability { device_id: id, online: true },
                    CallView::SaveCache {
                        path: registry.cache_path,
                        document: list_document(registry.registered.push(id)),
                    },
                ] + registrations(with_it, updates, from + 1, accepts).1
            } else {
                &&& after == registrations(registry, updates, from + 1, accepts).0
                &&& calls == seq![register] + registrations(
                    registry,
                    updates,
                    from + 1,
                    accepts,
                ).1
            }
        }),
        registrations(registry, updates, updates.len() as int, accepts).0 == registry,
        registrations(registry, updates, updates.len() as int, accepts).1.len() == 0,
{
}

/// Whatever a batch registers, it registers as one of its updates has it.
pub proof fn a_registration_is_that_of_an_update(
    registry: RegistryView,
    updates: Seq<UpdateView>,
    from: int,
    accepts: spec_fn(int) -> bool,
    at: int,
)
    requires
        0 <= from <= updates.len(),
        0 <= at < registrations(registry, updates, from, accepts).1.len(),
    ensures
        registrations(registry, updates, from, accepts).1[at] matches CallView::RegisterDevice {
            device_id,
            name,
            device_type,
        } ==> exists|i: int|
            from <= i < updates.len() && (#[trigger] updates[i]).device_id == device_id
                && updates[i].name == name && updates[i].device_type == device_type,
        registrations(registry, updates, from, accepts).1[at]
            matches CallView::PublishAvailability { online, .. } ==> online,
        registrations(registry, updates, from, accepts).1[at] matches CallView::SaveCache {
            path,
            ..
        } ==> path == registry.cache_path,
    decreases updates.len() - from,
{
    if from < updates.len() {
        let here = updates[from].device_id;
        if registry.registered.contains(here) {
            a_registration_is_that_of_an_update(registry, updates, from + 1, accepts, at);
        } else if accepts(from) {
            if at >= 4 {
                let next = grown(registry, here);
                a_registration_is_that_of_an_update(next, updates, from + 1, accepts, at - 4);
            } else {
                assert(updates[from].device_id == here);
            }
        } else if at >= 1 {
            a_registration_is_that_of_an_update(registry, updates, from + 1, accepts, at - 1);
        } else {
            assert(updates[from].device_id == here);
        }
    }
}

/// The stale devices keep the order in which the earlier run listed them, and each stands there as
/// often as it was listed.
pub proof fn stale_devices_keep_their_order(registry: RegistryView, id: Seq<char>)
    ensures
        ({
            let longer = RegistryView { earlier: registry.earlier.push(id), ..registry };
            longer.stale() == (if registry.registered.contains(id) {
                registry.stale()
            } else {
                registry.stale().push(id)
            })
        }),
        registry.earlier.len() == 0 ==> registry.stale().len() == 0,
{
    reveal(Seq::filter);
    let longer = RegistryView { earlier: registry.earlier.push(id), ..registry };
    assert(longer.earlier.drop_last() =~= registry.earlier);
    assert(longer.earlier.last() == id);
}

} // verus!
