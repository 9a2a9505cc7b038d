//! What becomes of forwarding rules: how they are added, and who stops their listeners.
use vstd::prelude::*;
use vstd::utf8::encode_utf8;

use crate::cli::hex::{hex_reads_back, hex_text, parsed_hex};
use crate::models::{DeviceFeatureSet, LocalSocketSpec};
use crate::number::decimal;
use crate::protocol::{parsed_hex_len, port_reply_reads_back, status_words_are_spelled_out};
use crate::server::backend::{BackendCapabilities, DeviceView, LifecycleView};
use crate::server::capabilities::{
    defaults_do_not_change_framing, device_features, negotiation_is_honest, KillPolicy,
};
use crate::server::forward::{
    all_tasks, handed_back_listeners, tasks_of, ForwardRequest, RuleView,
};
use crate::server::frontend::{
    after_negotiation, bind_failure, client_outcome, features_reply, forward_outcome, fresh_frontend, host_outcome,
    is_default_address, local_outcome, open_failure, rule_added, FrontendView, Learned,
    SocketAddress,
};
use crate::server::laws::kill_undoes_add;
use crate::server::on_disconnect::{action_fits, watched, DisconnectAction, OnDisconnect};
use crate::server::service::ForwardServiceView;
use crate::server::step::{data_replies_carry_their_text, refusals_carry_their_reason, StepView};
use crate::text::{joined, texts};

verus! {

/// A rule that is added stands under the port that its listener got, with the device, the
/// end on the device and the listener that it was added with. The listener of the rule
/// that stood there is handed back. All other rules stay, and so does everything else.
pub proof fn added_rules_stand_under_their_port(
    before: FrontendView,
    serial: Seq<char>,
    request: ForwardRequest,
    port: u16,
    task: u64,
    other: u16,
)
    ensures
        ({
            let (stopped, _, after) = rule_added(before, serial, request, port, task);
            &&& after.rules.contains_key(port)
            &&& after.rules[port].serial == serial
            &&& after.rules[port].remote == request.remote
            &&& after.rules[port].task == task
            &&& other != port ==> (after.rules.contains_key(other) <==> before.rules.contains_key(
                other,
            ))
            &&& other != port && before.rules.contains_key(other) ==> after.rules[other]
                == before.rules[other]
            &&& before.rules.contains_key(port) ==> stopped == Some(before.rules[port].task)
            &&& !before.rules.contains_key(port) ==> stopped == None::<u64>
            &&& after == (FrontendView { rules: after.rules, ..before })
        }),
{
}

/// Every listener is stopped at most once: that of a second rule for a port takes the place
/// of the first one's, which is handed back when the second is added, not later.
pub proof fn replaced_listeners_are_stopped_once(
    before: FrontendView,
    serial: Seq<char>,
    request: ForwardRequest,
    port: u16,
    first: u64,
    second: u64,
)
    ensures
        ({
            let (_, _, one) = rule_added(before, serial, request, port, first);
            let (stopped, _, two) = rule_added(one, serial, request, port, second);
            &&& stopped == Some(first)
            &&& two.rules[port].task == second
        }),
{
}

/// Whoever adds a rule and then removes it gets its listener back and finds the table as it
/// was.
pub proof fn rules_can_be_taken_back(
    before: FrontendView,
    serial: Seq<char>,
    request: ForwardRequest,
    local: LocalSocketSpec,
    task: u64,
    anyone: Seq<char>,
)
    requires
        !before.rules.contains_key(local.port()),
    ensures
        ({
            let (_, _, after) = rule_added(before, serial, request, local.port(), task);
            let o = forward_outcome(after.rules, anyone, ForwardServiceView::Kill(local.text()));
            &&& o.rules == before.rules
            &&& o.step matches StepView::Stop { listeners, reply } && listeners == seq![task]
                && reply == encode_utf8("OKAY"@) + encode_utf8("OKAY"@)
        }),
{
    status_words_are_spelled_out();
    kill_undoes_add(
        before.rules,
        anyone,
        local,
        RuleView { remote: request.remote, serial, task },
    );
}

/// Adding a rule is confirmed twice. A client that left the choice of the port to the
/// system is told the port, and no other is.
pub proof fn chosen_ports_are_told(
    before: FrontendView,
    serial: Seq<char>,
    request: ForwardRequest,
    port: u16,
    task: u64,
)
    ensures
        ({
            let reply = rule_added(before, serial, request, port, task).1;
            &&& reply.take(8) == encode_utf8("OKAY"@) + encode_utf8("OKAY"@)
            &&& request.local_is_zero ==> {
                &&& parsed_hex_len(reply.subrange(8, 12)) == Some(
                    encode_utf8(decimal(port as nat)).len(),
                )
                &&& reply.skip(12) == encode_utf8(decimal(port as nat))
            }
            &&& !request.local_is_zero ==> reply.len() == 8
        }),
{
    status_words_are_spelled_out();
    let reply = rule_added(before, serial, request, port, task).1;
    if request.local_is_zero {
        port_reply_reads_back(port);
        assert(reply.take(8) =~= reply.take(4) + reply.subrange(4, 8));
    } else {
        assert(reply.take(8) =~= reply);
    }
}

/// When a device disconnects, the releasing policy stops the listeners of all its rules and
/// of no other device's, and drops its reverse rules. The other policies stop nothing, and
/// one of them tells the caller which device it was. A restart calls for nothing.
pub proof fn disconnects_stop_the_listeners_of_the_device(
    policy: OnDisconnect,
    rules: Map<u16, RuleView>,
    serial: Seq<char>,
    action: DisconnectAction,
    task: u64,
)
    ensures
        action_fits(policy, rules, LifecycleView::TransportReset(serial), action)
            <==> action is Keep,
        action_fits(
            OnDisconnect::Retain,
            rules,
            LifecycleView::Disconnected(serial),
            action,
        ) <==> action is Keep,
        action_fits(OnDisconnect::Notify, rules, LifecycleView::Disconnected(serial), action)
            <==> action is Notify && action->Notify_0@ == serial,
        action_fits(OnDisconnect::ReleaseAll, rules, LifecycleView::Disconnected(serial), action)
            ==> {
            &&& action is Release
            &&& texts(action->Release_0.reverse@) == seq![serial]
            &&& action->Release_0.listeners@.contains(task) <==> exists|p: u16| #[trigger]
                rules.contains_key(p) && rules[p].serial == serial && rules[p].task == task
        },
{
    let pick = |r: RuleView| r.serial == serial;
    handed_back_listeners(rules, pick, 0x1_0000, task);
    assert(tasks_of(rules, serial).contains(task) <==> exists|p: u16| #[trigger]
        rules.contains_key(p) && rules[p].serial == serial && rules[p].task == task) by {
        if tasks_of(rules, serial).contains(task) {
            let p = choose|p: u16|
                p < 0x1_0000 && #[trigger] rules.contains_key(p) && pick(rules[p]) && rules[p].task
                    == task;
            assert(rules.contains_key(p) && rules[p].serial == serial);
        }
        if exists|p: u16| #[trigger]
            rules.contains_key(p) && rules[p].serial == serial && rules[p].task == task {
            let p = choose|p: u16| #[trigger]
                rules.contains_key(p) && rules[p].serial == serial && rules[p].task == task;
            assert(p < 0x1_0000 && rules.contains_key(p) && pick(rules[p]));
        }
    }
}

/// When everything is released, the listener of every rule is stopped.
pub proof fn a_full_release_stops_every_listener(rules: Map<u16, RuleView>, task: u64)
    ensures
        all_tasks(rules).contains(task) <==> exists|p: u16| #[trigger]
            rules.contains_key(p) && rules[p].task == task,
{
    let pick = |r: RuleView| true;
    handed_back_listeners(rules, pick, 0x1_0000, task);
    if all_tasks(rules).contains(task) {
        let p = choose|p: u16|
            p < 0x1_0000 && #[trigger] rules.contains_key(p) && pick(rules[p]) && rules[p].task
                == task;
        assert(rules.contains_key(p));
    }
    if exists|p: u16| #[trigger] rules.contains_key(p) && rules[p].task == task {
        let p = choose|p: u16| #[trigger] rules.contains_key(p) && rules[p].task == task;
        assert(p < 0x1_0000 && rules.contains_key(p) && pick(rules[p]));
    }
}

/// A policy is watched for exactly if a disconnect can call for something under it.
pub proof fn watched_policies_act(
    policy: OnDisconnect,
    rules: Map<u16, RuleView>,
    event: LifecycleView,
    action: DisconnectAction,
)
    requires
        action_fits(policy, rules, event, action),
    ensures
        !watched(policy) ==> action is Keep,
        watched(policy) && event is Disconnected ==> !(action is Keep),
{
}

/// Two policies never have the same name.
pub proof fn policies_are_told_apart(a: OnDisconnect, b: OnDisconnect)
    requires
        a.label() == b.label(),
    ensures
        a == b,
{
    reveal_strlit("ReleaseAll");
    reveal_strlit("Retain");
    reveal_strlit("Notify(<fn>)");
    assert(a.label().len() == b.label().len());
    assert("ReleaseAll"@.len() == 10 && "Retain"@.len() == 6 && "Notify(<fn>)"@.len() == 12);
}

/// Until a device was chosen a request is one to the server, and then one to that device.
pub proof fn requests_go_to_the_chosen_device(
    f: FrontendView,
    serial: Seq<char>,
    text: Seq<char>,
    devices: Option<Seq<DeviceView>>,
    learned: Learned,
)
    ensures
        client_outcome(f, None, text, devices, learned) == host_outcome(f, text, devices),
        client_outcome(f, Some(serial), text, devices, learned) == local_outcome(
            f,
            serial,
            text,
            learned,
        ),
{
}

/// The backend's features are added to those that are advertised, each if the backend
/// implements it; none is lost, no other is added, and nothing but the features changes.
pub proof fn negotiation_widens_the_features(
    before: FrontendView,
    backend: BackendCapabilities,
    feature: Seq<char>,
)
    ensures
        ({
            let after = after_negotiation(before, backend);
            &&& after.caps.features.contains(feature) <==> {
                ||| before.caps.features.contains(feature)
                ||| backend.sync && feature == "sync_v2"@
                ||| backend.shell_v2 && feature == "shell_v2"@
            }
            &&& after.rules == before.rules
            &&& after.addr == before.addr
            &&& after.on_disconnect == before.on_disconnect
            &&& after.caps.version_hex == before.caps.version_hex
            &&& after.caps.kill_policy == before.caps.kill_policy
        }),
{
    negotiation_is_honest(before.caps.features, backend, feature);
}

/// The features of a device are told in one text, with commas between them.
pub proof fn features_are_told_in_one_text(f: FrontendView, device: Option<DeviceFeatureSet>)
    requires
        encode_utf8(joined(device_features(f.caps.features, device), ","@)).len() <= 0xffff,
    ensures
        features_reply(f, device).take(4) == encode_utf8("OKAY"@),
        features_reply(f, device).skip(8) == encode_utf8(
            joined(device_features(f.caps.features, device), ","@),
        ),
{
    data_replies_carry_their_text(joined(device_features(f.caps.features, device), ","@));
}

/// A client learns why its listener or its service failed.
pub proof fn failures_are_told(error: Seq<char>)
    requires
        encode_utf8("cannot bind listener: "@ + error).len() <= 0xffff,
        encode_utf8("open session failed: "@ + error).len() <= 0xffff,
    ensures
        bind_failure(error).take(4) == encode_utf8("FAIL"@),
        bind_failure(error).skip(8) == encode_utf8("cannot bind listener: "@ + error),
        open_failure(error).take(4) == encode_utf8("FAIL"@),
        open_failure(error).skip(8) == encode_utf8("open session failed: "@ + error),
{
    refusals_carry_their_reason("cannot bind listener: "@ + error);
    refusals_carry_their_reason("open session failed: "@ + error);
}

/// Servers listen on the local machine only, on the port that clients expect.
pub proof fn the_default_address_is_local(a: SocketAddress)
    requires
        is_default_address(a),
    ensures
        a is V4,
        a->V4_ip@ == seq![127u8, 0, 0, 1],
        a->V4_port == 5037,
{
}

/// A server starts without rules, does not end at the request of a client, tells the
/// protocol's forty-first version, advertises nothing that changes a client's framing, and
/// releases the rules of devices that disconnect.
pub proof fn servers_start_out_plain(addr: SocketAddress, p: u16)
    ensures
        ({
            let f = fresh_frontend(addr);
            &&& f.addr == addr
            &&& !f.rules.contains_key(p)
            &&& f.caps.kill_policy == KillPolicy::Reject
            &&& parsed_hex(f.caps.version_hex) == Some(41nat)
            &&& f.caps.version_hex.len() == 4
            &&& !f.caps.features.contains("sync_v2"@)
            &&& !f.caps.features.contains("shell_v2"@)
            &&& f.caps.features == seq!["cmd"@, "stat_v2"@, "fixed_push_mkdir"@, "apex"@]
            &&& f.on_disconnect == OnDisconnect::ReleaseAll
        }),
{
    defaults_do_not_change_framing();
    reveal_strlit("0029");
    hex_reads_back(41);
    assert(hex_text(41) =~= "0029"@);
}

} // verus!
