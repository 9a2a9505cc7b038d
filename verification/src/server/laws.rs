//! What holds across requests.
use vstd::prelude::*;

use crate::models::{local_spec_reads_back, DeviceFeatureSet, LocalCommandView, LocalSocketSpec};
use crate::protocol::{fail_reply, okay_word};
use crate::server::backend::{serials_of, DeviceView};
use crate::server::capabilities::{device_features, device_features_are_honest};
use crate::server::forward::{forward_line, listing, listing_below, parsed_forward, RuleView};
use crate::server::frontend::{
    answered, forward_outcome, host_outcome, local_command, local_outcome, same_rules, FrontendView,
    Learned,
};
use crate::server::request::HostRequestView;
use crate::server::service::{control_service, ForwardServiceView, SubServiceView};
use crate::server::step::StepView;
use crate::server::transport::{resolved, resolved_is_listed, SelectorView};
use crate::text::{after_prefix, has_prefix};

verus! {

/// A service with a framing of its own is accepted for a device exactly if the
/// device's feature list, as clients are told it, has the feature.
pub proof fn accepted_iff_advertised(
    features: Seq<Seq<char>>,
    service: Seq<char>,
    device: Option<DeviceFeatureSet>,
)
    ensures
        service == "sync:"@ ==> (local_command(features, service, device) is Ok
            <==> device_features(features, device).contains("sync_v2"@)),
        has_prefix(service, "shell,"@) ==> (local_command(features, service, device) is Ok
            <==> device_features(features, device).contains("shell_v2"@)),
{
    device_features_are_honest(features, device, "sync_v2"@);
    device_features_are_honest(features, device, "shell_v2"@);
    if has_prefix(service, "shell,"@) {
        reveal_strlit("shell,");
        reveal_strlit("sync:");
        assert(service.subrange(0, 6)[1] == 'h');
    }
}

/// A plain shell and the control services are accepted on every device, whatever is
/// advertised, and are passed on as they are.
pub proof fn plain_services_always_work(
    features: Seq<Seq<char>>,
    service: Seq<char>,
    device: Option<DeviceFeatureSet>,
)
    ensures
        has_prefix(service, "shell:"@) ==> local_command(features, service, device) == Ok::<
            LocalCommandView,
            Seq<char>,
        >(LocalCommandView::ShellCommand(after_prefix(service, "shell:"@), Seq::empty())),
        control_service(service) ==> local_command(features, service, device) == Ok::<
            LocalCommandView,
            Seq<char>,
        >(LocalCommandView::Raw(service)),
{
    reveal_strlit("sync:");
    reveal_strlit("shell,");
    reveal_strlit("shell:");
    reveal_strlit("tcp:");
    if has_prefix(service, "shell:"@) {
        assert(service.subrange(0, 6)[5] == ':');
        assert(service.subrange(0, 6)[1] == 'h');
        if has_prefix(service, "shell,"@) {
            assert(service.subrange(0, 6)[5] == ',');
        }
    }
    if control_service(service) {
        control_services_begin(service);
        if has_prefix(service, "shell,"@) {
            assert(service.subrange(0, 6)[0] == 's');
        }
        if has_prefix(service, "shell:"@) {
            assert(service.subrange(0, 6)[0] == 's');
        }
        if has_prefix(service, "tcp:"@) {
            assert(service.subrange(0, 4)[0] == 't');
            assert(service.subrange(0, 4)[3] == ':');
        }
    }
}

/// The first letters of the control services.
proof fn control_services_begin(service: Seq<char>)
    requires
        control_service(service),
    ensures
        service.len() > 3,
        service[0] != 's',
        service[0] == 't' ==> service[3] == 'i',
{
    reveal_strlit("usb:");
    reveal_strlit("root:");
    reveal_strlit("unroot:");
    reveal_strlit("remount:");
    reveal_strlit("enable-verity:");
    reveal_strlit("disable-verity:");
    reveal_strlit("tcpip:");
    reveal_strlit("reboot:");
    if has_prefix(service, "tcpip:"@) {
        assert(service.subrange(0, 6)[0] == 't');
        assert(service.subrange(0, 6)[3] == 'i');
    } else if has_prefix(service, "reboot:"@) {
        assert(service.subrange(0, 7)[0] == 'r');
    }
}

/// Nothing that was not asked for happens to the forwarding rules: a request leaves
/// them as they are unless its answer is to stop listeners, and that removes rules
/// and adds none.
pub proof fn requests_only_remove_rules(
    f: FrontendView,
    service: Seq<char>,
    devices: Option<Seq<DeviceView>>,
)
    ensures
        ({
            let o = host_outcome(f, service, devices);
            &&& !(o.step is Stop) ==> o.rules == f.rules
            &&& forall|p: u16| #[trigger]
                o.rules.contains_key(p) ==> f.rules.contains_key(p) && o.rules[p] == f.rules[p]
        }),
{
}

/// The same holds of the request that follows the choice of a device.
pub proof fn local_requests_only_remove_rules(
    f: FrontendView,
    serial: Seq<char>,
    local: Seq<char>,
    learned: Learned,
)
    ensures
        ({
            let o = local_outcome(f, serial, local, learned);
            &&& !(o.step is Stop) ==> o.rules == f.rules
            &&& forall|p: u16| #[trigger]
                o.rules.contains_key(p) ==> f.rules.contains_key(p) && o.rules[p] == f.rules[p]
        }),
{
}

/// Whoever asks with what was demanded gets an answer, not another demand.
pub proof fn demands_are_met_at_once(
    f: FrontendView,
    service: Seq<char>,
    devices: Seq<DeviceView>,
    serial: Seq<char>,
    device: Option<DeviceFeatureSet>,
)
    ensures
        !(host_outcome(f, service, Some(devices)).step is NeedDevices),
        !(host_outcome(f, service, Some(devices)).step is NeedCapabilities),
        !(local_outcome(f, serial, service, Learned::Answer(device)).step is NeedCapabilities),
        !(local_outcome(f, serial, service, Learned::Answer(device)).step is NeedDevices),
{
}

/// Where the device list is not asked for, having it makes no difference.
pub proof fn devices_matter_only_if_asked_for(
    f: FrontendView,
    service: Seq<char>,
    devices: Seq<DeviceView>,
)
    requires
        !(host_outcome(f, service, None).step is NeedDevices),
    ensures
        host_outcome(f, service, Some(devices)) == host_outcome(f, service, None),
{
}

/// A device that is selected is a listed one, and the client is told `OKAY`.
pub proof fn selected_devices_are_listed(
    f: FrontendView,
    devices: Seq<DeviceView>,
    request: HostRequestView,
)
    ensures
        answered(f, devices, request).step matches StepView::Select { serial, reply }
            ==> serials_of(devices).contains(serial) && reply.take(4) == okay_word(),
{
    match request {
        HostRequestView::Transport(selector) => {
            resolved_is_listed(selector, devices);
        },
        HostRequestView::Tport(selector) => {
            resolved_is_listed(selector, devices);
        },
        _ => {},
    }
    if let StepView::Select { serial, reply } = answered(f, devices, request).step {
        assert(reply.take(4) =~= okay_word());
    }
}

/// Whether a request names its device by serial, by kind or by transport id makes no
/// difference to what is answered once the device is found.
pub proof fn pinning_is_by_device(
    f: FrontendView,
    devices: Seq<DeviceView>,
    selector: SelectorView,
    sub: SubServiceView,
)
    ensures
        match resolved(selector, devices) {
            Ok(serial) => answered(f, devices, HostRequestView::OnDevice(selector, sub))
                == answered(
                f,
                devices,
                HostRequestView::OnDevice(SelectorView::Serial(serial), sub),
            ),
            Err(reason) => !(selector is Serial) ==> answered(
                f,
                devices,
                HostRequestView::OnDevice(selector, sub),
            ).step == StepView::Reply(fail_reply(reason)),
        },
{
}

/// Asking for the state without naming a device is asking for the state of the only
/// device; with none or several, the refusal is that of selecting any device.
pub proof fn bare_state_is_of_the_only_device(f: FrontendView, devices: Seq<DeviceView>)
    ensures
        match resolved(SelectorView::Kind(None), devices) {
            Ok(serial) => answered(f, devices, HostRequestView::GetState) == answered(
                f,
                devices,
                HostRequestView::OnDevice(SelectorView::Serial(serial), SubServiceView::GetState),
            ),
            Err(_) => answered(f, devices, HostRequestView::GetState) == answered(
                f,
                devices,
                HostRequestView::Transport(SelectorView::Kind(None)),
            ),
        },
{
}

/// An existing rule is safe from requests that must not replace it: such a request
/// binds nothing.
pub proof fn norebind_protects(rules: Map<u16, RuleView>, serial: Seq<char>, arg: Seq<char>)
    ensures
        parsed_forward(arg) matches Some(request) && request.norebind
            && rules.contains_key(request.local.port()) ==> forward_outcome(
            rules,
            serial,
            ForwardServiceView::Add(arg),
        ) == same_rules(
            rules,
            StepView::Reply(fail_reply("cannot rebind existing socket"@)),
        ),
{
}

/// Removing the rule that was just added gives its listener back and restores the
/// table.
pub proof fn kill_undoes_add(
    rules: Map<u16, RuleView>,
    serial: Seq<char>,
    local: LocalSocketSpec,
    rule: RuleView,
)
    requires
        !rules.contains_key(local.port()),
    ensures
        ({
            let o = forward_outcome(
                rules.insert(local.port(), rule),
                serial,
                ForwardServiceView::Kill(local.text()),
            );
            &&& o.rules == rules
            &&& o.step == (StepView::Stop {
                listeners: seq![rule.task],
                reply: okay_word() + okay_word(),
            })
        }),
{
    local_spec_reads_back(local);
    assert(rules.insert(local.port(), rule).remove(local.port()) =~= rules);
}

/// Every rule has its line in the listing.
pub proof fn every_rule_is_listed(rules: Map<u16, RuleView>, port: u16)
    requires
        rules.contains_key(port),
    ensures
        exists|before: Seq<char>, after: Seq<char>|
            listing(rules) == #[trigger] (before + forward_line(port, rules[port]) + after),
{
    let k = port as nat + 1;
    assert((k - 1) as u16 == port);
    let before = listing_below(rules, port as nat);
    assert(listing_below(rules, k) == before + forward_line(port, rules[port]));
    listing_grows(rules, k, 0x1_0000);
    let after = choose|after: Seq<char>|
        listing_below(rules, 0x1_0000) == listing_below(rules, k) + after;
    assert(listing(rules) == before + forward_line(port, rules[port]) + after);
}

/// A listing of more ports begins with the listing of fewer.
proof fn listing_grows(rules: Map<u16, RuleView>, a: nat, b: nat)
    requires
        a <= b,
    ensures
        exists|after: Seq<char>|
            listing_below(rules, b) == #[trigger] (listing_below(rules, a) + after),
    decreases b - a,
{
    if a == b {
        assert(listing_below(rules, b) =~= listing_below(rules, a) + Seq::<char>::empty());
    } else {
        listing_grows(rules, a, (b - 1) as nat);
        let after = choose|after: Seq<char>|
            listing_below(rules, (b - 1) as nat) == #[trigger] (listing_below(rules, a) + after);
        let p = (b - 1) as u16;
        let tail = if rules.contains_key(p) {
            after + forward_line(p, rules[p])
        } else {
            after
        };
        assert(listing_below(rules, b) =~= listing_below(rules, a) + tail);
    }
}

/// A connection chooses a device once: the request after the choice does not choose
/// another, and does not ask for the list of devices.
pub proof fn one_choice_per_connection(
    f: FrontendView,
    serial: Seq<char>,
    local: Seq<char>,
    learned: Learned,
)
    ensures
        !(local_outcome(f, serial, local, learned).step is Select),
        !(local_outcome(f, serial, local, learned).step is NeedDevices),
{
}

} // verus!
