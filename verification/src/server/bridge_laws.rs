//! What reaches a device: the services that clients ask for, and the rules in both
//! directions.
use vstd::prelude::*;

use crate::models::{
    local_spec_reads_back, DeviceFeatureSet, LocalCommandView, LocalSocketSpec, RemoteSocketSpec,
};
use crate::number::{decimal, parse_of_decimal, parsed_unsigned};
use crate::protocol::{fail_reply, okay_word};
use crate::server::backend::{serials_of, DeviceView};
use crate::server::default_backend::{bridged, service_text};
use crate::server::forward::{
    all_tasks, forward_line, forward_request_reads_back, forward_service, handed_back_listeners,
    listing, listing_below, parsed_forward, tasks_below, RuleView,
};
use crate::server::frontend::{host_outcome, local_command, local_outcome, FrontendView, Learned};
use crate::server::laws::plain_services_always_work;
use crate::server::query_laws::{local_host_requests_are_read, none_with_serial};
use crate::server::request::{
    parsed_local_request, parsed_request, parsed_reverse, HostRequestView, LocalRequestView,
    ReverseView,
};
use crate::server::select_laws::a_serial_names_its_device;
use crate::server::service::{
    control_service, digits_follow_colons, ForwardServiceView, SubServiceView,
};
use crate::server::step::{data_reply, StepView};
use crate::server::transport::{any_means_the_only_one, SelectorView};
use crate::server::wire_laws::{
    forward_carries_its_argument, host_prefix_is_found, host_serial_names_its_device,
    spelled_out_services,
};
use crate::text::{
    after_prefix, cut_first, first_index_unique, has_prefix, joined, no_prefix, prefix_is_found,
};

verus! {

// ---------------------------------------------------------------------------------
// Services
// ---------------------------------------------------------------------------------

/// A text is its prefix and what follows it.
proof fn prefix_and_rest(s: Seq<char>, p: Seq<char>)
    requires
        has_prefix(s, p),
    ensures
        s == p + after_prefix(s, p),
{
    assert(s =~= s.subrange(0, p.len() as int) + after_prefix(s, p));
}

/// A service that is accepted reaches the device word for word. Only a port is written
/// anew, as the number that it is.
pub proof fn services_reach_the_device_word_for_word(
    features: Seq<Seq<char>>,
    service: Seq<char>,
    device: Option<DeviceFeatureSet>,
)
    ensures
        local_command(features, service, device) matches Ok(cmd) ==> {
            &&& bridged(cmd)
            &&& !has_prefix(service, "tcp:"@) ==> service_text(cmd) == service
            &&& has_prefix(service, "tcp:"@) ==> exists|p: u16|
                parsed_unsigned(after_prefix(service, "tcp:"@), 0xffff) == Some(p as nat)
                    && service_text(cmd) == "tcp:"@ + #[trigger] decimal(p as nat)
        },
{
    reveal_strlit("sync:");
    reveal_strlit("shell,");
    reveal_strlit("shell:");
    reveal_strlit("tcp:");
    if let Ok(cmd) = local_command(features, service, device) {
        if has_prefix(service, "tcp:"@) {
            assert(service.subrange(0, 4)[0] == 't');
            no_prefix(service, "shell,"@, 0);
            no_prefix(service, "shell:"@, 0);
            let n = parsed_unsigned(after_prefix(service, "tcp:"@), 0xffff)->0;
            let p = n as u16;
            assert(service_text(cmd) == "tcp:"@ + decimal(p as nat));
        } else if has_prefix(service, "shell:"@) && !has_prefix(service, "shell,"@) && service
            != "sync:"@ {
            prefix_and_rest(service, "shell:"@);
        }
    }
}

/// A shell command, a control service and a port are accepted on every device; the two
/// services with a framing of their own where the server and the device have the feature;
/// nothing else is. What is refused is refused by its name.
pub proof fn which_services_are_accepted(
    features: Seq<Seq<char>>,
    service: Seq<char>,
    rest: Seq<char>,
    port: u16,
    device: Option<DeviceFeatureSet>,
)
    ensures
        local_command(features, "shell:"@ + rest, device) is Ok,
        local_command(features, "tcp:"@ + decimal(port as nat), device) is Ok,
        control_service(service) ==> local_command(features, service, device) is Ok,
        local_command(features, "sync:"@, device) is Ok <==> features.contains("sync_v2"@) && (
        device matches Some(d) && d.stat_v2),
        local_command(features, "shell,"@ + rest, device) is Ok <==> features.contains(
            "shell_v2"@,
        ) && (device matches Some(d) && d.shell_v2),
        local_command(features, service, device) matches Err(reason) ==> {
            &&& reason == "service not supported: "@ + service || reason == "invalid tcp port: "@
                + service
            &&& reason == "invalid tcp port: "@ + service ==> has_prefix(service, "tcp:"@)
            &&& !has_prefix(service, "shell:"@)
            &&& !control_service(service)
        },
        local_command(features, service, device) is Ok ==> has_prefix(service, "shell:"@)
            || has_prefix(service, "shell,"@) || has_prefix(service, "tcp:"@) || service
            == "sync:"@ || control_service(service),
{
    plain_services_always_work(features, "shell:"@ + rest, device);
    plain_services_always_work(features, service, device);
    prefix_is_found("shell:"@, rest);
    prefix_is_found("shell,"@, rest);
    prefix_is_found("tcp:"@, decimal(port as nat));
    parse_of_decimal(port as nat, 0xffff);
    reveal_strlit("sync:");
    reveal_strlit("shell,");
    reveal_strlit("shell:");
    reveal_strlit("tcp:");
    reveal_strlit("sync_v2");
    reveal_strlit("shell_v2");
    reveal_strlit("service not supported: ");
    reveal_strlit("invalid tcp port: ");
    assert("sync_v2"@[1] == 'y' && "shell_v2"@[1] == 'h');
    let t = "tcp:"@ + decimal(port as nat);
    assert(t[0] == 't');
    no_prefix(t, "shell,"@, 0);
    no_prefix(t, "shell:"@, 0);
    let v = "shell,"@ + rest;
    assert(v[1] == 'h');
    let refused = "service not supported: "@ + service;
    let invalid = "invalid tcp port: "@ + service;
    assert(refused[0] == 's');
    assert(invalid[0] == 'i');
}

/// The requests that the device's daemon answers itself are passed on to every device, with
/// what follows them: those that restart it, those on its partitions, and the reboot. No
/// other service but a shell, a port or a file transfer is.
pub proof fn control_services_are_passed_on(
    features: Seq<Seq<char>>,
    rest: Seq<char>,
    service: Seq<char>,
    device: Option<DeviceFeatureSet>,
)
    ensures
        is_passed_on(features, "usb:"@, device),
        is_passed_on(features, "root:"@, device),
        is_passed_on(features, "unroot:"@, device),
        is_passed_on(features, "remount:"@, device),
        is_passed_on(features, "enable-verity:"@, device),
        is_passed_on(features, "disable-verity:"@, device),
        is_passed_on(features, "tcpip:"@ + rest, device),
        is_passed_on(features, "reboot:"@ + rest, device),
        local_command(features, service, device) is Ok ==> {
            ||| has_prefix(service, "shell:"@)
            ||| has_prefix(service, "shell,"@)
            ||| has_prefix(service, "tcp:"@)
            ||| has_prefix(service, "tcpip:"@)
            ||| has_prefix(service, "reboot:"@)
            ||| service == "sync:"@
            ||| service == "usb:"@
            ||| service == "root:"@
            ||| service == "unroot:"@
            ||| service == "remount:"@
            ||| service == "enable-verity:"@
            ||| service == "disable-verity:"@
        },
{
    prefix_is_found("tcpip:"@, rest);
    prefix_is_found("reboot:"@, rest);
    plain_services_always_work(features, "usb:"@, device);
    plain_services_always_work(features, "root:"@, device);
    plain_services_always_work(features, "unroot:"@, device);
    plain_services_always_work(features, "remount:"@, device);
    plain_services_always_work(features, "enable-verity:"@, device);
    plain_services_always_work(features, "disable-verity:"@, device);
    plain_services_always_work(features, "tcpip:"@ + rest, device);
    plain_services_always_work(features, "reboot:"@ + rest, device);
}

/// Whether a service is opened on the device as it is.
pub open spec fn is_passed_on(
    features: Seq<Seq<char>>,
    service: Seq<char>,
    device: Option<DeviceFeatureSet>,
) -> bool {
    local_command(features, service, device) matches Ok(cmd) && service_text(cmd) == service
        && bridged(cmd)
}

/// A port goes to the device as that port, for every port.
pub proof fn ports_reach_the_device(
    features: Seq<Seq<char>>,
    port: u16,
    device: Option<DeviceFeatureSet>,
)
    ensures
        local_command(features, "tcp:"@ + decimal(port as nat), device) matches Ok(cmd)
            && service_text(cmd) == "tcp:"@ + decimal(port as nat),
{
    which_services_are_accepted(features, Seq::empty(), Seq::empty(), port, device);
    services_reach_the_device_word_for_word(features, "tcp:"@ + decimal(port as nat), device);
    prefix_is_found("tcp:"@, decimal(port as nat));
    parse_of_decimal(port as nat, 0xffff);
}

/// The text of a command is its words with blanks between them, behind `shell:`; that of a
/// restart on a port is one that is passed on as it is.
pub proof fn commands_are_written_out(c: Seq<char>, args: Seq<Seq<char>>, port: u16)
    ensures
        service_text(LocalCommandView::ShellCommand(c, args)) == "shell:"@ + joined(
            seq![c] + args,
            " "@,
        ),
        service_text(LocalCommandView::Shell) == "shell:"@,
        service_text(LocalCommandView::TcpIp(port)) == "tcpip:"@ + decimal(port as nat),
        service_text(LocalCommandView::TcpConnect(port)) == "tcp:"@ + decimal(port as nat),
        control_service(service_text(LocalCommandView::TcpIp(port))),
{
    joined_from_the_front(c, args);
    prefix_is_found("tcpip:"@, decimal(port as nat));
    if args.len() == 0 {
        assert(seq![c] + args =~= seq![c]);
    } else {
        assert("shell:"@ + c + " "@ + joined(args, " "@) =~= "shell:"@ + (c + " "@ + joined(
            args,
            " "@,
        )));
    }
}

/// Words are joined one by one from either side.
proof fn joined_from_the_front(first: Seq<char>, rest: Seq<Seq<char>>)
    ensures
        rest.len() > 0 ==> joined(seq![first] + rest, " "@) == first + " "@ + joined(rest, " "@),
        joined(seq![first], " "@) == first,
    decreases rest.len(),
{
    let all = seq![first] + rest;
    assert(joined(seq![first], " "@) == first);
    if rest.len() == 1 {
        assert(all.drop_last() =~= seq![first]);
        assert(all.last() == rest[0]);
        assert(joined(all, " "@) == joined(all.drop_last(), " "@) + " "@ + all.last());
    } else if rest.len() > 1 {
        joined_from_the_front(first, rest.drop_last());
        assert(all.drop_last() =~= seq![first] + rest.drop_last());
        assert(all.last() == rest.last());
        assert(joined(all, " "@) =~= first + " "@ + joined(rest, " "@));
    }
}

/// Whether a request after the choice of a device is for the device itself.
pub open spec fn for_the_device(local: Seq<char>) -> bool {
    &&& local != "host:"@ + "features"@
    &&& local != "host:"@ + "version"@
    &&& local != "host:"@ + "list-forward"@
    &&& local != "host:"@ + "killforward-all"@
    &&& !has_prefix(local, "host:"@ + "forward:"@)
    &&& !has_prefix(local, "host:"@ + "killforward:"@)
    &&& !has_prefix(local, "reverse:"@)
}

/// A request for the device is read as it is.
proof fn service_is_read(local: Seq<char>)
    requires
        for_the_device(local),
    ensures
        parsed_local_request(local) == LocalRequestView::Service(local),
{
    if has_prefix(local, "host:"@) {
        let svc = after_prefix(local, "host:"@);
        prefix_and_rest(local, "host:"@);
        if has_prefix(svc, "forward:"@) {
            prefix_and_rest(svc, "forward:"@);
            let arg = after_prefix(svc, "forward:"@);
            assert(local =~= "host:"@ + "forward:"@ + arg);
            prefix_is_found("host:"@ + "forward:"@, arg);
        }
        if has_prefix(svc, "killforward:"@) {
            prefix_and_rest(svc, "killforward:"@);
            let arg = after_prefix(svc, "killforward:"@);
            assert(local =~= "host:"@ + "killforward:"@ + arg);
            prefix_is_found("host:"@ + "killforward:"@, arg);
        }
    }
}

/// A client that has chosen a device gets the service that it asks for, opened on that
/// device word for word. The features of the device are asked for first where they decide.
pub proof fn clients_get_the_service_they_ask_for(
    f: FrontendView,
    serial: Seq<char>,
    local: Seq<char>,
    device: Option<DeviceFeatureSet>,
)
    requires
        for_the_device(local),
    ensures
        ({
            let o = local_outcome(f, serial, local, Learned::Answer(device));
            &&& o.rules == f.rules
            &&& match local_command(f.caps.features, local, device) {
                Ok(_) => {
                    &&& o.step matches StepView::Open(cmd)
                    &&& bridged(cmd)
                    &&& !has_prefix(local, "tcp:"@) ==> service_text(cmd) == local
                },
                Err(reason) => o.step == StepView::Reject(reason),
            }
        }),
        local_outcome(f, serial, local, Learned::NotAsked).step is NeedCapabilities <==> local
            == "sync:"@ || has_prefix(local, "shell,"@),
        !(local == "sync:"@ || has_prefix(local, "shell,"@)) ==> local_outcome(
            f,
            serial,
            local,
            Learned::NotAsked,
        ) == local_outcome(f, serial, local, Learned::Answer(device)),
{
    service_is_read(local);
    services_reach_the_device_word_for_word(f.caps.features, local, device);
}

/// Every shell command is run on the device that was chosen, as it was given.
pub proof fn shell_commands_are_run(
    f: FrontendView,
    serial: Seq<char>,
    command: Seq<char>,
    learned: Learned,
)
    ensures
        local_outcome(f, serial, "shell:"@ + command, learned).step matches StepView::Open(cmd)
            && service_text(cmd) == "shell:"@ + command && bridged(cmd),
{
    let local = "shell:"@ + command;
    reveal_strlit("shell:");
    reveal_strlit("shell,");
    reveal_strlit("sync:");
    reveal_strlit("tcp:");
    reveal_strlit("host:");
    reveal_strlit("reverse:");
    assert(local[0] == 's' && local[1] == 'h' && local[5] == ':');
    no_prefix(local, "host:"@ + "forward:"@, 0);
    no_prefix(local, "host:"@ + "killforward:"@, 0);
    no_prefix(local, "reverse:"@, 0);
    no_prefix(local, "shell,"@, 5);
    no_prefix(local, "tcp:"@, 0);
    assert(("host:"@ + "features"@)[0] == 'h');
    assert(("host:"@ + "version"@)[0] == 'h');
    assert(("host:"@ + "list-forward"@)[0] == 'h');
    assert(("host:"@ + "killforward-all"@)[0] == 'h');
    let device = match learned {
        Learned::Answer(d) => d,
        Learned::NotAsked => None,
    };
    clients_get_the_service_they_ask_for(f, serial, local, device);
    which_services_are_accepted(f.caps.features, local, command, 0, device);
}

// ---------------------------------------------------------------------------------
// Rules that the device initiates
// ---------------------------------------------------------------------------------

/// The requests on rules that the device initiates, by letters that tell them apart.
proof fn reverse_words()
    ensures
        "list-forward"@.len() == 12 && "list-forward"@[0] == 'l',
        "killforward-all"@.len() == 15 && "killforward-all"@[0] == 'k' && "killforward-all"@[11]
            == '-',
        "killforward:"@.len() == 12 && "killforward:"@[0] == 'k' && "killforward:"@[11] == ':',
        "forward:"@.len() == 8 && "forward:"@[0] == 'f',
{
    spelled_out_services();
}

/// The end that is named to remove a rule is the end that was named to add it: what the
/// client writes behind `killforward:`, whatever it is.
pub proof fn reverse_rules_are_removed_by_their_end(remote: Seq<char>)
    ensures
        parsed_reverse("reverse:"@ + ("killforward:"@ + remote)) == ReverseView::Kill(remote),
{
    reverse_words();
    let rest = "killforward:"@ + remote;
    prefix_is_found("reverse:"@, rest);
    prefix_is_found("killforward:"@, remote);
    assert(rest[11] == ':');
}

/// All rules are removed, or listed, by one word.
pub proof fn reverse_rules_are_listed_and_cleared()
    ensures
        parsed_reverse("reverse:"@ + "killforward-all"@) is KillAll,
        parsed_reverse("reverse:"@ + "list-forward"@) is List,
{
    reverse_words();
    prefix_is_found("reverse:"@, "killforward-all"@);
    prefix_is_found("reverse:"@, "list-forward"@);
}

/// A rule is added by its two ends, that on the device first; the wish not to replace
/// another rule is left out.
pub proof fn reverse_rules_are_added_by_their_ends(remote: Seq<char>, local: Seq<char>)
    requires
        !remote.contains(';'),
    ensures
        parsed_reverse("reverse:"@ + ("forward:"@ + ("norebind:"@ + (remote + seq![';'] + local))))
            == (ReverseView::Add { remote, local }),
        !has_prefix(remote + seq![';'] + local, "norebind:"@) ==> parsed_reverse(
            "reverse:"@ + ("forward:"@ + (remote + seq![';'] + local)),
        ) == (ReverseView::Add { remote, local }),
{
    let arg = remote + seq![';'] + local;
    reverse_argument_is_found("norebind:"@ + arg);
    prefix_is_found("norebind:"@, arg);
    reverse_argument_is_found(arg);
    cut_at_first(remote, local, ';');
}

/// The ends of a rule stand behind `forward:`.
proof fn reverse_argument_is_found(given: Seq<char>)
    ensures
        ({
            let arg = if has_prefix(given, "norebind:"@) {
                after_prefix(given, "norebind:"@)
            } else {
                given
            };
            parsed_reverse("reverse:"@ + ("forward:"@ + given)) == (match cut_first(arg, ';') {
                Some((remote, local)) => ReverseView::Add { remote, local },
                None => ReverseView::Refused("bad reverse forward: "@ + arg),
            })
        }),
{
    reverse_words();
    let rest = "forward:"@ + given;
    prefix_is_found("reverse:"@, rest);
    prefix_is_found("forward:"@, given);
    assert(rest[0] == 'f');
    no_prefix(rest, "killforward:"@, 0);
}

/// A text is cut at the first of a character.
proof fn cut_at_first(a: Seq<char>, b: Seq<char>, c: char)
    requires
        !a.contains(c),
    ensures
        cut_first(a + seq![c] + b, c) == Some((a, b)),
{
    let s = a + seq![c] + b;
    assert(s[a.len() as int] == c);
    assert(s.contains(c));
    assert forall|j: int| 0 <= j < a.len() implies s[j] != c by {
        assert(s[j] == a[j]);
    }
    first_index_unique(s, c, a.len() as int);
    let (x, y) = cut_first(s, c)->0;
    assert(x =~= a);
    assert(y =~= b);
}

/// What is no request on such rules is refused by its name, and a rule with one end too.
pub proof fn other_reverse_requests_are_refused(rest: Seq<char>, arg: Seq<char>)
    ensures
        rest != "list-forward"@ && rest != "killforward-all"@ && !has_prefix(rest, "killforward:"@)
            && !has_prefix(rest, "forward:"@) ==> parsed_reverse("reverse:"@ + rest)
            == ReverseView::Refused("unsupported reverse service: "@ + ("reverse:"@ + rest)),
        !arg.contains(';') && !has_prefix(arg, "norebind:"@) ==> parsed_reverse(
            "reverse:"@ + ("forward:"@ + arg),
        ) == ReverseView::Refused("bad reverse forward: "@ + arg),
{
    reverse_words();
    prefix_is_found("reverse:"@, rest);
    let a = "forward:"@ + arg;
    prefix_is_found("reverse:"@, a);
    prefix_is_found("forward:"@, arg);
    assert(a[0] == 'f');
    no_prefix(a, "killforward:"@, 0);
}

/// A request on such rules is handed to the backend as it was read, for the chosen device,
/// and a refusal is told at once; the rules of the host stay as they are.
pub proof fn reverse_requests_reach_the_backend(
    f: FrontendView,
    serial: Seq<char>,
    rest: Seq<char>,
    learned: Learned,
)
    ensures
        ({
            let o = local_outcome(f, serial, "reverse:"@ + rest, learned);
            &&& o.rules == f.rules
            &&& o.step == (match parsed_reverse("reverse:"@ + rest) {
                ReverseView::Refused(reason) => StepView::Reply(fail_reply(reason)),
                other => StepView::Reverse(other),
            })
        }),
{
    let local = "reverse:"@ + rest;
    prefix_is_found("reverse:"@, rest);
    reveal_strlit("reverse:");
    reveal_strlit("host:");
    assert(local[0] == 'r');
    no_prefix(local, "host:"@, 0);
}

// ---------------------------------------------------------------------------------
// Rules that the host initiates
// ---------------------------------------------------------------------------------

/// What a connection to a rule's port opens on the device is the device end of the rule as
/// it was written.
pub proof fn rules_lead_to_the_end_they_name(a: u16, b: u16, cid: u32, port: u32, norebind: bool)
    ensures
        ({
            let head = (if norebind {
                "norebind:"@
            } else {
                Seq::empty()
            }) + ("tcp:"@ + decimal(a as nat)) + ";"@;
            let tcp = "tcp:"@ + decimal(b as nat);
            let vsock = "vsock:"@ + decimal(cid as nat) + ":"@ + decimal(port as nat);
            &&& parsed_forward(head + tcp) matches Some(r) && r.norebind == norebind
                && r.local.port() == a && r.local_is_zero == (a == 0) && service_text(
                forward_service(r.remote),
            ) == tcp && r.remote.text() == tcp
            &&& parsed_forward(head + vsock) matches Some(r) && r.norebind == norebind
                && r.local.port() == a && r.local_is_zero == (a == 0) && service_text(
                forward_service(r.remote),
            ) == vsock && r.remote.text() == vsock
        }),
{
    forward_request_reads_back(norebind, LocalSocketSpec::Tcp(a), RemoteSocketSpec::Tcp(b));
    forward_request_reads_back(
        norebind,
        LocalSocketSpec::Tcp(a),
        RemoteSocketSpec::Vsock { cid, port },
    );
}

/// A rule is asked for as one word: two ends that are ports or sockets, with a semicolon
/// between them. Anything else is refused by its name, and nothing is bound.
pub proof fn a_rule_has_two_ends(
    f: FrontendView,
    serial: Seq<char>,
    arg: Seq<char>,
    learned: Learned,
)
    requires
        !arg.contains(';'),
    ensures
        local_outcome(f, serial, "host:"@ + ("forward:"@ + arg), learned).step == StepView::Reply(
            fail_reply("bad forward: "@ + arg),
        ),
        local_outcome(f, serial, "host:"@ + ("forward:"@ + arg), learned).rules == f.rules,
{
    local_host_requests_are_read(arg);
    if has_prefix(arg, "norebind:"@) {
        let rest = after_prefix(arg, "norebind:"@);
        if rest.contains(';') {
            let i = choose|i: int| 0 <= i < rest.len() && rest[i] == ';';
            assert(arg[i + "norebind:"@.len() as int] == ';');
        }
    }
}

/// A new rule is bound for the device that the client means: the one it has chosen, the
/// one it names, or the only one. A rule that must not be replaced is not.
pub proof fn rules_are_bound_for_the_device_that_is_meant(
    f: FrontendView,
    arg: Seq<char>,
    serial: Seq<char>,
    devices: Seq<DeviceView>,
    learned: Learned,
)
    requires
        digits_follow_colons(serial),
    ensures
        parsed_forward(arg) matches Some(request) ==> {
            let step = if request.norebind && f.rules.contains_key(request.local.port()) {
                StepView::Reply(fail_reply("cannot rebind existing socket"@))
            } else {
                StepView::Bind { serial, request }
            };
            &&& local_outcome(f, serial, "host:"@ + ("forward:"@ + arg), learned).step == step
            &&& (exists|i: int| 0 <= i < devices.len() && (#[trigger] devices[i]).serial == serial)
                ==> host_outcome(
                f,
                "host-serial:"@ + (serial + seq![':'] + ("forward:"@ + arg)),
                Some(devices),
            ).step == step
            &&& devices.len() == 1 && devices[0].serial == serial ==> host_outcome(
                f,
                "host:"@ + ("forward:"@ + arg),
                Some(devices),
            ).step == step
        },
        !(exists|i: int| 0 <= i < devices.len() && (#[trigger] devices[i]).serial == serial)
            ==> host_outcome(
            f,
            "host-serial:"@ + (serial + seq![':'] + ("forward:"@ + arg)),
            Some(devices),
        ).step == StepView::Reply(fail_reply("device not found"@)),
        devices.len() == 0 ==> host_outcome(f, "host:"@ + ("forward:"@ + arg), Some(devices)).step
            == StepView::Reply(fail_reply("no devices/emulators found"@)),
        devices.len() > 1 ==> host_outcome(f, "host:"@ + ("forward:"@ + arg), Some(devices)).step
            == StepView::Reply(fail_reply("more than one device/emulator"@)),
{
    local_host_requests_are_read(arg);
    forward_carries_its_argument(arg);
    named_forward_is_read(serial, arg);
    any_means_the_only_one(devices);
    a_serial_names_its_device(devices, serial);
    if exists|i: int| 0 <= i < devices.len() && (#[trigger] devices[i]).serial == serial {
        let i = choose|i: int| 0 <= i < devices.len() && (#[trigger] devices[i]).serial == serial;
        assert(serials_of(devices)[i] == serial);
    } else {
        none_with_serial(devices, serial);
    }
}

/// A request on rules for a named device is read as the same request.
proof fn named_forward_is_read(serial: Seq<char>, arg: Seq<char>)
    requires
        digits_follow_colons(serial),
    ensures
        parsed_request(
            "host-serial:"@ + (serial + seq![':'] + ("forward:"@ + arg)),
        ) == HostRequestView::OnDevice(
            SelectorView::Serial(serial),
            SubServiceView::Forward(ForwardServiceView::Add(arg)),
        ),
        parsed_request(
            "host-serial:"@ + (serial + seq![':'] + ("killforward:"@ + arg)),
        ) == HostRequestView::OnDevice(
            SelectorView::Serial(serial),
            SubServiceView::Forward(ForwardServiceView::Kill(arg)),
        ),
{
    spelled_out_services();
    reveal_strlit("get-serialno");
    let a = "forward:"@ + arg;
    prefix_is_found("forward:"@, arg);
    assert(a[0] == 'f' && a[1] == 'o');
    host_serial_names_its_device(serial, a);
    let k = "killforward:"@ + arg;
    prefix_is_found("killforward:"@, arg);
    assert(k[0] == 'k' && k[11] == ':');
    no_prefix(k, "forward:"@, 0);
    host_serial_names_its_device(serial, k);
}

/// A rule is removed by its port, for every port: its listener is handed back and the other
/// rules stay. Without a rule on the port the client is told so, and all rules stay.
pub proof fn rules_are_removed_by_their_port(
    f: FrontendView,
    port: u16,
    serial: Seq<char>,
    devices: Seq<DeviceView>,
    learned: Learned,
)
    requires
        digits_follow_colons(serial),
        exists|i: int| 0 <= i < devices.len() && (#[trigger] devices[i]).serial == serial,
    ensures
        ({
            let arg = "tcp:"@ + decimal(port as nat);
            let step = if f.rules.contains_key(port) {
                StepView::Stop {
                    listeners: seq![f.rules[port].task],
                    reply: okay_word() + okay_word(),
                }
            } else {
                StepView::Reply(
                    fail_reply("listener 'tcp:"@ + decimal(port as nat) + "' not found"@),
                )
            };
            let chosen = local_outcome(f, serial, "host:"@ + ("killforward:"@ + arg), learned);
            let named = host_outcome(
                f,
                "host-serial:"@ + (serial + seq![':'] + ("killforward:"@ + arg)),
                Some(devices),
            );
            &&& chosen.step == step && chosen.rules == f.rules.remove(port)
            &&& named.step == step && named.rules == f.rules.remove(port)
            &&& devices.len() == 1 ==> host_outcome(
                f,
                "host:"@ + ("killforward:"@ + arg),
                Some(devices),
            ).step == step
        }),
{
    let arg = "tcp:"@ + decimal(port as nat);
    local_host_requests_are_read(arg);
    forward_carries_its_argument(arg);
    named_forward_is_read(serial, arg);
    local_spec_reads_back(LocalSocketSpec::Tcp(port));
    assert(LocalSocketSpec::parsed(arg) == Some(LocalSocketSpec::Tcp(port)));
    any_means_the_only_one(devices);
    let i = choose|i: int| 0 <= i < devices.len() && (#[trigger] devices[i]).serial == serial;
    assert(serials_of(devices)[i] == serial);
    if !f.rules.contains_key(port) {
        assert(f.rules.remove(port) =~= f.rules);
    }
}

/// All rules are removed at once, whatever device they belong to and whether or not any is
/// listed, and all are listed alike.
pub proof fn rules_are_listed_and_cleared_for_all(
    f: FrontendView,
    serial: Seq<char>,
    devices: Option<Seq<DeviceView>>,
    learned: Learned,
)
    ensures
        host_outcome(f, "host:"@ + "list-forward"@, devices).step == StepView::Reply(
            data_reply(listing(f.rules)),
        ),
        local_outcome(f, serial, "host:"@ + "list-forward"@, learned).step == StepView::Reply(
            data_reply(listing(f.rules)),
        ),
        host_outcome(f, "host:"@ + "list-forward"@, devices).rules == f.rules,
        host_outcome(f, "host:"@ + "killforward-all"@, devices).rules == Map::<
            u16,
            RuleView,
        >::empty(),
        local_outcome(f, serial, "host:"@ + "killforward-all"@, learned).rules == Map::<
            u16,
            RuleView,
        >::empty(),
        host_outcome(f, "host:"@ + "killforward-all"@, devices).step matches StepView::Stop {
            listeners,
            reply,
        } && reply == okay_word() + okay_word() && forall|t: u64|
            #[trigger] listeners.contains(t) <==> (exists|p: u16| #[trigger]
                f.rules.contains_key(p) && f.rules[p].task == t),
        local_outcome(f, serial, "host:"@ + "killforward-all"@, learned).step == host_outcome(
            f,
            "host:"@ + "killforward-all"@,
            devices,
        ).step,
{
    local_host_requests_are_read(Seq::empty());
    host_prefix_is_found("list-forward"@);
    host_prefix_is_found("killforward-all"@);
    spelled_out_services();
    no_prefix("list-forward"@, "tport:"@, 0);
    no_prefix("list-forward"@, "transport:"@, 0);
    no_prefix("killforward-all"@, "tport:"@, 0);
    no_prefix("killforward-all"@, "transport:"@, 0);
    no_prefix("killforward-all"@, "transport-id:"@, 0);
    assert forall|t: u64|
        #[trigger] all_tasks(f.rules).contains(t) <==> (exists|p: u16|
            #[trigger] f.rules.contains_key(p) && f.rules[p].task == t) by {
        handed_back_listeners(
            f.rules,
            |r: RuleView| true,
            0x1_0000,
            t,
        );
    }
}

/// A rule is removed for a device that is there: naming one that is not, or naming none
/// where there is none or more than one, is refused and removes nothing. So is an end that
/// is none, which is named in the refusal.
pub proof fn removals_need_a_device_and_an_end(
    f: FrontendView,
    arg: Seq<char>,
    serial: Seq<char>,
    devices: Seq<DeviceView>,
    learned: Learned,
)
    requires
        digits_follow_colons(serial),
    ensures
        ({
            let named = host_outcome(
                f,
                "host-serial:"@ + (serial + seq![':'] + ("killforward:"@ + arg)),
                Some(devices),
            );
            let bare = host_outcome(f, "host:"@ + ("killforward:"@ + arg), Some(devices));
            let chosen = local_outcome(f, serial, "host:"@ + ("killforward:"@ + arg), learned);
            &&& !(exists|i: int| 0 <= i < devices.len() && (#[trigger] devices[i]).serial == serial)
                ==> named.step == StepView::Reply(fail_reply("device not found"@)) && named.rules
                == f.rules
            &&& devices.len() == 0 ==> bare.step == StepView::Reply(
                fail_reply("no devices/emulators found"@),
            ) && bare.rules == f.rules
            &&& devices.len() > 1 ==> bare.step == StepView::Reply(
                fail_reply("more than one device/emulator"@),
            ) && bare.rules == f.rules
            &&& LocalSocketSpec::parsed(arg) is None ==> chosen.step == StepView::Reply(
                fail_reply("bad killforward: "@ + arg),
            ) && chosen.rules == f.rules
        }),
{
    local_host_requests_are_read(arg);
    forward_carries_its_argument(arg);
    named_forward_is_read(serial, arg);
    any_means_the_only_one(devices);
    a_serial_names_its_device(devices, serial);
    if !(exists|i: int| 0 <= i < devices.len() && (#[trigger] devices[i]).serial == serial) {
        none_with_serial(devices, serial);
    }
}

/// Whoever names a device lists and clears the rules of all devices alike.
pub proof fn naming_a_device_lists_and_clears_all(
    f: FrontendView,
    serial: Seq<char>,
    devices: Seq<DeviceView>,
)
    requires
        digits_follow_colons(serial),
    ensures
        host_outcome(
            f,
            "host-serial:"@ + (serial + seq![':'] + "list-forward"@),
            Some(devices),
        ) == host_outcome(f, "host:"@ + "list-forward"@, Some(devices)),
        host_outcome(
            f,
            "host-serial:"@ + (serial + seq![':'] + "killforward-all"@),
            Some(devices),
        ) == host_outcome(f, "host:"@ + "killforward-all"@, Some(devices)),
{
    host_prefix_is_found("list-forward"@);
    host_prefix_is_found("killforward-all"@);
    spelled_out_services();
    no_prefix("list-forward"@, "tport:"@, 0);
    no_prefix("list-forward"@, "transport:"@, 0);
    no_prefix("killforward-all"@, "tport:"@, 0);
    no_prefix("killforward-all"@, "transport:"@, 0);
    no_prefix("killforward-all"@, "transport-id:"@, 0);
    reveal_strlit("get-serialno");
    host_serial_names_its_device(serial, "list-forward"@);
    host_serial_names_its_device(serial, "killforward-all"@);
}

/// The line of a rule: the device, the port on the host, and the end on the device.
pub proof fn rules_are_listed_by_their_ends(port: u16, rule: RuleView, b: u16, cid: u32, p: u32)
    ensures
        rule.remote == RemoteSocketSpec::Tcp(b) ==> forward_line(port, rule) == rule.serial
            + " tcp:"@ + decimal(port as nat) + " "@ + ("tcp:"@ + decimal(b as nat)) + "\n"@,
        rule.remote == (RemoteSocketSpec::Vsock { cid, port: p }) ==> forward_line(port, rule)
            == rule.serial + " tcp:"@ + decimal(port as nat) + " "@ + ("vsock:"@ + decimal(
            cid as nat,
        ) + ":"@ + decimal(p as nat)) + "\n"@,
{
}

/// A listing is in the order of the ports: a rule with the highest port comes last, behind
/// the listing of the others. So does its listener.
pub proof fn rules_are_listed_by_port(rules: Map<u16, RuleView>, port: u16, rule: RuleView)
    requires
        forall|p: u16| rules.contains_key(p) ==> p < port,
    ensures
        listing(rules.insert(port, rule)) == listing(rules) + forward_line(port, rule),
        all_tasks(rules.insert(port, rule))
            == all_tasks(rules).push(rule.task),
        listing(Map::<u16, RuleView>::empty()) == Seq::<char>::empty(),
{
    let more = rules.insert(port, rule);
    let pick = |r: RuleView| true;
    below_alike(rules, more, pick, port as nat);
    assert(((port as nat + 1) as nat - 1) as u16 == port);
    assert(!rules.contains_key(port));
    let k = port as nat + 1;
    above_empty(rules, pick, k, 0x1_0000);
    above_empty(more, pick, k, 0x1_0000);
    above_empty(Map::<u16, RuleView>::empty(), pick, 0, 0x1_0000);
    assert(listing_below(more, k) == listing_below(rules, port as nat) + forward_line(port, rule));
    assert(listing_below(rules, k) == listing_below(rules, port as nat));
}

/// Below a port, a table lists the same with and without a rule on the port.
proof fn below_alike(
    a: Map<u16, RuleView>,
    b: Map<u16, RuleView>,
    pick: spec_fn(RuleView) -> bool,
    k: nat,
)
    requires
        k <= 0xffff,
        b == a.insert(k as u16, b[k as u16]),
    ensures
        listing_below(a, k) == listing_below(b, k),
        tasks_below(a, pick, k) == tasks_below(b, pick, k),
{
    below_agree(a, b, pick, k, k);
}

/// Tables that agree below a port list the same below it.
proof fn below_agree(
    a: Map<u16, RuleView>,
    b: Map<u16, RuleView>,
    pick: spec_fn(RuleView) -> bool,
    k: nat,
    n: nat,
)
    requires
        n <= k <= 0xffff,
        b == a.insert(k as u16, b[k as u16]),
    ensures
        listing_below(a, n) == listing_below(b, n),
        tasks_below(a, pick, n) == tasks_below(b, pick, n),
    decreases n,
{
    if n > 0 {
        below_agree(a, b, pick, k, (n - 1) as nat);
        let q = (n - 1) as u16;
        assert(q != k as u16);
        assert(a.contains_key(q) == b.contains_key(q));
    }
}

/// Above the last rule nothing is listed.
proof fn above_empty(
    rules: Map<u16, RuleView>,
    pick: spec_fn(RuleView) -> bool,
    a: nat,
    b: nat,
)
    requires
        a <= b <= 0x1_0000,
        forall|p: u16| a <= p < b ==> !rules.contains_key(p),
    ensures
        listing_below(rules, b) == listing_below(rules, a),
        tasks_below(rules, pick, b) == tasks_below(rules, pick, a),
    decreases b - a,
{
    if a < b {
        above_empty(rules, pick, a, (b - 1) as nat);
        assert(!rules.contains_key((b - 1) as u16));
    }
}

} // verus!
