//! What holds of the commands: what they ask for, and that they say what they did.
use vstd::prelude::*;

use crate::cli::commands::{
    chosen_device, device_announcement, device_call_view, device_report, emu_call_view,
    emulator_report, forward_ends, host_announcement, host_call_views, host_features_text,
    host_report, local_call_view, log_level, mdns_device_text, own_server, shell_words,
    DeviceCallView, DeviceCommand, DeviceReply, EmuCallView, EmuCommand, ForwardCommand,
    HostCallView, HostCommand, HostReply, LineView, LocalCallView, LocalDeviceCommand, MdnsBackend,
    ProxyChoice, ReverseCommand, WaitTransport,
};
use crate::cli::hex::{hex_reads_back, hex_text, parsed_hex};
use crate::cli::persistent::{
    bool_text, device_found, exercise, first_frame_text, intro_texts, negotiation_texts, run_told,
    running_text, session_frame, FirstFrame, PersistentCommand, PersistentSubcommand, ShellRun,
};
use crate::cli::usb::{
    adb_interface, centred, printed_table, table_head, table_of, usb_plan, UsbChoice, UsbDevice,
    UsbPlan,
};
use crate::models::DeviceFeatureSet;
use crate::number::decimal;
use crate::text::{joined, opt_text, texts, texts_are_joined_in_order};

verus! {

// ---------------------------------------------------------------------------------
// Through a server
// ---------------------------------------------------------------------------------

/// A server on this machine may have to be started: one at a loopback address, whatever
/// its last three parts, or at the address that stands for all. No other may.
pub proof fn only_an_own_server_is_started(ip: [u8; 4])
    ensures
        ip[0] == 127 ==> own_server(ip),
        ip@ == seq![0u8, 0, 0, 0] ==> own_server(ip),
        ip[0] != 127 && (ip[0] != 0 || ip[1] != 0 || ip[2] != 0 || ip[3] != 0) ==> !own_server(ip),
{
    if ip@ == seq![0u8, 0, 0, 0] {
        assert(ip@[0] == 0 && ip@[1] == 0 && ip@[2] == 0 && ip@[3] == 0);
    }
}

/// A transport id decides which device is asked for, whether there is a serial or not; a
/// serial decides where there is no id; without either it is the only device.
pub proof fn an_id_comes_before_a_serial(
    id: u32,
    serial: Option<Seq<char>>,
    s: Seq<char>,
    choice: ProxyChoice,
)
    ensures
        chosen_device(Some(id), serial, choice) <==> choice == ProxyChoice::TransportId(id),
        chosen_device(None, Some(s), choice) <==> choice is Serial && choice->Serial_0@ == s,
        chosen_device(None, None, choice) <==> choice is Autodetect,
{
}

/// A rule is asked for with the end on the device first, whichever side initiates it: the
/// two ends of a forward change places, those of a reverse rule do not.
pub proof fn rules_are_asked_for_with_the_remote_end_first(local: String, remote: String)
    ensures
        local_call_view(
            LocalDeviceCommand::Forward(ForwardCommand::Add { local, remote }),
        ) == LocalCallView::Forward(remote@, local@),
        local_call_view(
            LocalDeviceCommand::Reverse(ReverseCommand::Add { remote, local }),
        ) == LocalCallView::Reverse(remote@, local@),
        forward_ends(local@, remote@) == (remote@, local@),
{
}

/// A rule is removed by its local end, on the side that it was made for; the rest of the
/// commands on a device are passed on as they are.
pub proof fn commands_on_a_device_are_passed_on(local: String, path: Option<String>)
    ensures
        local_call_view(LocalDeviceCommand::Forward(ForwardCommand::Remove { local }))
            == LocalCallView::ForwardRemove(local@),
        local_call_view(LocalDeviceCommand::Reverse(ReverseCommand::Remove { local }))
            == LocalCallView::ReverseRemove(local@),
        local_call_view(LocalDeviceCommand::Forward(ForwardCommand::RemoveAll))
            == LocalCallView::ForwardRemoveAll,
        local_call_view(LocalDeviceCommand::Reverse(ReverseCommand::RemoveAll))
            == LocalCallView::ReverseRemoveAll,
        local_call_view(LocalDeviceCommand::Logcat { path }) == LocalCallView::Logs(
            opt_text(path),
        ),
        local_call_view(LocalDeviceCommand::HostFeatures) == LocalCallView::HostFeatures,
{
}

/// A request to a server is one call with the arguments that were given. To ask how devices
/// are found takes a second call, for the server's status.
pub proof fn requests_to_a_server_are_passed_on(
    address: String,
    code: String,
    transport: WaitTransport,
)
    ensures
        host_call_views(HostCommand::Version) == seq![HostCallView::Version],
        host_call_views(HostCommand::Kill) == seq![HostCallView::Kill],
        host_call_views(HostCommand::Devices { long: false }) == seq![HostCallView::Devices],
        host_call_views(HostCommand::Devices { long: true }) == seq![HostCallView::DevicesLong],
        host_call_views(HostCommand::TrackDevices) == seq![HostCallView::TrackDevices],
        host_call_views(HostCommand::Pair { address, code }) == seq![
            HostCallView::Pair(address@, code@),
        ],
        host_call_views(HostCommand::Connect { address }) == seq![HostCallView::Connect(address@)],
        host_call_views(HostCommand::Disconnect { address }) == seq![
            HostCallView::Disconnect(address@),
        ],
        host_call_views(HostCommand::MdnsServices) == seq![HostCallView::MdnsServices],
        host_call_views(HostCommand::ServerStatus) == seq![HostCallView::ServerStatus],
        host_call_views(HostCommand::WaitForDevice { transport }) == seq![
            HostCallView::WaitForDevice(transport),
        ],
        host_call_views(HostCommand::MdnsCheck) == seq![
            HostCallView::MdnsCheck,
            HostCallView::ServerStatus,
        ],
{
}

/// What was done with an address is told with that address.
pub proof fn what_was_done_with_an_address_is_told(address: String, code: String)
    ensures
        host_report(HostCommand::Pair { address, code }, seq![HostReply::Done]) == seq![
            LineView::Log("Paired device "@ + address@),
        ],
        host_report(HostCommand::Connect { address }, seq![HostReply::Done]) == seq![
            LineView::Log("Connected to "@ + address@),
        ],
        host_report(HostCommand::Disconnect { address }, seq![HostReply::Done]) == seq![
            LineView::Log("Disconnected "@ + address@),
        ],
{
}

/// What a server lists is told line by line, in its order; what it tells in one text is
/// told in one line.
pub proof fn what_a_server_tells_is_told(
    long: bool,
    list: Vec<String>,
    text: String,
    mdns_backend: MdnsBackend,
    i: int,
)
    ensures
        ({
            let devices = host_report(
                HostCommand::Devices { long },
                seq![HostReply::List(list)],
            );
            let services = host_report(HostCommand::MdnsServices, seq![HostReply::List(list)]);
            &&& devices.len() == list@.len()
            &&& services.len() == list@.len()
            &&& 0 <= i < list@.len() ==> devices[i] == LineView::Log(list@[i]@)
            &&& 0 <= i < list@.len() ==> services[i] == LineView::Log(list@[i]@)
        }),
        host_report(HostCommand::TrackDevices, seq![HostReply::Text(text)]) == seq![
            LineView::Log(text@),
        ],
        host_report(
            HostCommand::ServerStatus,
            seq![HostReply::Status { text, mdns_backend }],
        ) == seq![LineView::Log(text@)],
        host_report(HostCommand::Version, seq![HostReply::Text(text)]).len() == 2,
        host_report(HostCommand::Version, seq![HostReply::Text(text)])[0] == LineView::Log(
            "Android Debug Bridge version "@ + text@,
        ),
        host_report(HostCommand::Version, seq![HostReply::Text(text)])[1] == LineView::Log(
            "Package version 3.2.2-rust"@,
        ),
{
    reveal_strlit("Package version ");
    reveal_strlit("3.2.2");
    reveal_strlit("-rust");
    reveal_strlit("Package version 3.2.2-rust");
    assert("Package version "@ + "3.2.2"@ + "-rust"@ =~= "Package version 3.2.2-rust"@);
}

/// Whether devices are found, and by what, is told from both replies: one way is known to
/// work only if the check says so, the other works always.
pub proof fn how_devices_are_found_is_told(check: bool, text: String)
    ensures
        host_report(
            HostCommand::MdnsCheck,
            seq![
                HostReply::Check(check),
                HostReply::Status { text, mdns_backend: MdnsBackend::Bonjour },
            ],
        ) == seq![
            LineView::Log(
                if check {
                    "mdns daemon version [Bonjour]"@
                } else {
                    "ERROR: mdns daemon unavailable"@
                },
            ),
        ],
        host_report(
            HostCommand::MdnsCheck,
            seq![
                HostReply::Check(check),
                HostReply::Status { text, mdns_backend: MdnsBackend::OpenScreen },
            ],
        ) == seq![LineView::Log("mdns daemon version [Openscreen discovery 0.0.0]"@)],
        host_report(
            HostCommand::MdnsCheck,
            seq![
                HostReply::Check(check),
                HostReply::Status { text, mdns_backend: MdnsBackend::Unknown },
            ],
        ) == seq![LineView::Log("unknown mdns backend..."@)],
{
}

/// A heading stands above every list, and a wait is announced; other requests are made
/// without a word.
pub proof fn lists_and_waits_are_announced(
    transport: WaitTransport,
    address: String,
    code: String,
)
    ensures
        host_announcement(HostCommand::Devices { long: false }) == Some(
            "List of devices attached"@,
        ),
        host_announcement(HostCommand::Devices { long: true }) == Some(
            "List of devices attached (extended)"@,
        ),
        host_announcement(HostCommand::TrackDevices) == Some("Live list of devices attached"@),
        host_announcement(HostCommand::MdnsServices) == Some("List of discovered mdns services"@),
        host_announcement(HostCommand::WaitForDevice { transport }) == Some(
            "waiting for device to be connected..."@,
        ),
        host_announcement(HostCommand::Version) is None,
        host_announcement(HostCommand::Kill) is None,
        host_announcement(HostCommand::Pair { address, code }) is None,
        host_announcement(HostCommand::Connect { address }) is None,
        host_announcement(HostCommand::Disconnect { address }) is None,
        host_announcement(HostCommand::MdnsCheck) is None,
        host_announcement(HostCommand::ServerStatus) is None,
{
}

/// The features of a server are told in their order, with commas between them, and a
/// device on the network with its name and its addresses of either kind.
pub proof fn features_and_finds_are_told(
    features: Seq<Seq<char>>,
    name: Seq<char>,
    ipv4: Seq<char>,
    ipv6: Seq<char>,
)
    ensures
        host_features_text(features) == "Available host features: "@ + joined(features, ","@),
        mdns_device_text(name, ipv4, ipv6) == "Found device fullname='"@ + name
            + "' with ipv4 addresses="@ + ipv4 + " and ipv6 addresses="@ + ipv6,
        log_level(true) == "debug"@,
        log_level(false) == "info"@,
{
}

// ---------------------------------------------------------------------------------
// On a device
// ---------------------------------------------------------------------------------

/// A shell runs all the words that were given, in their order, with one blank between each
/// two of them; without words it is one with the terminal.
pub proof fn shells_run_the_words_that_were_given(commands: Vec<String>, word: Seq<char>)
    ensures
        commands@.len() == 0 ==> device_call_view(DeviceCommand::Shell { commands })
            == DeviceCallView::Interact,
        commands@.len() > 0 ==> device_call_view(DeviceCommand::Shell { commands })
            == DeviceCallView::Shell(joined(texts(commands@), " "@)),
        shell_words(Seq::empty()) == None::<Seq<char>>,
        shell_words(seq![word]) == Some(word),
        commands@.len() > 0 ==> shell_words(texts(commands@).push(word)) == Some(
            joined(texts(commands@), " "@) + " "@ + word,
        ),
{
    texts_are_joined_in_order(texts(commands@), word, " "@);
}

/// Files are copied from where they are to where they are wanted, in the direction of the
/// command, and the line at the end names both in that order.
pub proof fn files_are_copied_in_the_right_direction(from: String, to: String)
    ensures
        device_call_view(DeviceCommand::Pull { source: from, destination: to })
            == DeviceCallView::Pull(from@, to@),
        device_call_view(DeviceCommand::Push { filename: from, path: to }) == DeviceCallView::Push(
            from@,
            to@,
        ),
        device_report(
            DeviceCommand::Pull { source: from, destination: to },
            DeviceReply::Done,
        ) == seq![LineView::Log("Downloaded "@ + from@ + " as "@ + to@)],
        device_report(DeviceCommand::Push { filename: from, path: to }, DeviceReply::Done)
            == seq![LineView::Log("Uploaded "@ + from@ + " to "@ + to@)],
{
}

/// Packages are run, installed and removed as they were named, for the user that was named;
/// what takes long is announced.
pub proof fn packages_are_those_that_were_named(a: String, b: String, user: Option<String>)
    ensures
        device_call_view(DeviceCommand::Run { package: a, activity: b })
            == DeviceCallView::RunActivity(a@, b@),
        device_call_view(DeviceCommand::Install { path: a, user }) == DeviceCallView::Install(
            a@,
            opt_text(user),
        ),
        device_call_view(DeviceCommand::Uninstall { package: a, user })
            == DeviceCallView::Uninstall(a@, opt_text(user)),
        device_announcement(DeviceCommand::Install { path: a, user }) == Some(
            "Starting installation of APK "@ + a@ + "..."@,
        ),
        device_announcement(DeviceCommand::Uninstall { package: a, user }) == Some(
            "Uninstalling the package "@ + a@ + "..."@,
        ),
{
}

/// The rest of the commands on a device are passed on with their argument, and what the
/// device replied is told.
pub proof fn replies_of_a_device_are_told(path: String, t: String, list: Vec<String>, i: int)
    ensures
        device_call_view(DeviceCommand::Stat { path }) == DeviceCallView::Stat(path@),
        device_call_view(DeviceCommand::StatExtended { path }) == DeviceCallView::StatExtended(
            path@,
        ),
        device_call_view(DeviceCommand::Reboot { mode: path }) == DeviceCallView::Reboot(path@),
        device_call_view(DeviceCommand::Root) == DeviceCallView::Root,
        device_call_view(DeviceCommand::Framebuffer { path }) == DeviceCallView::Framebuffer(
            path@,
        ),
        device_call_view(DeviceCommand::List { path }) == DeviceCallView::List(path@),
        device_announcement(DeviceCommand::Reboot { mode: path }) == Some(
            "Reboots device in mode "@ + path@,
        ),
        device_report(DeviceCommand::Stat { path }, DeviceReply::Text(t)) == seq![
            LineView::Print(t@),
        ],
        device_report(DeviceCommand::StatExtended { path }, DeviceReply::Text(t)) == seq![
            LineView::Print(t@),
        ],
        device_report(DeviceCommand::StatExtended { path }, DeviceReply::Missing) == seq![
            LineView::Print("No such file or directory"@),
        ],
        device_report(DeviceCommand::Root, DeviceReply::Done) == seq![
            LineView::Log("Restarted adbd as root"@),
        ],
        device_report(DeviceCommand::Framebuffer { path }, DeviceReply::Done) == seq![
            LineView::Log("Successfully dumped framebuffer at path "@ + path@),
        ],
        device_report(DeviceCommand::List { path }, DeviceReply::List(list)).len() == list@.len(),
        0 <= i < list@.len() ==> device_report(
            DeviceCommand::List { path },
            DeviceReply::List(list),
        )[i] == LineView::Log(list@[i]@),
{
}

// ---------------------------------------------------------------------------------
// On an emulator
// ---------------------------------------------------------------------------------

/// A message goes to the number that was given, with the text that was given, and the line
/// at the end names the number.
pub proof fn messages_go_to_their_number(phone_number: String, content: String, reply: Seq<char>)
    ensures
        emu_call_view(EmuCommand::Sms { phone_number, content }) == EmuCallView::SendSms(
            phone_number@,
            content@,
        ),
        emulator_report(EmuCommand::Sms { phone_number, content }, reply) == seq![
            LineView::Log("SMS sent to "@ + phone_number@),
        ],
{
}

/// What an emulator replied is printed as it is, and nothing else is; a rotation says
/// nothing.
pub proof fn replies_of_an_emulator_are_printed(text: String, reply: Seq<char>)
    ensures
        emu_call_view(EmuCommand::Raw { command: text }) == EmuCallView::SendRawCommand(text@),
        emulator_report(EmuCommand::Raw { command: text }, reply) == seq![LineView::Print(reply)],
        emu_call_view(EmuCommand::Rotate) == EmuCallView::Rotate,
        emulator_report(EmuCommand::Rotate, reply) == Seq::<LineView>::empty(),
        emu_call_view(EmuCommand::AvdDiscoveryPath) == EmuCallView::AvdDiscoveryPath,
        emulator_report(EmuCommand::AvdDiscoveryPath, reply) == seq![
            LineView::Log("AVD discovery path: "@ + reply),
            LineView::Print(reply),
        ],
        emu_call_view(EmuCommand::AvdGrpcPort) == EmuCallView::AvdGrpcPort,
        emulator_report(EmuCommand::AvdGrpcPort, reply) == seq![
            LineView::Log("gRPC port: "@ + reply),
            LineView::Print(reply),
        ],
{
}

// ---------------------------------------------------------------------------------
// Over USB
// ---------------------------------------------------------------------------------

/// A device is named by both numbers or by neither; one alone is refused. Listing needs
/// none and does not look at them.
pub proof fn both_numbers_or_none(v: u16, p: u16, vendor: Option<u16>, product: Option<u16>)
    ensures
        usb_plan(false, Some(v), Some(p)) == Ok::<UsbPlan, Seq<char>>(
            UsbPlan::Open(UsbChoice::Ids(v, p)),
        ),
        usb_plan(false, None, None) == Ok::<UsbPlan, Seq<char>>(
            UsbPlan::Open(UsbChoice::Autodetect),
        ),
        usb_plan(false, Some(v), None) is Err,
        usb_plan(false, None, Some(p)) is Err,
        usb_plan(true, vendor, product) == Ok::<UsbPlan, Seq<char>>(UsbPlan::List),
        usb_plan(false, vendor, product) is Err ==> usb_plan(false, vendor, product)->Err_0
            == "cannot specify flags --vendor-id without --product-id or vice versa"@,
{
}

/// Debugging goes over the interfaces of one class, one subclass and one protocol.
pub proof fn one_interface_is_for_debugging(class: u8, subclass: u8, protocol: u8)
    ensures
        adb_interface(class, subclass, protocol) <==> class == 255 && subclass == 66 && protocol
            == 1,
{
}

/// The list has a line for each device, behind those of the devices before it: its place,
/// from zero, its two numbers in hexadecimal, its serial where it has one, and what it is.
pub proof fn devices_are_tabled_in_order(devices: Seq<UsbDevice>, d: UsbDevice)
    ensures
        table_of(Seq::empty()) == table_head(),
        table_of(devices.push(d)) == table_of(devices) + "#"@ + decimal(devices.len()) + "\t"@
            + hex_text(d.vendor_id) + "\t"@ + hex_text(d.product_id) + "\t"@ + (match d.serial {
            Some(s) => s@,
            None => "-"@,
        }) + "\t"@ + d.description@ + "\n"@,
        parsed_hex(hex_text(d.vendor_id)) == Some(d.vendor_id as nat),
        parsed_hex(hex_text(d.product_id)) == Some(d.product_id as nat),
        printed_table(devices) == centred(table_of(devices)),
{
    assert(devices.push(d).drop_last() =~= devices);
    hex_reads_back(d.vendor_id);
    hex_reads_back(d.product_id);
    assert(table_of(devices.push(d)) =~= table_of(devices) + "#"@ + decimal(devices.len()) + "\t"@
        + hex_text(d.vendor_id) + "\t"@ + hex_text(d.product_id) + "\t"@ + (match d.serial {
        Some(s) => s@,
        None => "-"@,
    }) + "\t"@ + d.description@ + "\n"@);
}

/// The head of the list names five columns and underlines each name.
pub proof fn the_head_names_the_columns()
    ensures
        table_head() == "Index\tVendor ID\tProduct ID\tSerial\tDevice Description\n"@
            + "-----\t---------\t----------\t------\t----------------\n"@,
{
}

// ---------------------------------------------------------------------------------
// The exerciser
// ---------------------------------------------------------------------------------

/// The exerciser uses the device that was named and runs the words that were given, or
/// `getprop`. It asks for every feature, for windowed writes unless they were declined.
pub proof fn the_exerciser_does_what_was_asked(
    command: PersistentCommand,
    commands: Vec<String>,
    v: u16,
    p: u16,
)
    requires
        command.vendor_id == Some(v),
        command.product_id == Some(p),
    ensures
        exercise(command) is Ok,
        exercise(command)->Ok_0.0 == UsbChoice::Ids(v, p),
        exercise(command)->Ok_0.1.shell_v2,
        exercise(command)->Ok_0.1.stat_v2,
        exercise(command)->Ok_0.1.delayed_ack == !command.no_delayed_ack,
        command.command == Some(PersistentSubcommand::Shell { commands }) && commands@.len() > 0
            ==> exercise(command)->Ok_0.2 == joined(texts(commands@), " "@),
        command.command == Some(PersistentSubcommand::Shell { commands }) && commands@.len() == 0
            ==> exercise(command)->Ok_0.2 == "getprop"@,
        command.command is None ==> exercise(command)->Ok_0.2 == "getprop"@,
{
}

/// The exerciser needs both numbers of a device or neither.
pub proof fn the_exerciser_needs_both_numbers(command: PersistentCommand)
    ensures
        exercise(command) is Ok <==> (command.vendor_id is Some <==> command.product_id is Some),
        exercise(command) is Err ==> exercise(command)->Err_0
            == "cannot specify --vendor-id without --product-id or vice versa"@,
        command.vendor_id is None && command.product_id is None ==> exercise(command)->Ok_0.0
            == UsbChoice::Autodetect,
{
}

/// A device that was named is used without a look at what is there. Otherwise the first
/// that was found is, and is told of; with none there is nothing to do.
pub proof fn the_first_device_is_found(v: u16, p: u16, devices: Seq<UsbDevice>)
    ensures
        device_found(UsbChoice::Ids(v, p), devices) == Ok::<
            (u16, u16, Option<Seq<char>>),
            Seq<char>,
        >((v, p, None)),
        devices.len() > 0 ==> device_found(UsbChoice::Autodetect, devices) == Ok::<
            (u16, u16, Option<Seq<char>>),
            Seq<char>,
        >(
            (
                devices[0].vendor_id,
                devices[0].product_id,
                Some(
                    "autodetected USB device "@ + hex_text(devices[0].vendor_id) + ":"@ + hex_text(
                        devices[0].product_id,
                    ) + " ("@ + devices[0].description@ + ")"@,
                ),
            ),
        ),
        device_found(UsbChoice::Autodetect, Seq::empty()) == Err::<
            (u16, u16, Option<Seq<char>>),
            Seq<char>,
        >("no connected ADB USB device found to autodetect"@),
{
}

/// Before the connection is made the exerciser tells the device, how it asks to write and
/// what it tells the device of itself.
pub proof fn the_exerciser_introduces_itself(
    v: u16,
    p: u16,
    features: DeviceFeatureSet,
    banner: Seq<char>,
)
    ensures
        intro_texts(v, p, features, banner).len() == 4,
        intro_texts(v, p, features, banner)[0] == "=== adboost persistent exerciser ==="@,
        intro_texts(v, p, features, banner)[1] == "device:           "@ + hex_text(v) + ":"@
            + hex_text(p),
        features.delayed_ack ==> intro_texts(v, p, features, banner)[2] == "requested mode:   "@
            + "windowed (delayed_ack)"@,
        !features.delayed_ack ==> intro_texts(v, p, features, banner)[2] == "requested mode:   "@
            + "classic (--no-delayed-ack)"@,
        intro_texts(v, p, features, banner)[3] == "advertised banner (to device): "@ + banner,
{
}

/// After the negotiation each feature is told under its own name, and windowed writes once
/// more in a line of their own.
pub proof fn what_was_negotiated_is_told(f: DeviceFeatureSet)
    ensures
        negotiation_texts(f).len() == 3,
        negotiation_texts(f)[0] == "--- negotiation self-check ---"@,
        negotiation_texts(f)[1] == "connection feature set: "@ + (
        "DeviceFeatureSet { shell_v2: "@ + bool_text(f.shell_v2) + ", stat_v2: "@ + bool_text(
            f.stat_v2,
        ) + ", delayed_ack: "@ + bool_text(f.delayed_ack) + " }"@),
        f.delayed_ack ==> negotiation_texts(f)[2] == "delayed_ack negotiated: "@
            + "true (windowed)"@,
        !f.delayed_ack ==> negotiation_texts(f)[2] == "delayed_ack negotiated: "@
            + "false (classic stop-and-wait)"@,
        bool_text(true) == "true"@,
        bool_text(false) == "false"@,
{
}

/// The frames of a session are those that accept it, that carry data and that close it; the
/// frames with which a connection is set up are none.
pub proof fn frames_of_a_session(command: Seq<char>)
    ensures
        session_frame(command) <==> command == "OKAY"@ || command == "CLSE"@ || command
            == "WRTE"@,
        !session_frame("CNXN"@),
        !session_frame("AUTH"@),
        !session_frame("OPEN"@),
        !session_frame("STLS"@),
{
    reveal_strlit("OKAY");
    reveal_strlit("CLSE");
    reveal_strlit("WRTE");
    reveal_strlit("CNXN");
    reveal_strlit("AUTH");
    reveal_strlit("OPEN");
    reveal_strlit("STLS");
    assert("OKAY"@[0] == 'O' && "CLSE"@[0] == 'C' && "WRTE"@[0] == 'W');
    assert("CNXN"@[0] == 'C' && "AUTH"@[0] == 'A' && "OPEN"@[0] == 'O' && "STLS"@[0] == 'S');
    assert("CNXN"@[1] == 'N' && "CLSE"@[1] == 'L' && "OPEN"@[1] == 'P' && "OKAY"@[1] == 'K');
}

/// The first frame of a session is told with its command, its two arguments in their order
/// and the length of what it carries; where none came, why.
pub proof fn the_first_frame_is_told(command: String, arg0: u32, arg1: u32, length: u32)
    ensures
        ({
            let head = "first session frame after OPEN (OKAY=accepted / CLSE=rejected): "@;
            &&& first_frame_text(FirstFrame::Frame { command, arg0, arg1, length }) == head + (
            command@ + " arg0="@ + decimal(arg0 as nat) + " arg1="@ + decimal(arg1 as nat)
                + " payload_len="@ + decimal(length as nat))
            &&& first_frame_text(FirstFrame::Closed) == head + "<reader channel closed>"@
            &&& first_frame_text(FirstFrame::TimedOut) == head + "<none within 5s>"@
            &&& first_frame_text(FirstFrame::Unwatched) == head + "<observer task failed>"@
        }),
{
}

/// The command that is run is told. What it put out is printed whole, with the code that it
/// ended with; a refusal and a broken connection are errors.
pub proof fn the_run_is_told(shell: Seq<char>, output: String, code: u8, e: String)
    ensures
        running_text(shell) == "--- running: shell "@ + shell + " ---"@,
        run_told(ShellRun::Ran(output, Some(code))) is Ok,
        output@.len() > 0 && output@.last() == '\n' ==> run_told(
            ShellRun::Ran(output, Some(code)),
        )->Ok_0 == "--- output ---\n"@ + output@ + "--- exit code: "@ + decimal(code as nat)
            + " ---\n"@,
        output@.len() == 0 || output@.last() != '\n' ==> run_told(
            ShellRun::Ran(output, Some(code)),
        )->Ok_0 == "--- output ---\n"@ + output@ + "\n"@ + "--- exit code: "@ + decimal(
            code as nat,
        ) + " ---\n"@,
        output@.len() > 0 && output@.last() == '\n' ==> run_told(ShellRun::Ran(output, None))
            == Ok::<Seq<char>, Seq<char>>(
            "--- output ---\n"@ + output@ + "--- exit code: "@ + "<none (v1 path)>"@ + " ---\n"@,
        ),
        run_told(ShellRun::Refused(e)) == Err::<Seq<char>, Seq<char>>(
            "shell command failed: "@ + e@,
        ),
        run_told(ShellRun::Broken(e)) == Err::<Seq<char>, Seq<char>>(e@),
{
    reveal_strlit("");
    assert("--- output ---\n"@ + output@ + ""@ =~= "--- output ---\n"@ + output@);
}

} // verus!
