use adboost::cli::commands::{
    announce_device_command, announce_host_command, choose_proxy_device, default_log_filter,
    device_call, emulator_call, forward_library_args, handle_emulator_commands,
    handle_host_commands, handle_local_commands, host_calls, host_features_line, is_own_server,
    long_version, mdns_device_line, run_command, shell_mode, version_line, DeviceCall,
    DeviceCommand, DeviceReply, EmuCall, EmuCommand, ForwardCommand, HostCall, HostCommand,
    HostReply, Line, LocalCall, LocalDeviceCommand, MdnsBackend, ProxyChoice, ProxyCommand,
    ProxyPlan, ReverseCommand, ShellMode, WaitTransport,
};
use adboost::cli::hex::{hex_string, parse_hex_id};
use adboost::cli::persistent::{
    handle_persistent_command, intro_lines, is_session_frame, mode_label, negotiation_lines,
    report_first_frame, resolve_device, running_line, shell_report, FirstFrame,
    PersistentCommand, PersistentSubcommand, ShellRun,
};
use adboost::cli::usb::{
    device_table, handle_usb_command, is_adb_interface, list_usb_devices, required_command,
    UsbChoice, UsbDevice, UsbPlan,
};
use adboost::models::DeviceFeatureSet;

fn s(t: &str) -> String {
    t.to_string()
}

fn log(t: &str) -> Line {
    Line::Log(s(t))
}

fn print(t: &str) -> Line {
    Line::Print(s(t))
}

#[test]
fn forward_passes_remote_then_local_to_library() {
    let local = "tcp:1111".to_string();
    let remote = "tcp:2222".to_string();
    let (arg0, arg1) = forward_library_args(local.clone(), remote.clone());
    assert_eq!(
        arg0, remote,
        "library forward() is remote-first: first arg must be the CLI's REMOTE"
    );
    assert_eq!(
        arg1, local,
        "library forward() is remote-first: second arg must be the CLI's LOCAL"
    );
}

#[test]
fn numbers_of_usb_devices() {
    assert_eq!(hex_string(0), "0000");
    assert_eq!(hex_string(0x18d1), "18d1");
    assert_eq!(hex_string(0xffff), "ffff");
    assert_eq!(parse_hex_id("18d1"), Some(0x18d1));
    assert_eq!(parse_hex_id("18D1"), Some(0x18d1));
    assert_eq!(parse_hex_id("+a"), Some(10));
    assert_eq!(parse_hex_id("000000ff"), Some(255));
    assert_eq!(parse_hex_id(""), None);
    assert_eq!(parse_hex_id("+"), None);
    assert_eq!(parse_hex_id("10000"), None);
    assert_eq!(parse_hex_id("0x12"), None);
    assert_eq!(parse_hex_id("-1"), None);
}

fn usb(vendor_id: u16, product_id: u16, serial: Option<&str>, description: &str) -> UsbDevice {
    UsbDevice { vendor_id, product_id, serial: serial.map(str::to_string), description: s(description) }
}

#[test]
fn devices_are_listed_in_columns() {
    let devices = vec![usb(0x18d1, 0x4ee7, Some("ABC"), "Pixel"), usb(1, 2, None, "x")];
    assert_eq!(
        device_table(&devices),
        "Index\tVendor ID\tProduct ID\tSerial\tDevice Description\n\
         -----\t---------\t----------\t------\t----------------\n\
         #0\t18d1\t4ee7\tABC\tPixel\n\
         #1\t0001\t0002\t-\tx\n"
    );
    let printed = String::from_utf8(list_usb_devices(&devices)).unwrap();
    assert_eq!(
        printed,
        "Index  Vendor ID  Product ID  Serial  Device Description\n\
         -----  ---------  ----------  ------  ----------------\n\
         \u{20}#0      18d1        4ee7      ABC    Pixel\n\
         \u{20}#1      0001        0002       -     x\n"
    );
}

#[test]
fn interfaces_for_debugging() {
    assert!(is_adb_interface(0xff, 0x42, 1));
    assert!(!is_adb_interface(0xff, 0x42, 3));
    assert!(!is_adb_interface(8, 6, 80));
}

#[test]
fn both_numbers_or_none() {
    assert_eq!(handle_usb_command(true, Some(1), None), Ok(UsbPlan::List));
    assert_eq!(
        handle_usb_command(false, Some(1), Some(2)),
        Ok(UsbPlan::Open(UsbChoice::Ids(1, 2)))
    );
    assert_eq!(handle_usb_command(false, None, None), Ok(UsbPlan::Open(UsbChoice::Autodetect)));
    let err = Err(s("cannot specify flags --vendor-id without --product-id or vice versa"));
    assert_eq!(handle_usb_command(false, Some(1), None), err);
    assert_eq!(handle_usb_command(false, None, Some(1)), err);
    assert_eq!(required_command(Some(3)), Ok(3));
    assert_eq!(required_command::<u8>(None), Err(s("no command specified")));
}

fn persistent(commands: Option<Vec<String>>, no_delayed_ack: bool) -> PersistentCommand {
    PersistentCommand {
        vendor_id: None,
        product_id: None,
        path_to_private_key: None,
        no_delayed_ack,
        command: commands.map(|commands| PersistentSubcommand::Shell { commands }),
    }
}

#[test]
fn the_exerciser_is_planned() {
    let plan = handle_persistent_command(&persistent(None, false)).unwrap();
    assert_eq!(plan.shell, "getprop");
    assert_eq!(plan.device, UsbChoice::Autodetect);
    assert_eq!(plan.features, DeviceFeatureSet::default());
    let plan = handle_persistent_command(&persistent(Some(vec![]), true)).unwrap();
    assert_eq!(plan.shell, "getprop");
    assert!(!plan.features.delayed_ack && plan.features.shell_v2);
    let plan = handle_persistent_command(&persistent(Some(vec![s("ls"), s("-l")]), false)).unwrap();
    assert_eq!(plan.shell, "ls -l");
    let mut half = persistent(None, false);
    half.vendor_id = Some(1);
    assert_eq!(
        handle_persistent_command(&half).unwrap_err(),
        "cannot specify --vendor-id without --product-id or vice versa"
    );
}

#[test]
fn the_first_device_is_detected() {
    let devices = vec![usb(0x18d1, 0x4ee7, None, "Pixel"), usb(1, 2, None, "x")];
    assert_eq!(resolve_device(UsbChoice::Ids(7, 8), &devices), Ok((7, 8, None)));
    assert_eq!(
        resolve_device(UsbChoice::Autodetect, &devices),
        Ok((0x18d1, 0x4ee7, Some(s("autodetected USB device 18d1:4ee7 (Pixel)"))))
    );
    assert_eq!(
        resolve_device(UsbChoice::Autodetect, &vec![]),
        Err(s("no connected ADB USB device found to autodetect"))
    );
}

#[test]
fn the_exerciser_reports() {
    let classic = DeviceFeatureSet { shell_v2: true, stat_v2: false, delayed_ack: false };
    assert_eq!(mode_label(&classic), "classic (--no-delayed-ack)");
    assert_eq!(mode_label(&DeviceFeatureSet::default()), "windowed (delayed_ack)");
    assert_eq!(
        intro_lines(0x18d1, 1, &classic, "host::x"),
        [
            "=== adboost persistent exerciser ===",
            "device:           18d1:0001",
            "requested mode:   classic (--no-delayed-ack)",
            "advertised banner (to device): host::x",
        ]
    );
    assert_eq!(
        negotiation_lines(&classic),
        [
            s("--- negotiation self-check ---"),
            format!("connection feature set: {classic:?}"),
            s("delayed_ack negotiated: false (classic stop-and-wait)"),
        ]
    );
    assert_eq!(running_line("getprop"), "--- running: shell getprop ---");
    let head = "first session frame after OPEN (OKAY=accepted / CLSE=rejected): ";
    let frame = FirstFrame::Frame { command: s("OKAY"), arg0: 1, arg1: 2, length: 0 };
    assert_eq!(report_first_frame(&frame), format!("{head}OKAY arg0=1 arg1=2 payload_len=0"));
    assert_eq!(
        report_first_frame(&FirstFrame::Closed),
        format!("{head}<reader channel closed>")
    );
    assert_eq!(report_first_frame(&FirstFrame::TimedOut), format!("{head}<none within 5s>"));
    assert_eq!(
        report_first_frame(&FirstFrame::Unwatched),
        format!("{head}<observer task failed>")
    );
    assert_eq!(
        shell_report(&ShellRun::Ran(s("a\n"), Some(3))),
        Ok(s("--- output ---\na\n--- exit code: 3 ---\n"))
    );
    assert_eq!(
        shell_report(&ShellRun::Ran(s("a"), None)),
        Ok(s("--- output ---\na\n--- exit code: <none (v1 path)> ---\n"))
    );
    assert_eq!(
        shell_report(&ShellRun::Refused(s("r"))),
        Err(s("shell command failed: r"))
    );
    assert_eq!(shell_report(&ShellRun::Broken(s("b"))), Err(s("b")));
}

#[test]
fn calls_on_a_device_have_the_remote_end_first() {
    assert_eq!(
        handle_local_commands(LocalDeviceCommand::Forward(ForwardCommand::Add {
            local: s("tcp:1"),
            remote: s("tcp:2"),
        })),
        LocalCall::Forward(s("tcp:2"), s("tcp:1"))
    );
    assert_eq!(
        handle_local_commands(LocalDeviceCommand::Reverse(ReverseCommand::Add {
            remote: s("tcp:2"),
            local: s("tcp:1"),
        })),
        LocalCall::Reverse(s("tcp:2"), s("tcp:1"))
    );
    assert_eq!(
        handle_local_commands(LocalDeviceCommand::Forward(ForwardCommand::Remove {
            local: s("tcp:1"),
        })),
        LocalCall::ForwardRemove(s("tcp:1"))
    );
    assert_eq!(
        handle_local_commands(LocalDeviceCommand::Reverse(ReverseCommand::RemoveAll)),
        LocalCall::ReverseRemoveAll
    );
    assert_eq!(
        handle_local_commands(LocalDeviceCommand::Logcat { path: Some(s("f")) }),
        LocalCall::Logs(Some(s("f")))
    );
    assert_eq!(
        handle_local_commands(LocalDeviceCommand::HostFeatures),
        LocalCall::HostFeatures
    );
}

#[test]
fn servers_on_this_machine_are_started() {
    assert!(is_own_server([127, 0, 0, 1]));
    assert!(is_own_server([127, 9, 9, 9]));
    assert!(is_own_server([0, 0, 0, 0]));
    assert!(!is_own_server([0, 0, 0, 1]));
    assert!(!is_own_server([192, 168, 0, 1]));
}

#[test]
fn a_transport_id_comes_before_a_serial() {
    assert_eq!(choose_proxy_device(Some(3), &Some(s("d"))), ProxyChoice::TransportId(3));
    assert_eq!(choose_proxy_device(None, &Some(s("d"))), ProxyChoice::Serial(s("d")));
    assert_eq!(choose_proxy_device(None, &None), ProxyChoice::Autodetect);
}

#[test]
fn a_command_through_a_server_is_planned() {
    let command = ProxyCommand {
        ip: [127, 0, 0, 1],
        port: 5037,
        serial: Some(s("d")),
        transport_id: None,
        command: (),
    };
    assert_eq!(
        command.plan(),
        ProxyPlan { start_server: true, device: ProxyChoice::Serial(s("d")) }
    );
}

#[test]
fn requests_to_a_server_are_reported() {
    assert_eq!(
        announce_host_command(&HostCommand::Devices { long: true }),
        Some(s("List of devices attached (extended)"))
    );
    assert_eq!(
        announce_host_command(&HostCommand::Devices { long: false }),
        Some(s("List of devices attached"))
    );
    assert_eq!(
        announce_host_command(&HostCommand::TrackDevices),
        Some(s("Live list of devices attached"))
    );
    assert_eq!(
        announce_host_command(&HostCommand::WaitForDevice { transport: WaitTransport::Usb }),
        Some(s("waiting for device to be connected..."))
    );
    assert_eq!(
        announce_host_command(&HostCommand::MdnsServices),
        Some(s("List of discovered mdns services"))
    );
    assert_eq!(announce_host_command(&HostCommand::MdnsCheck), None);
    assert_eq!(announce_host_command(&HostCommand::Kill), None);
    assert_eq!(
        handle_host_commands(&HostCommand::Version, &vec![HostReply::Text(s("41"))]),
        [log("Android Debug Bridge version 41"), log("Package version 3.2.2-rust")]
    );
    assert_eq!(
        handle_host_commands(
            &HostCommand::Devices { long: false },
            &vec![HostReply::List(vec![s("a"), s("b")])]
        ),
        [log("a"), log("b")]
    );
    assert_eq!(
        handle_host_commands(
            &HostCommand::Pair { address: s("h:1"), code: s("123456") },
            &vec![HostReply::Done]
        ),
        [log("Paired device h:1")]
    );
    assert_eq!(
        handle_host_commands(&HostCommand::Connect { address: s("h:1") }, &vec![HostReply::Done]),
        [log("Connected to h:1")]
    );
    assert_eq!(
        handle_host_commands(&HostCommand::Disconnect { address: s("h:1") }, &vec![HostReply::Done]),
        [log("Disconnected h:1")]
    );
    let mdns = |check, mdns_backend| {
        let status = HostReply::Status { text: s("up"), mdns_backend };
        handle_host_commands(&HostCommand::MdnsCheck, &vec![HostReply::Check(check), status])
    };
    assert_eq!(mdns(true, MdnsBackend::Unknown), [log("unknown mdns backend...")]);
    assert_eq!(mdns(true, MdnsBackend::Bonjour), [log("mdns daemon version [Bonjour]")]);
    assert_eq!(mdns(false, MdnsBackend::Bonjour), [log("ERROR: mdns daemon unavailable")]);
    assert_eq!(
        mdns(false, MdnsBackend::OpenScreen),
        [log("mdns daemon version [Openscreen discovery 0.0.0]")]
    );
    assert_eq!(
        handle_host_commands(&HostCommand::MdnsServices, &vec![HostReply::List(vec![s("x")])]),
        [log("x")]
    );
    let status = HostReply::Status { text: s("up"), mdns_backend: MdnsBackend::Unknown };
    assert_eq!(handle_host_commands(&HostCommand::ServerStatus, &vec![status]), [log("up")]);
    assert_eq!(
        handle_host_commands(&HostCommand::TrackDevices, &vec![HostReply::Text(s("d device"))]),
        [log("d device")]
    );
    assert!(handle_host_commands(&HostCommand::Kill, &vec![HostReply::Done]).is_empty());
    assert!(handle_host_commands(&HostCommand::Kill, &vec![]).is_empty());
    assert_eq!(
        host_features_line(&vec![s("a"), s("b")]),
        "Available host features: a,b"
    );
    assert_eq!(host_features_line(&vec![]), "Available host features: ");
}

#[test]
fn requests_to_a_device_are_reported() {
    assert_eq!(shell_mode(&vec![]), ShellMode::Interactive);
    assert_eq!(shell_mode(&vec![s("ls"), s("-l")]), ShellMode::Command(s("ls -l")));
    assert_eq!(
        announce_device_command(&DeviceCommand::Reboot { mode: s("System") }),
        Some(s("Reboots device in mode System"))
    );
    assert_eq!(
        announce_device_command(&DeviceCommand::Install { path: s("a.apk"), user: None }),
        Some(s("Starting installation of APK a.apk..."))
    );
    assert_eq!(
        announce_device_command(&DeviceCommand::Uninstall { package: s("p"), user: None }),
        Some(s("Uninstalling the package p..."))
    );
    assert_eq!(announce_device_command(&DeviceCommand::Root), None);
    assert_eq!(
        run_command(
            &DeviceCommand::Pull { source: s("/a"), destination: s("b") },
            &DeviceReply::Done
        ),
        [log("Downloaded /a as b")]
    );
    assert_eq!(
        run_command(&DeviceCommand::Push { filename: s("b"), path: s("/a") }, &DeviceReply::Done),
        [log("Uploaded b to /a")]
    );
    assert_eq!(
        run_command(&DeviceCommand::Stat { path: s("/") }, &DeviceReply::Text(s("st"))),
        [print("st")]
    );
    assert_eq!(
        run_command(&DeviceCommand::StatExtended { path: s("/") }, &DeviceReply::Missing),
        [print("No such file or directory")]
    );
    assert_eq!(
        run_command(&DeviceCommand::Root, &DeviceReply::Done),
        [log("Restarted adbd as root")]
    );
    assert_eq!(
        run_command(&DeviceCommand::Framebuffer { path: s("f") }, &DeviceReply::Done),
        [log("Successfully dumped framebuffer at path f")]
    );
    assert_eq!(
        run_command(&DeviceCommand::List { path: s("/") }, &DeviceReply::List(vec![s("x")])),
        [log("x")]
    );
    assert!(run_command(&DeviceCommand::Shell { commands: vec![] }, &DeviceReply::Done).is_empty());
}

#[test]
fn requests_to_an_emulator_are_reported() {
    assert_eq!(
        handle_emulator_commands(&EmuCommand::Sms { phone_number: s("123"), content: s("hi") }, ""),
        [log("SMS sent to 123")]
    );
    assert!(handle_emulator_commands(&EmuCommand::Rotate, "").is_empty());
    assert_eq!(
        handle_emulator_commands(&EmuCommand::AvdDiscoveryPath, "/p"),
        [log("AVD discovery path: /p"), print("/p")]
    );
    assert_eq!(
        handle_emulator_commands(&EmuCommand::AvdGrpcPort, "8554"),
        [log("gRPC port: 8554"), print("8554")]
    );
    let raw = EmuCommand::Raw { command: s("ping") };
    assert_eq!(handle_emulator_commands(&raw, "ok"), [print("ok")]);
    assert_eq!(
        mdns_device_line("n", "{}", "{}"),
        "Found device fullname='n' with ipv4 addresses={} and ipv6 addresses={}"
    );
}

#[test]
fn versions_and_filters() {
    assert_eq!(long_version(), "3.2.2");
    assert_eq!(version_line(), "adboost_cli 3.2.2");
    assert_eq!(default_log_filter(true), "debug");
    assert_eq!(default_log_filter(false), "info");
}

#[test]
fn requests_to_a_server_are_called_with_what_was_given() {
    let one = |command: HostCommand, call: HostCall| assert_eq!(host_calls(&command), [call]);
    one(HostCommand::Version, HostCall::Version);
    one(HostCommand::Kill, HostCall::Kill);
    one(HostCommand::Devices { long: false }, HostCall::Devices);
    one(HostCommand::Devices { long: true }, HostCall::DevicesLong);
    one(HostCommand::TrackDevices, HostCall::TrackDevices);
    one(
        HostCommand::Pair { address: s("h:1"), code: s("123456") },
        HostCall::Pair(s("h:1"), s("123456")),
    );
    one(HostCommand::Connect { address: s("h:1") }, HostCall::Connect(s("h:1")));
    one(HostCommand::Disconnect { address: s("h:1") }, HostCall::Disconnect(s("h:1")));
    one(HostCommand::MdnsServices, HostCall::MdnsServices);
    one(HostCommand::ServerStatus, HostCall::ServerStatus);
    for transport in [WaitTransport::Any, WaitTransport::Usb, WaitTransport::Local] {
        one(HostCommand::WaitForDevice { transport }, HostCall::WaitForDevice(transport));
    }
    assert_eq!(
        host_calls(&HostCommand::MdnsCheck),
        [HostCall::MdnsCheck, HostCall::ServerStatus]
    );
}

#[test]
fn requests_to_a_device_are_called_with_what_was_given() {
    let one = |command: DeviceCommand, call: DeviceCall| assert_eq!(device_call(&command), call);
    one(DeviceCommand::Shell { commands: vec![] }, DeviceCall::Interact);
    one(DeviceCommand::Shell { commands: vec![s("ls"), s("/")] }, DeviceCall::Shell(s("ls /")));
    one(
        DeviceCommand::Pull { source: s("/a"), destination: s("b") },
        DeviceCall::Pull(s("/a"), s("b")),
    );
    one(
        DeviceCommand::Push { filename: s("b"), path: s("/a") },
        DeviceCall::Push(s("b"), s("/a")),
    );
    one(DeviceCommand::Stat { path: s("/") }, DeviceCall::Stat(s("/")));
    one(DeviceCommand::StatExtended { path: s("/") }, DeviceCall::StatExtended(s("/")));
    one(DeviceCommand::Reboot { mode: s("Recovery") }, DeviceCall::Reboot(s("Recovery")));
    one(DeviceCommand::Root, DeviceCall::Root);
    one(
        DeviceCommand::Run { package: s("p"), activity: s("a") },
        DeviceCall::RunActivity(s("p"), s("a")),
    );
    one(
        DeviceCommand::Install { path: s("a.apk"), user: Some(s("10")) },
        DeviceCall::Install(s("a.apk"), Some(s("10"))),
    );
    one(
        DeviceCommand::Uninstall { package: s("p"), user: None },
        DeviceCall::Uninstall(s("p"), None),
    );
    one(DeviceCommand::Framebuffer { path: s("f") }, DeviceCall::Framebuffer(s("f")));
    one(DeviceCommand::List { path: s("/") }, DeviceCall::List(s("/")));
}

#[test]
fn requests_to_an_emulator_are_called_with_what_was_given() {
    assert_eq!(
        emulator_call(&EmuCommand::Sms { phone_number: s("123"), content: s("hi") }),
        EmuCall::SendSms(s("123"), s("hi"))
    );
    assert_eq!(emulator_call(&EmuCommand::Rotate), EmuCall::Rotate);
    assert_eq!(emulator_call(&EmuCommand::AvdDiscoveryPath), EmuCall::AvdDiscoveryPath);
    assert_eq!(emulator_call(&EmuCommand::AvdGrpcPort), EmuCall::AvdGrpcPort);
    assert_eq!(
        emulator_call(&EmuCommand::Raw { command: s("ping") }),
        EmuCall::SendRawCommand(s("ping"))
    );
}

#[test]
fn frames_of_the_setup_are_not_those_of_a_session() {
    for command in ["OKAY", "CLSE", "WRTE"] {
        assert!(is_session_frame(command));
    }
    for command in ["CNXN", "AUTH", "STLS", "OPEN", "okay", ""] {
        assert!(!is_session_frame(command));
    }
}
