//! The exerciser of a long-lived USB connection: what it asks for, what it reports.
use vstd::prelude::*;

use crate::cli::hex::{hex_string, hex_text};
use crate::cli::usb::{usb_choice, UsbChoice, UsbDevice};
use crate::models::DeviceFeatureSet;
use crate::number::{decimal, decimal_string};
use crate::text::{concat, concat3, join_strings, joined, opt_text, result_text, str_eq, texts};

verus! {

/// The command line of the exerciser.
#[derive(Debug, PartialEq, Eq)]
pub struct PersistentCommand {
    /// The number of the device's vendor.
    pub vendor_id: Option<u16>,
    /// The number that the vendor gave the device.
    pub product_id: Option<u16>,
    /// The private key to use.
    pub path_to_private_key: Option<String>,
    /// Whether to do without windowed writes.
    pub no_delayed_ack: bool,
    /// What to run.
    pub command: Option<PersistentSubcommand>,
}

/// What the exerciser runs.
#[derive(Debug, PartialEq, Eq)]
pub enum PersistentSubcommand {
    /// A shell command, in words.
    Shell { commands: Vec<String> },
}

/// The features to ask for.
pub open spec fn wanted_features(no_delayed_ack: bool) -> DeviceFeatureSet {
    DeviceFeatureSet { shell_v2: true, stat_v2: true, delayed_ack: !no_delayed_ack }
}

/// The shell command to run: the words with blanks between them, or `getprop` where
/// there are none.
pub open spec fn wanted_shell(command: Option<PersistentSubcommand>) -> Seq<char> {
    match command {
        Some(PersistentSubcommand::Shell { commands }) if commands@.len() > 0 => joined(
            texts(commands@),
            " "@,
        ),
        _ => "getprop"@,
    }
}

/// What the exerciser is to do.
#[derive(Debug, PartialEq, Eq)]
pub struct PersistentPlan {
    /// The device to use.
    pub device: UsbChoice,
    /// The features to ask for.
    pub features: DeviceFeatureSet,
    /// The shell command to run.
    pub shell: String,
}

/// What the exerciser is to do, or why it does nothing: the device, the features and the
/// shell command.
pub open spec fn exercise(command: PersistentCommand) -> Result<
    (UsbChoice, DeviceFeatureSet, Seq<char>),
    Seq<char>,
> {
    match usb_choice(command.vendor_id, command.product_id) {
        Some(c) => Ok(
            (c, wanted_features(command.no_delayed_ack), wanted_shell(command.command)),
        ),
        None => Err("cannot specify --vendor-id without --product-id or vice versa"@),
    }
}

/// The contents of a plan.
pub open spec fn exercise_view(r: Result<PersistentPlan, String>) -> Result<
    (UsbChoice, DeviceFeatureSet, Seq<char>),
    Seq<char>,
> {
    match r {
        Ok(plan) => Ok((plan.device, plan.features, plan.shell@)),
        Err(e) => Err(e@),
    }
}

/// Plans a run of the exerciser.
pub fn handle_persistent_command(command: &PersistentCommand) -> (r: Result<
    PersistentPlan,
    String,
>)
    ensures
        exercise_view(r) == exercise(*command),
{
    let device = match (command.vendor_id, command.product_id) {
        (Some(v), Some(p)) => UsbChoice::Ids(v, p),
        (None, None) => UsbChoice::Autodetect,
        _ => {
            return Err(
                "cannot specify --vendor-id without --product-id or vice versa".to_owned(),
            );
        },
    };
    let features = DeviceFeatureSet {
        shell_v2: true,
        stat_v2: true,
        delayed_ack: !command.no_delayed_ack,
    };
    let shell = match &command.command {
        Some(PersistentSubcommand::Shell { commands }) => if commands.len() > 0 {
            join_strings(commands, " ")
        } else {
            "getprop".to_owned()
        },
        None => "getprop".to_owned(),
    };
    Ok(PersistentPlan { device, features, shell })
}

/// The device that a choice leads to, with a line for the log where it was found.
pub open spec fn device_found(choice: UsbChoice, devices: Seq<UsbDevice>) -> Result<
    (u16, u16, Option<Seq<char>>),
    Seq<char>,
> {
    match choice {
        UsbChoice::Ids(v, p) => Ok((v, p, None)),
        UsbChoice::Autodetect => if devices.len() > 0 {
            let d = devices[0]@;
            Ok(
                (
                    d.vendor_id,
                    d.product_id,
                    Some(
                        "autodetected USB device "@ + hex_text(d.vendor_id) + ":"@ + hex_text(
                            d.product_id,
                        ) + " ("@ + d.description + ")"@,
                    ),
                ),
            )
        } else {
            Err("no connected ADB USB device found to autodetect"@)
        },
    }
}

/// The contents of what a choice led to.
pub open spec fn device_found_view(r: Result<(u16, u16, Option<String>), String>) -> Result<
    (u16, u16, Option<Seq<char>>),
    Seq<char>,
> {
    match r {
        Ok((v, p, line)) => Ok((v, p, opt_text(line))),
        Err(e) => Err(e@),
    }
}

/// The device that a choice leads to: the one that is asked for, or the first that was
/// found, with a line for the log.
pub fn resolve_device(choice: UsbChoice, devices: &Vec<UsbDevice>) -> (r: Result<
    (u16, u16, Option<String>),
    String,
>)
    ensures
        device_found_view(r) == device_found(choice, devices@),
{
    match choice {
        UsbChoice::Ids(v, p) => Ok((v, p, None)),
        UsbChoice::Autodetect => {
            if devices.len() == 0 {
                return Err("no connected ADB USB device found to autodetect".to_owned());
            }
            let d = &devices[0];
            let mut line = concat3(
                "autodetected USB device ",
                hex_string(d.vendor_id).as_str(),
                ":",
            );
            line.append(hex_string(d.product_id).as_str());
            line.append(" (");
            line.append(d.description.as_str());
            line.append(")");
            Ok((d.vendor_id, d.product_id, Some(line)))
        },
    }
}

/// How the connection is asked to write.
pub open spec fn mode_text(features: DeviceFeatureSet) -> Seq<char> {
    if features.delayed_ack {
        "windowed (delayed_ack)"@
    } else {
        "classic (--no-delayed-ack)"@
    }
}

/// How the connection is asked to write.
pub fn mode_label(features: &DeviceFeatureSet) -> (r: &'static str)
    ensures
        r@ == mode_text(*features),
{
    if features.delayed_ack {
        "windowed (delayed_ack)"
    } else {
        "classic (--no-delayed-ack)"
    }
}

/// The lines before the connection is made.
pub open spec fn intro_texts(
    vendor_id: u16,
    product_id: u16,
    features: DeviceFeatureSet,
    banner: Seq<char>,
) -> Seq<Seq<char>> {
    seq![
        "=== adboost persistent exerciser ==="@,
        "device:           "@ + hex_text(vendor_id) + ":"@ + hex_text(product_id),
        "requested mode:   "@ + mode_text(features),
        "advertised banner (to device): "@ + banner,
    ]
}

/// The lines before the connection is made.
pub fn intro_lines(
    vendor_id: u16,
    product_id: u16,
    features: &DeviceFeatureSet,
    banner: &str,
) -> (r: Vec<String>)
    ensures
        texts(r@) == intro_texts(vendor_id, product_id, *features, banner@),
{
    let mut r: Vec<String> = Vec::new();
    r.push("=== adboost persistent exerciser ===".to_owned());
    let mut device = concat3("device:           ", hex_string(vendor_id).as_str(), ":");
    device.append(hex_string(product_id).as_str());
    r.push(device);
    r.push(concat("requested mode:   ", mode_label(features)));
    r.push(concat("advertised banner (to device): ", banner));
    assert(texts(r@) =~= intro_texts(vendor_id, product_id, *features, banner@));
    r
}

/// `true` or `false`.
pub open spec fn bool_text(b: bool) -> Seq<char> {
    if b {
        "true"@
    } else {
        "false"@
    }
}

/// `true` or `false`.
fn bool_str(b: bool) -> (r: &'static str)
    ensures
        r@ == bool_text(b),
{
    if b {
        "true"
    } else {
        "false"
    }
}

/// The features by name.
pub open spec fn features_text(f: DeviceFeatureSet) -> Seq<char> {
    "DeviceFeatureSet { shell_v2: "@ + bool_text(f.shell_v2) + ", stat_v2: "@ + bool_text(
        f.stat_v2,
    ) + ", delayed_ack: "@ + bool_text(f.delayed_ack) + " }"@
}

/// The lines after the connection is made, on what came of the negotiation.
pub open spec fn negotiation_texts(negotiated: DeviceFeatureSet) -> Seq<Seq<char>> {
    seq![
        "--- negotiation self-check ---"@,
        "connection feature set: "@ + features_text(negotiated),
        "delayed_ack negotiated: "@ + (if negotiated.delayed_ack {
            "true (windowed)"@
        } else {
            "false (classic stop-and-wait)"@
        }),
    ]
}

/// The lines after the connection is made, on what came of the negotiation.
pub fn negotiation_lines(negotiated: &DeviceFeatureSet) -> (r: Vec<String>)
    ensures
        texts(r@) == negotiation_texts(*negotiated),
{
    let mut r: Vec<String> = Vec::new();
    r.push("--- negotiation self-check ---".to_owned());
    let mut set = concat3(
        "DeviceFeatureSet { shell_v2: ",
        bool_str(negotiated.shell_v2),
        ", stat_v2: ",
    );
    set.append(bool_str(negotiated.stat_v2));
    set.append(", delayed_ack: ");
    set.append(bool_str(negotiated.delayed_ack));
    set.append(" }");
    r.push(concat("connection feature set: ", set.as_str()));
    r.push(
        concat(
            "delayed_ack negotiated: ",
            if negotiated.delayed_ack {
                "true (windowed)"
            } else {
                "false (classic stop-and-wait)"
            },
        ),
    );
    assert(texts(r@) =~= negotiation_texts(*negotiated));
    r
}

/// The line before the command is run.
pub open spec fn running_text(shell: Seq<char>) -> Seq<char> {
    "--- running: shell "@ + shell + " ---"@
}

/// The line before the command is run.
pub fn running_line(shell: &str) -> (r: String)
    ensures
        r@ == running_text(shell@),
{
    concat3("--- running: shell ", shell, " ---")
}

/// How long the first frame is waited for, in milliseconds.
pub const FIRST_FRAME_TIMEOUT_MS: u64 = 5000;

/// Whether a frame with this command belongs to a session.
pub open spec fn session_frame(command: Seq<char>) -> bool {
    command == "OKAY"@ || command == "CLSE"@ || command == "WRTE"@
}

/// Whether a frame with this command belongs to a session. Those with which a
/// connection is set up do not, and one of them that comes late is not the first frame
/// of a session.
pub fn is_session_frame(command: &str) -> (r: bool)
    ensures
        r == session_frame(command@),
{
    str_eq(command, "OKAY") || str_eq(command, "CLSE") || str_eq(command, "WRTE")
}

/// The first frame that came after a session was asked for.
#[derive(Debug, PartialEq, Eq)]
pub enum FirstFrame {
    /// This one came.
    Frame { command: String, arg0: u32, arg1: u32, length: u32 },
    /// None will come.
    Closed,
    /// None came in time.
    TimedOut,
    /// It could not be watched for.
    Unwatched,
}

/// What is said of a first frame.
pub open spec fn first_frame_text(f: FirstFrame) -> Seq<char> {
    "first session frame after OPEN (OKAY=accepted / CLSE=rejected): "@ + (match f {
        FirstFrame::Frame { command, arg0, arg1, length } => command@ + " arg0="@ + decimal(
            arg0 as nat,
        ) + " arg1="@ + decimal(arg1 as nat) + " payload_len="@ + decimal(length as nat),
        FirstFrame::Closed => "<reader channel closed>"@,
        FirstFrame::TimedOut => "<none within 5s>"@,
        FirstFrame::Unwatched => "<observer task failed>"@,
    })
}

/// What is said of a first frame.
pub fn report_first_frame(f: &FirstFrame) -> (r: String)
    ensures
        r@ == first_frame_text(*f),
{
    let what = match f {
        FirstFrame::Frame { command, arg0, arg1, length } => {
            let mut t = concat3(
                command.as_str(),
                " arg0=",
                decimal_string(*arg0 as u64).as_str(),
            );
            t.append(" arg1=");
            t.append(decimal_string(*arg1 as u64).as_str());
            t.append(" payload_len=");
            t.append(decimal_string(*length as u64).as_str());
            t
        },
        FirstFrame::Closed => "<reader channel closed>".to_owned(),
        FirstFrame::TimedOut => "<none within 5s>".to_owned(),
        FirstFrame::Unwatched => "<observer task failed>".to_owned(),
    };
    concat("first session frame after OPEN (OKAY=accepted / CLSE=rejected): ", what.as_str())
}

/// What came of the command.
#[derive(Debug, PartialEq, Eq)]
pub enum ShellRun {
    /// It ran, with this output, and this exit code where the connection tells it.
    Ran(String, Option<u8>),
    /// The device refused it.
    Refused(String),
    /// The connection failed.
    Broken(String),
}

/// What is printed when a command ran: its output, with a line break at the end, and
/// its exit code.
pub open spec fn run_text(output: Seq<char>, exit_code: Option<u8>) -> Seq<char> {
    "--- output ---\n"@ + output + (if output.len() > 0 && output.last() == '\n' {
        ""@
    } else {
        "\n"@
    }) + "--- exit code: "@ + (match exit_code {
        Some(c) => decimal(c as nat),
        None => "<none (v1 path)>"@,
    }) + " ---\n"@
}

/// What to print of a command, or the error to end with.
pub open spec fn run_told(run: ShellRun) -> Result<Seq<char>, Seq<char>> {
    match run {
        ShellRun::Ran(output, code) => Ok(run_text(output@, code)),
        ShellRun::Refused(reason) => Err("shell command failed: "@ + reason@),
        ShellRun::Broken(error) => Err(error@),
    }
}

/// What to print of a command, or the error to end with.
pub fn shell_report(run: &ShellRun) -> (r: Result<String, String>)
    ensures
        result_text(r) == run_told(*run),
{
    match run {
        ShellRun::Ran(output, code) => {
            let mut t = concat("--- output ---\n", output.as_str());
            let n = output.as_str().unicode_len();
            let ended = n > 0 && output.as_str().get_char(n - 1) == '\n';
            t.append(
                if ended {
                    ""
                } else {
                    "\n"
                },
            );
            t.append("--- exit code: ");
            match code {
                Some(c) => t.append(decimal_string(*c as u64).as_str()),
                None => t.append("<none (v1 path)>"),
            }
            t.append(" ---\n");
            Ok(t)
        },
        ShellRun::Refused(reason) => Err(concat("shell command failed: ", reason.as_str())),
        ShellRun::Broken(error) => Err(error.clone()),
    }
}

/// The output of a command ends with a line break before its exit code is printed, so
/// that the exit code stands on a line of its own.
pub proof fn exit_code_has_its_own_line(output: Seq<char>, exit_code: Option<u8>)
    ensures
        exists|head: Seq<char>|
            head.len() > 0 && head.last() == '\n' && #[trigger] (head + "--- exit code: "@) + (
            match exit_code {
                Some(c) => decimal(c as nat),
                None => "<none (v1 path)>"@,
            }) + " ---\n"@ == run_text(output, exit_code),
{
    reveal_strlit("\n");
    reveal_strlit("");
    reveal_strlit("--- output ---\n");
    let tail = if output.len() > 0 && output.last() == '\n' {
        ""@
    } else {
        "\n"@
    };
    let head = "--- output ---\n"@ + output + tail;
    let code = match exit_code {
        Some(c) => decimal(c as nat),
        None => "<none (v1 path)>"@,
    };
    assert((head + "--- exit code: "@) + code + " ---\n"@ == run_text(output, exit_code));
}

} // verus!
