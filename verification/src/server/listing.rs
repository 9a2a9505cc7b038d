//! Device listings: one-shot and streamed.
use vstd::prelude::*;

use crate::number::{decimal, decimal_string};
use crate::protocol::{
    encode_framed, framed_text, okay_data_reply, okay_word, transport_id, transport_id_for,
};
use crate::server::backend::{
    collect_serials, device_views, serials_of, DeviceEntry, DeviceState, DeviceView,
};
use crate::text::{join_strings, joined, opt_text, texts};

verus! {

/// `label` and the value, if there is one.
pub open spec fn labelled(label: Seq<char>, value: Option<Seq<char>>) -> Seq<char> {
    match value {
        Some(v) => label + v,
        None => Seq::empty(),
    }
}

/// The short line of a device: serial, tab, state.
pub open spec fn short_line(d: DeviceView) -> Seq<char> {
    d.serial + "\t"@ + d.state.wire()
}

/// The long line of a device: the short line, what is known of the device, and its
/// transport id.
pub open spec fn long_line(d: DeviceView, serials: Seq<Seq<char>>) -> Seq<char> {
    short_line(d) + labelled(" product:"@, d.product) + labelled(" model:"@, d.model) + labelled(
        " device:"@,
        d.device,
    ) + labelled(
        " transport_id:"@,
        match transport_id(d.serial, serials) {
            Some(id) => Some(decimal(id)),
            None => None,
        },
    )
}

/// The lines of a listing.
pub open spec fn device_lines(devices: Seq<DeviceView>, long: bool) -> Seq<Seq<char>> {
    devices.map_values(
        |d: DeviceView|
            if long {
                long_line(d, serials_of(devices))
            } else {
                short_line(d)
            },
    )
}

/// A listing: the lines with line breaks between them.
pub open spec fn device_listing(devices: Seq<DeviceView>, long: bool) -> Seq<char> {
    joined(device_lines(devices, long), "\n"@)
}

/// Appends `label` and the value, if there is one.
fn append_labelled(line: &mut String, label: &str, value: &Option<String>)
    ensures
        final(line)@ == old(line)@ + labelled(label@, opt_text(*value)),
{
    match value {
        Some(v) => {
            line.append(label);
            line.append(v.as_str());
        },
        None => {},
    }
    assert(line@ =~= old(line)@ + labelled(label@, opt_text(*value)));
}

/// The line of one device.
fn format_device(d: &DeviceEntry, serials: &Vec<String>, long: bool) -> (line: String)
    ensures
        line@ == (if long {
            long_line(d@, texts(serials@))
        } else {
            short_line(d@)
        }),
{
    let mut line = d.serial.clone();
    line.append("\t");
    line.append(d.state.as_wire());
    if long {
        append_labelled(&mut line, " product:", &d.product);
        append_labelled(&mut line, " model:", &d.model);
        append_labelled(&mut line, " device:", &d.device);
        let id: Option<String> = match transport_id_for(d.serial.as_str(), serials) {
            Some(id) => Some(decimal_string(id)),
            None => None,
        };
        append_labelled(&mut line, " transport_id:", &id);
    }
    line
}

/// A device list as clients read it, short or long.
pub fn format_devices(devices: &Vec<DeviceEntry>, long: bool) -> (r: String)
    ensures
        r@ == device_listing(device_views(devices@), long),
{
    let serials = collect_serials(devices);
    let ghost all = device_lines(device_views(devices@), long);
    let mut lines: Vec<String> = Vec::new();
    let mut i: usize = 0;
    while i < devices.len()
        invariant
            i <= devices.len(),
            all == device_lines(device_views(devices@), long),
            texts(serials@) == serials_of(device_views(devices@)),
            texts(lines@) == all.take(i as int),
        decreases devices.len() - i,
    {
        let ghost before = lines@;
        let line = format_device(&devices[i], &serials, long);
        lines.push(line);
        proof {
            assert(device_views(devices@)[i as int] == devices@[i as int]@);
            assert(line@ == all[i as int]);
            assert(texts(lines@) =~= texts(before).push(all[i as int]));
            assert(all.take(i + 1) =~= all.take(i as int).push(all[i as int]));
        }
        i += 1;
    }
    assert(all.take(devices.len() as int) =~= all);
    join_strings(&lines, "\n")
}

/// One snapshot of a device stream, or `None` if it is too long to be announced
/// and has to be left out.
pub fn track_frame(devices: &Vec<DeviceEntry>, long: bool) -> (r: Option<Vec<u8>>)
    ensures
        match r {
            Some(f) => framed_text(device_listing(device_views(devices@), long)) == Some(f@),
            None => framed_text(device_listing(device_views(devices@), long)) is None,
        },
{
    let listing = format_devices(devices, long);
    encode_framed(listing.as_str())
}

/// A streamed snapshot carries the same bytes as the one-shot reply for the same
/// devices and format; the reply only has its `OKAY` in front.
pub proof fn snapshot_equals_reply(devices: Seq<DeviceView>, long: bool)
    ensures
        ({
            let listing = device_listing(devices, long);
            match framed_text(listing) {
                Some(frame) => okay_data_reply(listing) == Some(okay_word() + frame),
                None => okay_data_reply(listing) is None,
            }
        }),
{
}

/// A long line begins with the short line of the same device.
pub proof fn long_line_extends_short(d: DeviceView, serials: Seq<Seq<char>>)
    ensures
        short_line(d).is_prefix_of(long_line(d, serials)),
{
    assert(long_line(d, serials).subrange(0, short_line(d).len() as int) =~= short_line(d));
}

/// Every device in a long listing has its transport id there: the id that selects
/// the device.
pub proof fn long_line_ends_in_transport_id(devices: Seq<DeviceView>, i: int)
    requires
        0 <= i < devices.len(),
    ensures
        transport_id(devices[i].serial, serials_of(devices)) matches Some(id)
            && device_lines(devices, true)[i] == short_line(devices[i]) + labelled(
            " product:"@,
            devices[i].product,
        ) + labelled(" model:"@, devices[i].model) + labelled(" device:"@, devices[i].device)
            + " transport_id:"@ + decimal(id),
{
    assert(serials_of(devices)[i] == devices[i].serial);
    let id = transport_id(devices[i].serial, serials_of(devices))->0;
    assert(device_lines(devices, true)[i] =~= short_line(devices[i]) + labelled(
        " product:"@,
        devices[i].product,
    ) + labelled(" model:"@, devices[i].model) + labelled(" device:"@, devices[i].device)
        + " transport_id:"@ + decimal(id));
}

/// No devices, no text.
pub proof fn empty_listing(long: bool)
    ensures
        device_listing(Seq::empty(), long) == Seq::<char>::empty(),
{
    assert(device_lines(Seq::empty(), long) =~= Seq::empty());
}

/// The short line of every device: its serial, a tab, and its state in words.
pub proof fn short_lines_tell_serial_and_state(devices: Seq<DeviceView>, i: int)
    requires
        0 <= i < devices.len(),
    ensures
        device_lines(devices, false).len() == devices.len(),
        device_lines(devices, false)[i] == devices[i].serial + "\t"@ + (match devices[i].state {
            DeviceState::Device => "device"@,
            DeviceState::Offline => "offline"@,
            DeviceState::Unauthorized => "unauthorized"@,
        }),
{
}

/// The long line of every device: the short line, then product, model and device name as
/// far as they are known, and last the transport id, with which the device is selected.
pub proof fn long_lines_tell_what_is_known(devices: Seq<DeviceView>, i: int)
    requires
        0 <= i < devices.len(),
    ensures
        device_lines(devices, true).len() == devices.len(),
        transport_id(devices[i].serial, serials_of(devices)) matches Some(id)
            && device_lines(devices, true)[i] == device_lines(devices, false)[i] + (
        match devices[i].product {
            Some(p) => " product:"@ + p,
            None => Seq::empty(),
        }) + (match devices[i].model {
            Some(m) => " model:"@ + m,
            None => Seq::empty(),
        }) + (match devices[i].device {
            Some(d) => " device:"@ + d,
            None => Seq::empty(),
        }) + (" transport_id:"@ + decimal(id)),
{
    assert(serials_of(devices)[i] == devices[i].serial);
}

/// A listing has the lines of its devices in their order, with a line break between each
/// two: the short listing of one device more is that listing, a line break and a line.
pub proof fn listings_are_made_of_lines(devices: Seq<DeviceView>, d: DeviceView)
    ensures
        device_listing(devices.push(d), false) == (if devices.len() == 0 {
            d.serial + "\t"@ + d.state.wire()
        } else {
            device_listing(devices, false) + "\n"@ + (d.serial + "\t"@ + d.state.wire())
        }),
{
    let more = device_lines(devices.push(d), false);
    assert(more.drop_last() =~= device_lines(devices, false));
    assert(more.last() == d.serial + "\t"@ + d.state.wire());
    if devices.len() == 0 {
        assert(more.len() == 1);
    }
}

/// So are long listings, line by line.
pub proof fn listings_join_their_lines(devices: Seq<DeviceView>, long: bool)
    ensures
        devices.len() == 0 ==> device_listing(devices, long) == Seq::<char>::empty(),
        devices.len() == 1 ==> device_listing(devices, long) == device_lines(devices, long)[0],
        devices.len() == 2 ==> device_listing(devices, long) == device_lines(devices, long)[0]
            + "\n"@ + device_lines(devices, long)[1],
        devices.len() > 1 ==> device_listing(devices, long) == joined(
            device_lines(devices, long).drop_last(),
            "\n"@,
        ) + "\n"@ + device_lines(devices, long).last(),
{
    reveal_with_fuel(joined, 2);
}

} // verus!
