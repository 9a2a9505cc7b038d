//! The commands on USB devices: the list of devices, and which device to use.
use std::io::Write;

use tabwriter::{Alignment, TabWriter};
use vstd::prelude::*;

use crate::cli::hex::{hex_string, hex_text};
use crate::number::{decimal, decimal_string};
use crate::text::{concat, opt_text};

verus! {

/// A USB device that was found.
#[derive(Debug, PartialEq, Eq)]
pub struct UsbDevice {
    /// The number of its vendor.
    pub vendor_id: u16,
    /// The number that the vendor gave it.
    pub product_id: u16,
    /// Its serial.
    pub serial: Option<String>,
    /// What it is.
    pub description: String,
}

/// The contents of a [`UsbDevice`].
pub struct UsbView {
    pub vendor_id: u16,
    pub product_id: u16,
    pub serial: Option<Seq<char>>,
    pub description: Seq<char>,
}

impl View for UsbDevice {
    type V = UsbView;

    open spec fn view(&self) -> UsbView {
        UsbView {
            vendor_id: self.vendor_id,
            product_id: self.product_id,
            serial: opt_text(self.serial),
            description: self.description@,
        }
    }
}

/// Whether an interface is the one that debugging goes over.
pub open spec fn adb_interface(class: u8, subclass: u8, protocol: u8) -> bool {
    class == 0xff && subclass == 0x42 && protocol == 0x01
}

/// Whether an interface of a USB device, by its class, subclass and protocol, is the
/// one that debugging goes over.
pub fn is_adb_interface(class: u8, subclass: u8, protocol: u8) -> (r: bool)
    ensures
        r == adb_interface(class, subclass, protocol),
{
    class == 0xff && subclass == 0x42 && protocol == 0x01
}

/// What centring the columns of a text gives, where tabs stand between the columns.
pub uninterp spec fn centred(text: Seq<char>) -> Seq<u8>;

/// `tabwriter::TabWriter` with `Alignment::Center`, on a text that is written and
/// flushed at once: what it puts out depends on the text alone.
#[verifier::external_body]
fn centre_columns(text: &str) -> (r: Vec<u8>)
    ensures
        r@ == centred(text@),
{
    let mut writer = TabWriter::new(Vec::new()).alignment(Alignment::Center);
    let _ = writer.write_all(text.as_bytes());
    match writer.into_inner() {
        Ok(bytes) => bytes,
        Err(_) => Vec::new(),
    }
}

/// The lines above the list.
pub open spec fn table_head() -> Seq<char> {
    "Index\tVendor ID\tProduct ID\tSerial\tDevice Description\n"@
        + "-----\t---------\t----------\t------\t----------------\n"@
}

/// The line of the device that is `index` in the list.
pub open spec fn table_row(index: nat, device: UsbView) -> Seq<char> {
    "#"@ + decimal(index) + "\t"@ + hex_text(device.vendor_id) + "\t"@ + hex_text(
        device.product_id,
    ) + "\t"@ + (match device.serial {
        Some(s) => s,
        None => "-"@,
    }) + "\t"@ + device.description + "\n"@
}

/// The list: the head, and a line for each device.
pub open spec fn table_of(devices: Seq<UsbDevice>) -> Seq<char>
    decreases devices.len(),
{
    if devices.len() == 0 {
        table_head()
    } else {
        table_of(devices.drop_last()) + table_row((devices.len() - 1) as nat, devices.last()@)
    }
}

/// The line of the device that is `index` in the list.
fn device_row(index: u64, device: &UsbDevice) -> (r: String)
    ensures
        r@ == table_row(index as nat, device@),
{
    let mut r = concat("#", decimal_string(index).as_str());
    r.append("\t");
    r.append(hex_string(device.vendor_id).as_str());
    r.append("\t");
    r.append(hex_string(device.product_id).as_str());
    r.append("\t");
    match &device.serial {
        Some(s) => r.append(s.as_str()),
        None => r.append("-"),
    }
    r.append("\t");
    r.append(device.description.as_str());
    r.append("\n");
    r
}

/// The list of the devices, with tabs between the columns.
pub fn device_table(devices: &Vec<UsbDevice>) -> (r: String)
    ensures
        r@ == table_of(devices@),
{
    let mut r = concat(
        "Index\tVendor ID\tProduct ID\tSerial\tDevice Description\n",
        "-----\t---------\t----------\t------\t----------------\n",
    );
    let mut i: usize = 0;
    assert(devices@.take(0) =~= Seq::empty());
    while i < devices.len()
        invariant
            i <= devices@.len(),
            r@ == table_of(devices@.take(i as int)),
        decreases devices@.len() - i,
    {
        r.append(device_row(i as u64, &devices[i]).as_str());
        assert(devices@.take(i + 1).drop_last() =~= devices@.take(i as int));
        i += 1;
    }
    assert(devices@.take(i as int) =~= devices@);
    r
}

/// The list of the devices, as it is printed.
pub open spec fn printed_table(devices: Seq<UsbDevice>) -> Seq<u8> {
    centred(table_of(devices))
}

/// The list of the devices, as it is printed.
pub fn list_usb_devices(devices: &Vec<UsbDevice>) -> (r: Vec<u8>)
    ensures
        r@ == printed_table(devices@),
{
    let table = device_table(devices);
    centre_columns(table.as_str())
}

/// Which device to use.
#[derive(Clone, Copy, Debug, PartialEq, Eq, Structural)]
pub enum UsbChoice {
    /// The one with these numbers.
    Ids(u16, u16),
    /// The one that is found.
    Autodetect,
}

/// The device that the flags ask for: both numbers, or none of them.
pub open spec fn usb_choice(vendor_id: Option<u16>, product_id: Option<u16>) -> Option<UsbChoice> {
    match (vendor_id, product_id) {
        (Some(v), Some(p)) => Some(UsbChoice::Ids(v, p)),
        (None, None) => Some(UsbChoice::Autodetect),
        _ => None,
    }
}

/// What a command on USB devices does.
#[derive(Clone, Copy, Debug, PartialEq, Eq, Structural)]
pub enum UsbPlan {
    /// It lists the devices.
    List,
    /// It opens this one.
    Open(UsbChoice),
}

/// What a command on USB devices does, or why it does nothing.
pub open spec fn usb_plan(
    list_devices: bool,
    vendor_id: Option<u16>,
    product_id: Option<u16>,
) -> Result<UsbPlan, Seq<char>> {
    if list_devices {
        Ok(UsbPlan::List)
    } else {
        match usb_choice(vendor_id, product_id) {
            Some(c) => Ok(UsbPlan::Open(c)),
            None => Err("cannot specify flags --vendor-id without --product-id or vice versa"@),
        }
    }
}

/// The contents of a plan.
pub open spec fn usb_plan_view(r: Result<UsbPlan, String>) -> Result<UsbPlan, Seq<char>> {
    match r {
        Ok(p) => Ok(p),
        Err(e) => Err(e@),
    }
}

/// Plans a command on USB devices.
pub fn handle_usb_command(
    list_devices: bool,
    vendor_id: Option<u16>,
    product_id: Option<u16>,
) -> (r: Result<UsbPlan, String>)
    ensures
        usb_plan_view(r) == usb_plan(list_devices, vendor_id, product_id),
{
    if list_devices {
        return Ok(UsbPlan::List);
    }
    match (vendor_id, product_id) {
        (Some(v), Some(p)) => Ok(UsbPlan::Open(UsbChoice::Ids(v, p))),
        (None, None) => Ok(UsbPlan::Open(UsbChoice::Autodetect)),
        _ => Err(
            "cannot specify flags --vendor-id without --product-id or vice versa".to_owned(),
        ),
    }
}

/// What is to be done on a device that was opened, if anything was asked for.
pub fn required_command<T>(command: Option<T>) -> (r: Result<T, String>)
    ensures
        match command {
            Some(c) => r == Ok::<T, String>(c),
            None => r matches Err(e) && e@ == "no command specified"@,
        },
{
    match command {
        Some(c) => Ok(c),
        None => Err("no command specified".to_owned()),
    }
}

} // verus!
