//! Choosing a device: by kind, by serial or by transport id.
use vstd::prelude::*;

use crate::number::{parse_unsigned, parsed_unsigned};
use crate::order::{sorted_set, sorted_set_is_no_longer, sorted_set_is_the_set};
use crate::protocol::{
    fail, fail_reply, okay, okay_tport, okay_tport_reply, okay_word, serial_at_id, transport_id,
    transport_id_for, transport_id_for_index, transport_ids_invert,
};
use crate::server::backend::{
    collect_serials, device_views, serials_of, transport_alive, DeviceEntry, DeviceView,
    TransportKind,
};
use crate::text::{after_prefix, has_prefix, opt_text, str_eq, strip_prefix};

verus! {

/// The kind that a token asks for; no kind in particular for any other token.
pub open spec fn parsed_kind(token: Seq<char>) -> Option<TransportKind> {
    if token == "usb"@ {
        Some(TransportKind::Usb)
    } else if token == "local"@ {
        Some(TransportKind::Local)
    } else {
        None
    }
}

/// The kind that a token asks for: `usb` or `local`; any other token, such as
/// `any`, asks for no kind in particular.
pub fn parse_transport_kind(token: &str) -> (r: Option<TransportKind>)
    ensures
        r == parsed_kind(token@),
{
    if str_eq(token, "usb") {
        Some(TransportKind::Usb)
    } else if str_eq(token, "local") {
        Some(TransportKind::Local)
    } else {
        None
    }
}

/// A device of kind `entry_kind` satisfies a request for `want`. An unknown kind on
/// either side fits everything.
pub open spec fn kinds_fit(
    want: Option<TransportKind>,
    entry_kind: Option<TransportKind>,
) -> bool {
    want is None || entry_kind is None || want == entry_kind
}

/// Whether a device of kind `entry_kind` satisfies a request for `want`.
pub fn kind_matches(want: Option<TransportKind>, entry_kind: Option<TransportKind>) -> (r: bool)
    ensures
        r == kinds_fit(want, entry_kind),
{
    match (want, entry_kind) {
        (None, _) => true,
        (_, None) => true,
        (Some(w), Some(e)) => w == e,
    }
}

/// The wording for no matching device.
pub open spec fn no_devices_text(want: Option<TransportKind>) -> Seq<char> {
    match want {
        None => "no devices/emulators found"@,
        Some(TransportKind::Usb) => "no devices found"@,
        Some(TransportKind::Local) => "no emulators found"@,
    }
}

/// The wording for more than one matching device.
pub open spec fn ambiguous_text(want: Option<TransportKind>) -> Seq<char> {
    match want {
        None => "more than one device/emulator"@,
        Some(TransportKind::Usb) => "more than one USB device"@,
        Some(TransportKind::Local) => "more than one emulator"@,
    }
}

/// The wording for no matching device. Clients print it as it is.
pub fn no_devices_msg(want: Option<TransportKind>) -> (r: &'static str)
    ensures
        r@ == no_devices_text(want),
{
    match want {
        None => "no devices/emulators found",
        Some(TransportKind::Usb) => "no devices found",
        Some(TransportKind::Local) => "no emulators found",
    }
}

/// The wording for more than one matching device. Clients print it as it is.
pub fn ambiguous_msg(want: Option<TransportKind>) -> (r: &'static str)
    ensures
        r@ == ambiguous_text(want),
{
    match want {
        None => "more than one device/emulator",
        Some(TransportKind::Usb) => "more than one USB device",
        Some(TransportKind::Local) => "more than one emulator",
    }
}

/// The devices that satisfy a request for `want`, in their order.
pub open spec fn matching(
    devices: Seq<DeviceView>,
    want: Option<TransportKind>,
) -> Seq<DeviceView> {
    devices.filter(|d: DeviceView| kinds_fit(want, d.kind))
}

/// The one device that satisfies a request for `want`, or the wording for none or
/// for several.
pub open spec fn single_by_kind(
    devices: Seq<DeviceView>,
    want: Option<TransportKind>,
) -> Result<DeviceView, Seq<char>> {
    let m = matching(devices, want);
    if m.len() == 0 {
        Err(no_devices_text(want))
    } else if m.len() == 1 {
        Ok(m[0])
    } else {
        Err(ambiguous_text(want))
    }
}

/// The one device that satisfies a request for `want`, or the wording for none or
/// for several.
pub fn pick_single_by_kind<'a>(
    devices: &'a Vec<DeviceEntry>,
    want: Option<TransportKind>,
) -> (r: Result<&'a DeviceEntry, &'static str>)
    ensures
        match r {
            Ok(d) => devices@.contains(*d) && single_by_kind(device_views(devices@), want) == Ok::<
                DeviceView,
                Seq<char>,
            >(d@),
            Err(reason) => single_by_kind(device_views(devices@), want) == Err::<
                DeviceView,
                Seq<char>,
            >(reason@),
        },
{
    let ghost all = device_views(devices@);
    let ghost fits = |d: DeviceView| kinds_fit(want, d.kind);
    let mut first: Option<usize> = None;
    let mut i: usize = 0;
    proof {
        reveal(Seq::filter);
        assert(all.take(0).filter(fits) =~= Seq::empty());
    }
    while i < devices.len()
        invariant
            i <= devices.len(),
            all == device_views(devices@),
            fits == (|d: DeviceView| kinds_fit(want, d.kind)),
            match first {
                None => all.take(i as int).filter(fits).len() == 0,
                Some(k) => k < i && all.take(i as int).filter(fits) == seq![all[k as int]],
            },
        decreases devices.len() - i,
    {
        proof {
            reveal(Seq::filter);
            assert(all.take(i + 1).drop_last() =~= all.take(i as int));
            assert(all.take(i + 1).last() == all[i as int]);
        }
        if kind_matches(want, devices[i].kind) {
            if first.is_some() {
                proof {
                    more_matches(all, fits, i + 1);
                }
                return Err(ambiguous_msg(want));
            }
            first = Some(i);
            assert(all.take(i + 1).filter(fits) =~= seq![all[i as int]]);
        }
        i += 1;
    }
    assert(all.take(all.len() as int) =~= all);
    match first {
        None => Err(no_devices_msg(want)),
        Some(k) => Ok(&devices[k]),
    }
}

/// More of a list has no fewer matches.
proof fn more_matches(all: Seq<DeviceView>, fits: spec_fn(DeviceView) -> bool, k: int)
    requires
        0 <= k <= all.len(),
    ensures
        all.take(k).filter(fits).len() <= all.filter(fits).len(),
    decreases all.len() - k,
{
    if k < all.len() {
        more_matches(all, fits, k + 1);
        reveal(Seq::filter);
        assert(all.take(k + 1).drop_last() =~= all.take(k));
    } else {
        assert(all.take(k) =~= all);
    }
}

/// How a request names a device.
#[derive(Debug, PartialEq, Eq)]
pub enum Selector {
    /// The one device of a kind, or of any kind.
    Kind(Option<TransportKind>),
    /// The device with this serial.
    Serial(String),
    /// The device with this transport id.
    Id(u64),
    /// A transport id that is not a number.
    BadId,
}

/// The contents of a [`Selector`].
pub enum SelectorView {
    Kind(Option<TransportKind>),
    Serial(Seq<char>),
    Id(u64),
    BadId,
}

impl View for Selector {
    type V = SelectorView;

    open spec fn view(&self) -> SelectorView {
        match self {
            Selector::Kind(k) => SelectorView::Kind(*k),
            Selector::Serial(s) => SelectorView::Serial(s@),
            Selector::Id(id) => SelectorView::Id(*id),
            Selector::BadId => SelectorView::BadId,
        }
    }
}

/// A transport id as a selector.
pub open spec fn id_selector(id: Seq<char>) -> SelectorView {
    match parsed_unsigned(id, u64::MAX as nat) {
        Some(n) => SelectorView::Id(n as u64),
        None => SelectorView::BadId,
    }
}

/// The selector at the end of a `tport:` request.
pub open spec fn tport_selector(rest: Seq<char>) -> SelectorView {
    if rest.len() == 0 || rest == "any"@ || rest == "-any"@ {
        SelectorView::Kind(None)
    } else if has_prefix(rest, "id:"@) {
        id_selector(after_prefix(rest, "id:"@))
    } else if has_prefix(rest, "-id:"@) {
        id_selector(after_prefix(rest, "-id:"@))
    } else if parsed_kind(rest) is Some {
        SelectorView::Kind(parsed_kind(rest))
    } else if has_prefix(rest, "serial:"@) {
        SelectorView::Serial(after_prefix(rest, "serial:"@))
    } else {
        SelectorView::Serial(rest)
    }
}

/// A transport id as a selector.
pub fn parse_id_selector(id: &str) -> (r: Selector)
    ensures
        r@ == id_selector(id@),
{
    match parse_unsigned(id, u64::MAX) {
        Some(n) => Selector::Id(n),
        None => Selector::BadId,
    }
}

/// The selector at the end of a `tport:` request: nothing or `any` for the one
/// device, `id:<N>`, a bare kind, `serial:<serial>` or a bare serial.
pub fn parse_tport_selector(rest: &str) -> (r: Selector)
    ensures
        r@ == tport_selector(rest@),
{
    if rest.is_empty() || str_eq(rest, "any") || str_eq(rest, "-any") {
        return Selector::Kind(None);
    }
    if let Some(id) = strip_prefix(rest, "id:") {
        return parse_id_selector(id);
    }
    if let Some(id) = strip_prefix(rest, "-id:") {
        return parse_id_selector(id);
    }
    if let Some(kind) = parse_transport_kind(rest) {
        return Selector::Kind(Some(kind));
    }
    match strip_prefix(rest, "serial:") {
        Some(serial) => Selector::Serial(serial.to_owned()),
        None => Selector::Serial(rest.to_owned()),
    }
}

/// The serial of the device that a selector names, or the reason why there is none.
pub open spec fn resolved(
    selector: SelectorView,
    devices: Seq<DeviceView>,
) -> Result<Seq<char>, Seq<char>> {
    match selector {
        SelectorView::Kind(want) => match single_by_kind(devices, want) {
            Ok(d) => Ok(d.serial),
            Err(reason) => Err(reason),
        },
        SelectorView::Serial(s) => if serials_of(devices).contains(s) {
            Ok(s)
        } else {
            Err("device not found"@)
        },
        SelectorView::Id(id) => match serial_at_id(id as nat, serials_of(devices)) {
            Some(s) => Ok(s),
            None => Err("no device for transport id"@),
        },
        SelectorView::BadId => Err("invalid transport id"@),
    }
}

/// The serial of the device that a selector names, or the reason why there is none.
pub fn resolve(selector: &Selector, devices: &Vec<DeviceEntry>) -> (r: Result<
    String,
    &'static str,
>)
    ensures
        match r {
            Ok(s) => resolved(selector@, device_views(devices@)) == Ok::<Seq<char>, Seq<char>>(s@),
            Err(reason) => resolved(selector@, device_views(devices@)) == Err::<
                Seq<char>,
                Seq<char>,
            >(reason@),
        },
{
    match selector {
        Selector::Kind(want) => match pick_single_by_kind(devices, *want) {
            Ok(d) => Ok(d.serial.clone()),
            Err(reason) => Err(reason),
        },
        Selector::Serial(s) => if transport_alive(devices, s.as_str()) {
            Ok(s.clone())
        } else {
            Err("device not found")
        },
        Selector::Id(id) => {
            let serials = collect_serials(devices);
            match transport_id_for_index(*id, &serials) {
                Some(s) => Ok(s),
                None => Err("no device for transport id"),
            }
        },
        Selector::BadId => Err("invalid transport id"),
    }
}

/// A choice of transport: the reply, and the device for the next request on the
/// connection if one was chosen.
#[derive(Debug, PartialEq, Eq)]
pub struct Selection {
    /// The chosen device.
    pub serial: Option<String>,
    /// What the client is told.
    pub reply: Vec<u8>,
}

/// The contents of a [`Selection`].
pub struct SelectionView {
    pub serial: Option<Seq<char>>,
    pub reply: Seq<u8>,
}

impl View for Selection {
    type V = SelectionView;

    open spec fn view(&self) -> SelectionView {
        SelectionView { serial: opt_text(self.serial), reply: self.reply@ }
    }
}

/// The outcome of a `transport` request: a bare `OKAY`, or the reason why not.
pub open spec fn transport_selection(
    selector: SelectorView,
    devices: Seq<DeviceView>,
) -> SelectionView {
    match resolved(selector, devices) {
        Ok(s) => SelectionView { serial: Some(s), reply: okay_word() },
        Err(reason) => SelectionView { serial: None, reply: fail_reply(reason) },
    }
}

/// The outcome of a `tport` request: `OKAY` and the transport id, or the reason why
/// not.
pub open spec fn tport_selection(
    selector: SelectorView,
    devices: Seq<DeviceView>,
) -> SelectionView {
    match resolved(selector, devices) {
        Ok(s) => SelectionView {
            serial: Some(s),
            reply: okay_tport_reply(
                match transport_id(s, serials_of(devices)) {
                    Some(id) => id as u64,
                    None => 0,
                },
            ),
        },
        Err(reason) => SelectionView { serial: None, reply: fail_reply(reason) },
    }
}

/// Answers a `transport` request.
pub fn select_transport(selector: &Selector, devices: &Vec<DeviceEntry>) -> (r: Selection)
    ensures
        r@ == transport_selection(selector@, device_views(devices@)),
{
    match resolve(selector, devices) {
        Ok(s) => Selection { serial: Some(s), reply: okay() },
        Err(reason) => Selection { serial: None, reply: fail(reason) },
    }
}

/// Answers a `tport` request.
pub fn select_tport(selector: &Selector, devices: &Vec<DeviceEntry>) -> (r: Selection)
    ensures
        r@ == tport_selection(selector@, device_views(devices@)),
{
    match resolve(selector, devices) {
        Ok(s) => {
            let serials = collect_serials(devices);
            let id: u64 = match transport_id_for(s.as_str(), &serials) {
                Some(id) => id,
                None => 0,
            };
            Selection { serial: Some(s), reply: okay_tport(id) }
        },
        Err(reason) => Selection { serial: None, reply: fail(reason) },
    }
}

/// A device of unknown kind satisfies every request, and a request for no kind is
/// satisfied by every device.
pub proof fn unknown_kinds_fit_everything(
    want: Option<TransportKind>,
    entry_kind: Option<TransportKind>,
)
    ensures
        kinds_fit(None, entry_kind),
        kinds_fit(want, None),
        want is Some && entry_kind is Some ==> (kinds_fit(want, entry_kind) <==> want
            == entry_kind),
{
}

/// Whatever a selector leads to is a listed device.
pub proof fn resolved_is_listed(selector: SelectorView, devices: Seq<DeviceView>)
    ensures
        resolved(selector, devices) matches Ok(s) ==> serials_of(devices).contains(s),
{
    match selector {
        SelectorView::Kind(want) => {
            let m = matching(devices, want);
            if m.len() == 1 {
                devices.lemma_filter_contains_rev(
                    |d: DeviceView| kinds_fit(want, d.kind),
                    m[0],
                );
                let i = choose|i: int| 0 <= i < devices.len() && devices[i] == m[0];
                assert(serials_of(devices)[i] == m[0].serial);
            }
        },
        SelectorView::Id(id) => {
            let t = sorted_set(serials_of(devices));
            sorted_set_is_the_set(serials_of(devices));
            if 1 <= id <= t.len() {
                assert(t.contains(t[id - 1]));
            }
        },
        _ => {},
    }
}

/// Both ways to select a device choose the same device for the same selector, and
/// both refuse it with the same words.
pub proof fn selections_agree(selector: SelectorView, devices: Seq<DeviceView>)
    ensures
        transport_selection(selector, devices).serial == tport_selection(selector, devices).serial,
        transport_selection(selector, devices).serial is None ==> transport_selection(
            selector,
            devices,
        ).reply == tport_selection(selector, devices).reply,
{
}

/// The id in a `tport` reply leads back to the chosen device.
pub proof fn tport_id_leads_back(selector: SelectorView, devices: Seq<DeviceView>)
    requires
        devices.len() < u64::MAX,
    ensures
        tport_selection(selector, devices).serial matches Some(s) ==> exists|id: u64|
            #[trigger] okay_tport_reply(id) == tport_selection(selector, devices).reply && resolved(
                SelectorView::Id(id),
                devices,
            ) == Ok::<Seq<char>, Seq<char>>(s),
{
    if let Some(s) = tport_selection(selector, devices).serial {
        resolved_is_listed(selector, devices);
        let serials = serials_of(devices);
        let id = transport_id(s, serials)->0;
        sorted_set_is_no_longer(serials);
        sorted_set_is_the_set(serials);
        assert(sorted_set(serials).contains(s));
        transport_ids_invert(s, id, serials);
        assert(okay_tport_reply(id as u64) == tport_selection(selector, devices).reply);
    }
}

/// With a single device listed, selecting any device chooses it; with none or with
/// several, the wordings tell the two apart.
pub proof fn any_means_the_only_one(devices: Seq<DeviceView>)
    ensures
        devices.len() == 0 ==> resolved(SelectorView::Kind(None), devices) == Err::<
            Seq<char>,
            Seq<char>,
        >("no devices/emulators found"@),
        devices.len() == 1 ==> resolved(SelectorView::Kind(None), devices) == Ok::<
            Seq<char>,
            Seq<char>,
        >(devices[0].serial),
        devices.len() > 1 ==> resolved(SelectorView::Kind(None), devices) == Err::<
            Seq<char>,
            Seq<char>,
        >("more than one device/emulator"@),
{
    any_matches_all(devices);
}

/// Without a kind to match, every device matches.
proof fn any_matches_all(devices: Seq<DeviceView>)
    ensures
        matching(devices, None) == devices,
    decreases devices.len(),
{
    reveal(Seq::filter);
    if devices.len() > 0 {
        any_matches_all(devices.drop_last());
        assert(matching(devices, None) =~= devices);
    } else {
        assert(matching(devices, None) =~= devices);
    }
}

} // verus!
