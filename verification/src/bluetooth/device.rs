use vstd::prelude::*;
use crate::address::{alias_is_address, names_an_address, BtAddress};
use crate::bluetooth::message::{message_views, Message, MessageView, ResponseAppearance, ToastPriority};
use crate::bluetooth_state::{unknown_device, unknown_device_text, BluetoothState};

verus! {

// ---------------------------------------------------------------------------
// Connecting and disconnecting
// ---------------------------------------------------------------------------

/// One step of switching a device's connection.
#[derive(Clone, Copy, Debug, PartialEq, Eq, Structural)]
pub enum DeviceStep {
    Disconnect,
    Pair,
    /// A short pause (200 ms) that lets a fresh pairing settle.
    Settle,
    FirstConnect,
    SecondConnect,
}

/// The steps that switch a device: a connected device is disconnected; an
/// unpaired one is paired, given a moment, and connected (twice); a paired
/// one is connected (twice).
pub open spec fn activation_plan(connected: bool, paired: bool) -> Seq<DeviceStep> {
    if connected {
        seq![DeviceStep::Disconnect]
    } else if !paired {
        seq![DeviceStep::Pair, DeviceStep::Settle, DeviceStep::FirstConnect, DeviceStep::SecondConnect]
    } else {
        seq![DeviceStep::FirstConnect, DeviceStep::SecondConnect]
    }
}

/// The steps that switch a device's connection (`paired` only matters for a
/// disconnected device).
pub fn activation_steps(connected: bool, paired: bool) -> (r: Vec<DeviceStep>)
    ensures
        r@ == activation_plan(connected, paired),
{
    let mut steps: Vec<DeviceStep> = Vec::new();
    if connected {
        steps.push(DeviceStep::Disconnect);
    } else {
        if !paired {
            steps.push(DeviceStep::Pair);
            steps.push(DeviceStep::Settle);
        }
        steps.push(DeviceStep::FirstConnect);
        steps.push(DeviceStep::SecondConnect);
    }
    proof {
        assert(steps@ =~= activation_plan(connected, paired));
    }
    steps
}

/// The name a failure of a Bluetooth call step is reported under (the pause
/// cannot fail).
pub open spec fn step_name(step: DeviceStep) -> Seq<char> {
    match step {
        DeviceStep::Disconnect => "disconnect"@,
        DeviceStep::Pair => "pair"@,
        DeviceStep::FirstConnect => "connect-1"@,
        DeviceStep::SecondConnect => "connect-2"@,
        DeviceStep::Settle => Seq::empty(),
    }
}

/// The error text of a failed step: `<step> failed: <message>`.
pub fn step_failure(step: DeviceStep, message: &str) -> (r: String)
    requires
        step != DeviceStep::Settle,
    ensures
        r@ == step_name(step) + " failed: "@ + message@,
{
    let mut text = match step {
        DeviceStep::Disconnect => "disconnect".to_string(),
        DeviceStep::Pair => "pair".to_string(),
        DeviceStep::FirstConnect => "connect-1".to_string(),
        _ => "connect-2".to_string(),
    };
    text.append(" failed: ");
    text.append(message);
    text
}

/// The report of a failed device action: its error text as a high
/// priority toast.
pub fn failure_toast(message: String) -> (r: Message)
    ensures
        r@ == MessageView::PopupError(message@, ToastPriority::High),
{
    Message::PopupError(message, ToastPriority::High)
}

/// The message that starts the spinner of the device being switched.
pub fn activation_started(address: BtAddress) -> (r: Message)
    ensures
        r@ == MessageView::SwitchActiveSpinner(true, address),
{
    Message::SwitchActiveSpinner(true, address)
}

/// What is reported once the switching is over: the spinner stops; then the
/// connection state read back and a new sort, or, after a failure, the
/// switch turned off.
pub open spec fn activation_report(address: BtAddress, outcome: Option<bool>) -> Seq<MessageView> {
    match outcome {
        Some(connected) => seq![
            MessageView::SwitchActiveSpinner(false, address),
            MessageView::SwitchActive(connected, address, true),
            MessageView::InvalidateSort,
        ],
        None => seq![
            MessageView::SwitchActiveSpinner(false, address),
            MessageView::SwitchActive(false, address, true),
        ],
    }
}

/// The messages once switching is over; `outcome` is the connection state
/// read back, or `None` when a step failed.
pub fn activation_finished(address: BtAddress, outcome: Option<bool>) -> (r: Vec<Message>)
    ensures
        message_views(r@) == activation_report(address, outcome),
{
    let mut r: Vec<Message> = Vec::new();
    r.push(Message::SwitchActiveSpinner(false, address));
    match outcome {
        Some(connected) => {
            r.push(Message::SwitchActive(connected, address, true));
            r.push(Message::InvalidateSort());
        },
        None => {
            r.push(Message::SwitchActive(false, address, true));
        },
    }
    proof {
        assert(message_views(r@) =~= activation_report(address, outcome));
    }
    r
}

// ---------------------------------------------------------------------------
// Removing a device
// ---------------------------------------------------------------------------

/// The question asked before a device is removed.
pub open spec fn removal_question(alias: Seq<char>) -> MessageView {
    MessageView::RequestYesNo(
        "Remove Device?"@,
        "Are you sure you want to remove <span font_weight='bold' color='#78aeed'>`"@ + alias
            + "`</span>?"@,
        "Remove"@,
        ResponseAppearance::Suggested,
    )
}

/// Asks whether the device of this alias should be removed.
pub fn removal_prompt(alias: &str) -> (r: Message)
    ensures
        r@ == removal_question(alias@),
{
    let mut subtitle = "Are you sure you want to remove <span font_weight='bold' color='#78aeed'>`".to_string();
    subtitle.append(alias);
    subtitle.append("`</span>?");
    Message::RequestYesNo(
        "Remove Device?".to_string(),
        subtitle,
        "Remove".to_string(),
        ResponseAppearance::Suggested,
    )
}

/// After the adapter removed a device: its name is forgotten, and its row is
/// taken out of the list (by `name`, the alias read back) before the
/// empty-list picture is updated.
pub fn device_removed_by_user(state: &mut BluetoothState, name: String, address: BtAddress) -> (r:
    Vec<Message>)
    ensures
        final(state).device_names() == old(state).device_names().remove(address.value),
        final(state).devices is Some == old(state).devices is Some,
        final(state).adapters == old(state).adapters,
        message_views(r@) == seq![MessageView::RemoveDevice(name@, address), MessageView::UpdateListBoxImage],
{
    let _ = state.forget_device(address);
    let ghost n = name@;
    let mut r: Vec<Message> = Vec::new();
    r.push(Message::RemoveDevice(name, address));
    r.push(Message::UpdateListBoxImage());
    proof {
        assert(message_views(r@) =~= seq![MessageView::RemoveDevice(n, address), MessageView::UpdateListBoxImage]);
    }
    r
}

// ---------------------------------------------------------------------------
// Listing devices
// ---------------------------------------------------------------------------

/// What is read from a device when it shows up; each read may fail (`None`).
pub struct DeviceProbe {
    pub paired: Option<bool>,
    pub alias: Option<String>,
    pub connected: Option<bool>,
}

/// The name of a probed device: its alias, or `Unknown Device` when the
/// alias could not be read.
pub open spec fn probed_name(alias: Option<Seq<char>>) -> Seq<char> {
    match alias {
        Some(a) => a,
        None => unknown_device_text(),
    }
}

/// The alias of a probe, as plain text.
pub open spec fn probe_alias(probe: DeviceProbe) -> Option<Seq<char>> {
    match probe.alias {
        Some(a) => Some(a@),
        None => None,
    }
}

/// Adds a paired device to the paired list: its name (or `Unknown Device`)
/// and whether it is connected (unreadable counts as not connected).
pub fn paired_row(address: BtAddress, alias: Option<String>, connected: Option<bool>) -> (r: Message)
    ensures
        r@ == MessageView::AddPairedRow(
            probed_name(
                match alias {
                    Some(a) => Some(a@),
                    None => None,
                },
            ),
            address,
            match connected {
                Some(c) => c,
                None => false,
            },
        ),
{
    let name = match alias {
        Some(a) => a,
        None => unknown_device(),
    };
    let c = match connected {
        Some(c) => c,
        None => false,
    };
    Message::AddPairedRow(name, address, c)
}

/// The paired-devices listing at start-up: a device the adapter knows is
/// listed when it reads as paired.
pub fn paired_listing(address: BtAddress, paired: Option<bool>, alias: Option<String>, connected:
    Option<bool>) -> (r: Option<Message>)
    ensures
        paired == Some(true) ==> r is Some && r->0@ == MessageView::AddPairedRow(
            probed_name(
                match alias {
                    Some(a) => Some(a@),
                    None => None,
                },
            ),
            address,
            match connected {
                Some(c) => c,
                None => false,
            },
        ),
        paired != Some(true) ==> r is None,
{
    match paired {
        Some(true) => Some(paired_row(address, alias, connected)),
        _ => None,
    }
}

/// During a search, a device that shows up is looked at only while the
/// adapter is powered and when it has no row yet.
pub fn device_added_needs_probe(state: &BluetoothState, address: BtAddress, powered: bool) -> (r:
    bool)
    ensures
        r == (powered && !state.device_names().contains_key(address.value)),
{
    powered && !state.knows_device(address)
}

/// How the window hears of a device that showed up: a paired one goes to
/// the paired list; an unpaired one gets a row unless its name only spells
/// an address; one whose pairing state cannot be read gets a row.
pub open spec fn added_device_report(address: BtAddress, probe: DeviceProbe) -> Seq<MessageView> {
    let name = probed_name(probe_alias(probe));
    let listed = match probe.paired {
        Some(true) => seq![
            MessageView::AddPairedRow(
                name,
                address,
                match probe.connected {
                    Some(c) => c,
                    None => false,
                },
            ),
        ],
        Some(false) => if names_an_address(name) {
            Seq::empty()
        } else {
            seq![MessageView::AddRow(address)]
        },
        None => seq![MessageView::AddRow(address)],
    };
    listed.push(MessageView::UpdateListBoxImage)
}

/// The messages for a device that showed up during a search and could be
/// looked at (its events are then followed too).
pub fn device_added(address: BtAddress, probe: DeviceProbe) -> (r: Vec<Message>)
    ensures
        message_views(r@) == added_device_report(address, probe),
{
    let ghost p = probe;
    let mut r: Vec<Message> = Vec::new();
    match probe.paired {
        Some(true) => {
            r.push(paired_row(address, probe.alias, probe.connected));
        },
        Some(false) => {
            let name = match probe.alias {
                Some(a) => a,
                None => unknown_device(),
            };
            if !alias_is_address(name.as_str()) {
                r.push(Message::AddRow(address));
            }
        },
        None => {
            r.push(Message::AddRow(address));
        },
    }
    r.push(Message::UpdateListBoxImage());
    proof {
        assert(message_views(r@) =~= added_device_report(address, p));
    }
    r
}

/// A device left during a search: while the adapter is powered its name is
/// forgotten and its row (found by that name, empty if it had none) removed.
pub fn device_gone(state: &mut BluetoothState, address: BtAddress, powered: bool) -> (r: Vec<Message>)
    ensures
        powered ==> final(state).device_names() == old(state).device_names().remove(address.value),
        !powered ==> *final(state) == *old(state),
        final(state).devices is Some == old(state).devices is Some,
        final(state).adapters == old(state).adapters,
        message_views(r@) == (if powered {
            seq![
                MessageView::RemoveDevice(
                    if old(state).device_names().contains_key(address.value) {
                        old(state).device_names()[address.value]
                    } else {
                        Seq::<char>::empty()
                    },
                    address,
                ),
                MessageView::UpdateListBoxImage,
            ]
        } else {
            Seq::<MessageView>::empty()
        }),
{
    let mut r: Vec<Message> = Vec::new();
    if powered {
        let name = match state.forget_device(address) {
            Some(n) => n,
            None => String::new(),
        };
        let ghost n = name@;
        r.push(Message::RemoveDevice(name, address));
        r.push(Message::UpdateListBoxImage());
        proof {
            assert(message_views(r@) =~= seq![
                MessageView::RemoveDevice(n, address),
                MessageView::UpdateListBoxImage,
            ]);
        }
    } else {
        proof {
            assert(message_views(r@) =~= Seq::<MessageView>::empty());
        }
    }
    r
}

/// A change of the adapter seen during a search.
#[derive(Clone, Copy, Debug, PartialEq, Eq, Structural)]
pub enum AdapterChange {
    Powered(bool),
    Discoverable(bool),
    Other,
}

/// The switches follow the adapter's power and discoverability; other
/// changes are not shown.
pub fn adapter_changed(change: AdapterChange) -> (r: Vec<Message>)
    ensures
        message_views(r@) == (match change {
            AdapterChange::Powered(p) => seq![MessageView::SwitchAdapterPowered(p)],
            AdapterChange::Discoverable(d) => seq![MessageView::SwitchAdapterDiscoverable(d)],
            AdapterChange::Other => Seq::<MessageView>::empty(),
        }),
{
    let mut r: Vec<Message> = Vec::new();
    match change {
        AdapterChange::Powered(p) => r.push(Message::SwitchAdapterPowered(p)),
        AdapterChange::Discoverable(d) => r.push(Message::SwitchAdapterDiscoverable(d)),
        AdapterChange::Other => {},
    }
    proof {
        assert(message_views(r@) =~= (match change {
            AdapterChange::Powered(p) => seq![MessageView::SwitchAdapterPowered(p)],
            AdapterChange::Discoverable(d) => seq![MessageView::SwitchAdapterDiscoverable(d)],
            AdapterChange::Other => Seq::<MessageView>::empty(),
        }));
    }
    r
}

/// A change of a followed device seen during a search.
pub enum DeviceChange {
    Connected(bool),
    AliasChanged,
    Rssi(i16),
    /// The device became paired; what could be read of it then, if it could
    /// be looked at.
    PairedNow(Option<(Option<String>, Option<bool>)>),
    Other,
}

/// How the window hears of a change of a followed device: its connection
/// state (marked current when it is the selected device), a reset or new
/// signal strength (then a new sort), or, when it became paired, a paired
/// row replacing its ordinary one.
pub open spec fn device_change_report(
    address: BtAddress,
    current: BtAddress,
    change: DeviceChange,
) -> Seq<MessageView> {
    match change {
        DeviceChange::Connected(c) => seq![MessageView::SwitchActive(c, address, address == current)],
        DeviceChange::AliasChanged => seq![MessageView::SwitchRssi(address, 0)],
        DeviceChange::Rssi(rssi) => seq![
            MessageView::SwitchRssi(address, rssi as i32),
            MessageView::InvalidateSort,
        ],
        DeviceChange::PairedNow(Some((alias, connected))) => {
            let name = probed_name(
                match alias {
                    Some(a) => Some(a@),
                    None => None,
                },
            );
            seq![
                MessageView::AddPairedRow(
                    name,
                    address,
                    match connected {
                        Some(c) => c,
                        None => false,
                    },
                ),
                MessageView::RemoveDevice(name, address),
                MessageView::UpdateListBoxImage,
            ]
        },
        DeviceChange::PairedNow(None) => Seq::empty(),
        DeviceChange::Other => Seq::empty(),
    }
}

/// The messages for a change of a followed device.
pub fn device_changed(address: BtAddress, current: BtAddress, change: DeviceChange) -> (r: Vec<
    Message,
>)
    ensures
        message_views(r@) == device_change_report(address, current, change),
{
    let ghost ch = change;
    let mut r: Vec<Message> = Vec::new();
    match change {
        DeviceChange::Connected(c) => {
            r.push(Message::SwitchActive(c, address, address == current));
        },
        DeviceChange::AliasChanged => {
            r.push(Message::SwitchRssi(address, 0));
        },
        DeviceChange::Rssi(rssi) => {
            r.push(Message::SwitchRssi(address, rssi as i32));
            r.push(Message::InvalidateSort());
        },
        DeviceChange::PairedNow(Some((alias, connected))) => {
            let name = match alias {
                Some(a) => a,
                None => unknown_device(),
            };
            r.push(Message::AddPairedRow(name.clone(), address, match connected {
                Some(c) => c,
                None => false,
            }));
            r.push(Message::RemoveDevice(name, address));
            r.push(Message::UpdateListBoxImage());
        },
        DeviceChange::PairedNow(None) => {},
        DeviceChange::Other => {},
    }
    proof {
        assert(message_views(r@) =~= device_change_report(address, current, ch));
    }
    r
}

/// How a search ends: it was stopped on purpose (cancelled), or the error
/// text `Stopped searching for devices`.
pub fn search_outcome(cancelled: bool) -> (r: Result<(), String>)
    ensures
        cancelled ==> r is Ok,
        !cancelled ==> r is Err && r->Err_0@ == "Stopped searching for devices"@,
{
    if cancelled {
        Ok(())
    } else {
        Err("Stopped searching for devices".to_string())
    }
}

/// After switching, the report carries exactly the connection state read
/// back: the spinner stops, then the switch of that device (marked current)
/// shows the state read, then the list is sorted; after a failure the switch
/// is turned off.
pub proof fn law_report_carries_state_read_back(address: BtAddress, connected: bool)
    ensures
        activation_report(address, Some(connected)).len() == 3,
        activation_report(address, Some(connected))[0] == MessageView::SwitchActiveSpinner(false, address),
        activation_report(address, Some(connected))[1] == MessageView::SwitchActive(
            connected,
            address,
            true,
        ),
        activation_report(address, Some(connected))[2] == MessageView::InvalidateSort,
        activation_report(address, None) == seq![
            MessageView::SwitchActiveSpinner(false, address),
            MessageView::SwitchActive(false, address, true),
        ],
{
}

/// A device that shows up during a search is listed under the alias read
/// from it: a paired one goes to the paired list under that alias (or
/// `Unknown Device` when the alias could not be read), with its connection
/// state; an unpaired one with a real name gets a row; one whose alias only
/// spells an address is not listed; one whose pairing cannot be read gets a
/// row. The empty-list picture is always updated last.
pub proof fn law_added_device_listed_under_its_alias(
    address: BtAddress,
    paired: Option<bool>,
    alias: Option<String>,
    connected: Option<bool>,
)
    ensures
        ({
            let report = added_device_report(
                address,
                DeviceProbe { paired: paired, alias: alias, connected: connected },
            );
            &&& report.last() == MessageView::UpdateListBoxImage
            &&& paired == Some(true) ==> report.len() == 2 && report[0] == MessageView::AddPairedRow(
                match alias {
                    Some(a) => a@,
                    None => "Unknown Device"@,
                },
                address,
                connected == Some(true),
            )
            &&& (paired == Some(false) && alias is Some && !names_an_address(alias->0@)) ==> report
                == seq![MessageView::AddRow(address), MessageView::UpdateListBoxImage]
            &&& (paired == Some(false) && alias is Some && names_an_address(alias->0@)) ==> report
                == seq![MessageView::UpdateListBoxImage]
            &&& paired is None ==> report == seq![
                MessageView::AddRow(address),
                MessageView::UpdateListBoxImage,
            ]
        }),
{
    let report = added_device_report(address, DeviceProbe { paired: paired, alias: alias, connected: connected });
    if paired == Some(true) {
        assert(report.len() == 2);
    }
    if paired == Some(false) {
        if let Some(a) = alias {
            if names_an_address(a@) {
                assert(report =~= seq![MessageView::UpdateListBoxImage]);
            } else {
                assert(report =~= seq![MessageView::AddRow(address), MessageView::UpdateListBoxImage]);
            }
        }
    }
    if paired is None {
        assert(report =~= seq![MessageView::AddRow(address), MessageView::UpdateListBoxImage]);
    }
}

} // verus!
