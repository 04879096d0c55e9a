use vstd::prelude::*;
use crate::address::BtAddress;
use crate::bluetooth::message::{message_views, Message, MessageView, ToastPriority};

verus! {

/// What is reported after the adapter's power was switched and read back:
/// when on, the device list is refreshed and the notice toast shown; when
/// off, every connection switch is turned off; then the power switch follows.
pub open spec fn power_report(powered: bool) -> Seq<MessageView> {
    if powered {
        seq![
            MessageView::RefreshDevicesList,
            MessageView::PopupError("br-adapter-refreshed"@, ToastPriority::Normal),
            MessageView::SwitchAdapterPowered(true),
        ]
    } else {
        seq![
            MessageView::SwitchActive(false, BtAddress { value: 0 }, true),
            MessageView::SwitchAdapterPowered(false),
        ]
    }
}

/// The messages after the adapter's power was switched; `powered` is the
/// state read back.
pub fn powered_messages(powered: bool) -> (r: Vec<Message>)
    ensures
        message_views(r@) == power_report(powered),
{
    let mut r: Vec<Message> = Vec::new();
    if powered {
        r.push(Message::RefreshDevicesList());
        r.push(Message::PopupError("br-adapter-refreshed".to_string(), ToastPriority::Normal));
    } else {
        r.push(Message::SwitchActive(false, BtAddress::any(), true));
    }
    r.push(Message::SwitchAdapterPowered(powered));
    proof {
        assert(message_views(r@) =~= power_report(powered));
    }
    r
}

/// The messages after discoverability was switched; `discoverable` is the
/// state read back.
pub fn discoverable_messages(discoverable: bool) -> (r: Vec<Message>)
    ensures
        message_views(r@) == seq![MessageView::SwitchAdapterDiscoverable(discoverable)],
{
    let mut r: Vec<Message> = Vec::new();
    r.push(Message::SwitchAdapterDiscoverable(discoverable));
    proof {
        assert(message_views(r@) =~= seq![MessageView::SwitchAdapterDiscoverable(discoverable)]);
    }
    r
}

/// The state a switch of the adapter's power or discoverability asks for:
/// the opposite of the state read before it.
pub open spec fn toggled(current: bool) -> bool {
    !current
}

/// The state to ask the adapter for, given the state read before the switch.
pub fn toggle_target(current: bool) -> (r: bool)
    ensures
        r == toggled(current),
{
    !current
}

/// Switching the power twice gives it back: when each switch takes effect,
/// the second one asks for the power the adapter had before the first, and
/// its report ends by setting the power switch to that state.
pub proof fn law_two_power_toggles_restore(before: bool)
    ensures
        toggled(toggled(before)) == before,
        power_report(toggled(toggled(before))).last() == MessageView::SwitchAdapterPowered(before),
{
}

} // verus!
