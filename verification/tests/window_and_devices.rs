use btman::address::BtAddress;
use btman::bluetooth::bluetooth_settings::{discoverable_messages, powered_messages, toggle_target};
use btman::bluetooth::device::{
    activation_finished, activation_started, failure_toast, activation_steps, adapter_changed, device_added,
    device_added_needs_probe, device_changed, device_gone, device_removed_by_user, paired_listing,
    paired_row, removal_prompt, search_outcome, step_failure, AdapterChange, DeviceChange,
    DeviceProbe, DeviceStep,
};
use btman::bluetooth::message::{AgentRequest, Message, ResponseAppearance, ToastPriority};
use btman::bluetooth_state::{AdapterTable, BluetoothState};
use btman::window::{
    add_child_row, authorization_body, confirmation_body, confirmation_code_markup,
    discoverable_failure_messages, display_code_body, list_visibility, pass_key_request_body,
    pin_code_request_body, powered_failure_messages, refresh_messages, removed_rows,
    service_authorization_body, sort_rows, toast_has_icon, toast_markup, toast_title,
    yes_no_answer_id, RowKey, RowOrder,
};

fn addr(v: u64) -> BtAddress {
    BtAddress { value: v }
}

fn state() -> BluetoothState {
    let mut s = BluetoothState::new();
    s.reset_devices();
    s.register_device(addr(1), "Speaker".to_string());
    let mut t = AdapterTable::new();
    t.insert("My PC".to_string(), "hci0".to_string());
    s.set_adapters(t);
    s
}

#[test]
fn toast_titles_follow_the_error_text() {
    let cases = [
        ("br-connection-page-timeout", "Failed to connect to device, connection timed out"),
        ("Already-Connected", "Device is already connected"),
        ("Resource Busy", "Other operations pending, please try again in a bit"),
        ("limit reached", "Reached limit, cannot connect to anymore devices"),
        ("le-connection-timeout", "Failed to connect to device, connection timed out"),
        ("Connection refused", "Connection was refused by target device"),
        ("br-connection-aborted-by-remote", "Target device aborted connection"),
        ("br-connection-aborted-by-local", "Connection has been aborted"),
        ("br-connection-canceled", "Connection was canceled due to unforeseen circumstances"),
        ("br-connection-unknown-error", "Connection failed, no idea why"),
        ("adapter not-powered", "Adapter is not powered"),
        ("Resource Not Ready", "Adapter is not powered"),
        ("br-connection-not-supported", "Connection failed, requested features are not supported"),
        ("br-adapter-refreshed", "Refreshed devices list"),
        ("Stopped searching for devices", "Stopped searching for devices"),
        ("refresh-adapter-failed", "Unable to refresh devices list after adapter change"),
        ("something else", "Unknown error occurred"),
    ];
    for (text, title) in cases {
        assert_eq!(toast_title(text), title, "for {}", text);
    }
}

#[test]
fn a_stopped_search_is_reported_as_stopped() {
    let outcome = search_outcome(false);
    let text = outcome.unwrap_err();
    assert_eq!(toast_title(&text), "Stopped searching for devices");
    assert!(search_outcome(true).is_ok());
}

#[test]
fn toast_markup_depends_on_priority() {
    assert_eq!(toast_markup("Hi", ToastPriority::High), "<span font_weight='bold'>Hi</span>");
    assert_eq!(toast_markup("Hi", ToastPriority::Normal), "<span font_weight='regular'>Hi</span>");
    assert!(toast_has_icon(ToastPriority::High));
    assert!(!toast_has_icon(ToastPriority::Normal));
}

#[test]
fn rows_sort_by_title_with_unknown_devices_last() {
    assert_eq!(sort_rows("Unknown Device", "Zebra"), RowOrder::Larger);
    assert_eq!(sort_rows("Zebra", "unknown device"), RowOrder::Smaller);
    assert_eq!(sort_rows("Unknown Device", "unknown device"), RowOrder::Equal);
    assert_eq!(sort_rows("apple", "Banana"), RowOrder::Smaller);
    assert_eq!(sort_rows("Banana", "apple"), RowOrder::Larger);
    assert_eq!(sort_rows("Mouse", "mouse"), RowOrder::Equal);
}

#[test]
fn removal_walks_the_list_like_the_window() {
    let rows = vec![
        RowKey { title: "A".to_string(), address: addr(1) },
        RowKey { title: "B".to_string(), address: addr(2) },
        RowKey { title: "B".to_string(), address: addr(2) },
        RowKey { title: "B".to_string(), address: addr(3) },
        RowKey { title: "B".to_string(), address: addr(2) },
    ];
    assert_eq!(removed_rows(&rows, "B", addr(2)), vec![false, true, true, false, true]);
    assert_eq!(removed_rows(&rows, "A", addr(1)), vec![true, false, false, false, false]);
    assert_eq!(removed_rows(&rows, "C", addr(1)), vec![false; 5]);
    assert_eq!(removed_rows(&Vec::new(), "C", addr(1)), Vec::<bool>::new());
}

#[test]
fn the_picture_shows_only_for_an_empty_list() {
    let v = list_visibility(true);
    assert!(v.list_visible && !v.image_visible);
    let v = list_visibility(false);
    assert!(!v.list_visible && v.image_visible);
}

#[test]
fn pairing_dialogs_name_device_and_adapter() {
    let s = state();
    let known = AgentRequest { adapter: "My PC".to_string(), device: addr(1) };
    let by_name = AgentRequest { adapter: "hci0".to_string(), device: addr(7) };
    assert_eq!(
        pin_code_request_body(&s, &known),
        "Speaker has requested pairing on hci0, please enter the correct pin code."
    );
    assert_eq!(
        pass_key_request_body(&s, &by_name),
        "Unknown Device has requested pairing on Unknown Adapter, please enter the correct pass key."
    );
    assert_eq!(display_code_body(&s, addr(1)), "Please enter this pin code on Speaker");
    assert_eq!(confirmation_body(&s, &by_name), "Is this the right code for Unknown Device on My PC");
    assert_eq!(confirmation_body(&s, &known), "Is this the right code for Speaker on Unknown Adapter");
    assert_eq!(
        confirmation_code_markup(123456),
        "<span font_weight='bold' font_size='32pt'>123456</span>"
    );
    assert_eq!(authorization_body(&s, &known), "Is `Speaker` on `hci0` allowed to pair?");
    assert_eq!(
        service_authorization_body(&s, &by_name, "0000110b"),
        "Is <span font_weight='bold' color='#78aeed'>`0000110b`</span> allowed to be authorized?\nRequest by <span font_weight='bold'>`Unknown Device`</span> on <span font_weight='bold'>`My PC`</span>."
    );
    assert_eq!(yes_no_answer_id("Remove"), "remove");
}

#[test]
fn refresh_and_switch_failures_are_reported() {
    assert_eq!(
        refresh_messages(Err("boom".to_string())),
        vec![Message::PopupError("boom".to_string(), ToastPriority::High), Message::UpdateListBoxImage()]
    );
    assert_eq!(
        refresh_messages(Ok(())),
        vec![Message::PopupError("br-adapter-refreshed".to_string(), ToastPriority::Normal)]
    );
    assert_eq!(
        powered_failure_messages("e".to_string(), Some(true)),
        vec![Message::PopupError("e".to_string(), ToastPriority::High), Message::SwitchAdapterPowered(true)]
    );
    assert_eq!(
        powered_failure_messages("e".to_string(), None),
        vec![Message::PopupError("e".to_string(), ToastPriority::High)]
    );
    assert_eq!(
        discoverable_failure_messages("Not Ready"),
        vec![
            Message::PopupError("Adapter Not Ready".to_string(), ToastPriority::High),
            Message::SwitchAdapterDiscoverable(false)
        ]
    );
}

#[test]
fn new_rows_are_titled_and_recorded() {
    let mut s = state();
    let (row, msg) = add_child_row(&mut s, addr(9), "Headset".to_string());
    assert_eq!(row.title, "Headset");
    assert_eq!(row.get_bluer_address(), addr(9));
    assert!(row.activatable);
    assert_eq!(msg, Message::InvalidateSort());
    assert_eq!(s.device_name(addr(9)), "Headset");
    let (row, _) = add_child_row(&mut s, addr(10), "11-22-33-44-55-66".to_string());
    assert_eq!(row.title, "Unknown Device");
    assert_eq!(s.device_name(addr(10)), "Unknown Device");
}

#[test]
fn switching_a_device_follows_its_state() {
    assert_eq!(activation_steps(true, false), vec![DeviceStep::Disconnect]);
    assert_eq!(activation_steps(true, true), vec![DeviceStep::Disconnect]);
    assert_eq!(
        activation_steps(false, false),
        vec![DeviceStep::Pair, DeviceStep::Settle, DeviceStep::FirstConnect, DeviceStep::SecondConnect]
    );
    assert_eq!(activation_steps(false, true), vec![DeviceStep::FirstConnect, DeviceStep::SecondConnect]);
    assert_eq!(step_failure(DeviceStep::FirstConnect, "Timeout"), "connect-1 failed: Timeout");
    assert_eq!(step_failure(DeviceStep::Disconnect, "x"), "disconnect failed: x");
    assert_eq!(activation_started(addr(4)), Message::SwitchActiveSpinner(true, addr(4)));
    assert_eq!(
        activation_finished(addr(4), Some(true)),
        vec![
            Message::SwitchActiveSpinner(false, addr(4)),
            Message::SwitchActive(true, addr(4), true),
            Message::InvalidateSort()
        ]
    );
    assert_eq!(
        activation_finished(addr(4), None),
        vec![Message::SwitchActiveSpinner(false, addr(4)), Message::SwitchActive(false, addr(4), true)]
    );
}

#[test]
fn removing_a_device_asks_then_forgets_it() {
    assert_eq!(
        removal_prompt("Speaker"),
        Message::RequestYesNo(
            "Remove Device?".to_string(),
            "Are you sure you want to remove <span font_weight='bold' color='#78aeed'>`Speaker`</span>?".to_string(),
            "Remove".to_string(),
            ResponseAppearance::Suggested
        )
    );
    let mut s = state();
    let msgs = device_removed_by_user(&mut s, "Speaker".to_string(), addr(1));
    assert_eq!(msgs, vec![Message::RemoveDevice("Speaker".to_string(), addr(1)), Message::UpdateListBoxImage()]);
    assert!(!s.knows_device(addr(1)));
}

#[test]
fn searching_reports_devices() {
    let s = state();
    assert!(!device_added_needs_probe(&s, addr(1), true));
    assert!(device_added_needs_probe(&s, addr(2), true));
    assert!(!device_added_needs_probe(&s, addr(2), false));
    let paired = DeviceProbe { paired: Some(true), alias: None, connected: Some(true) };
    assert_eq!(
        device_added(addr(2), paired),
        vec![Message::AddPairedRow("Unknown Device".to_string(), addr(2), true), Message::UpdateListBoxImage()]
    );
    let plain = DeviceProbe { paired: Some(false), alias: Some("Phone".to_string()), connected: None };
    assert_eq!(device_added(addr(2), plain), vec![Message::AddRow(addr(2)), Message::UpdateListBoxImage()]);
    let nameless = DeviceProbe { paired: Some(false), alias: Some("11-22-33-44-55-66".to_string()), connected: None };
    assert_eq!(device_added(addr(2), nameless), vec![Message::UpdateListBoxImage()]);
    let unread = DeviceProbe { paired: None, alias: None, connected: None };
    assert_eq!(device_added(addr(2), unread), vec![Message::AddRow(addr(2)), Message::UpdateListBoxImage()]);
    assert_eq!(
        paired_row(addr(3), Some("Pad".to_string()), None),
        Message::AddPairedRow("Pad".to_string(), addr(3), false)
    );
    assert_eq!(paired_listing(addr(3), Some(false), None, None), None);
    assert_eq!(paired_listing(addr(3), None, None, None), None);
    assert_eq!(
        paired_listing(addr(3), Some(true), None, None),
        Some(Message::AddPairedRow("Unknown Device".to_string(), addr(3), false))
    );
}

#[test]
fn devices_leaving_a_search_are_forgotten() {
    let mut s = state();
    assert_eq!(device_gone(&mut s, addr(1), false), vec![]);
    assert!(s.knows_device(addr(1)));
    assert_eq!(
        device_gone(&mut s, addr(1), true),
        vec![Message::RemoveDevice("Speaker".to_string(), addr(1)), Message::UpdateListBoxImage()]
    );
    assert_eq!(
        device_gone(&mut s, addr(1), true),
        vec![Message::RemoveDevice(String::new(), addr(1)), Message::UpdateListBoxImage()]
    );
}

#[test]
fn adapter_and_device_changes_are_reported() {
    assert_eq!(adapter_changed(AdapterChange::Powered(true)), vec![Message::SwitchAdapterPowered(true)]);
    assert_eq!(
        adapter_changed(AdapterChange::Discoverable(false)),
        vec![Message::SwitchAdapterDiscoverable(false)]
    );
    assert_eq!(adapter_changed(AdapterChange::Other), vec![]);
    assert_eq!(
        device_changed(addr(1), addr(1), DeviceChange::Connected(true)),
        vec![Message::SwitchActive(true, addr(1), true)]
    );
    assert_eq!(
        device_changed(addr(1), addr(2), DeviceChange::Connected(false)),
        vec![Message::SwitchActive(false, addr(1), false)]
    );
    assert_eq!(device_changed(addr(1), addr(2), DeviceChange::AliasChanged), vec![Message::SwitchRssi(addr(1), 0)]);
    assert_eq!(
        device_changed(addr(1), addr(2), DeviceChange::Rssi(-70)),
        vec![Message::SwitchRssi(addr(1), -70), Message::InvalidateSort()]
    );
    assert_eq!(
        device_changed(addr(1), addr(2), DeviceChange::PairedNow(Some((Some("Pad".to_string()), Some(true))))),
        vec![
            Message::AddPairedRow("Pad".to_string(), addr(1), true),
            Message::RemoveDevice("Pad".to_string(), addr(1)),
            Message::UpdateListBoxImage()
        ]
    );
    assert_eq!(device_changed(addr(1), addr(2), DeviceChange::PairedNow(None)), vec![]);
    assert_eq!(device_changed(addr(1), addr(2), DeviceChange::Other), vec![]);
}

#[test]
fn adapter_switches_report_what_they_read_back() {
    assert_eq!(
        powered_messages(true),
        vec![
            Message::RefreshDevicesList(),
            Message::PopupError("br-adapter-refreshed".to_string(), ToastPriority::Normal),
            Message::SwitchAdapterPowered(true)
        ]
    );
    assert_eq!(
        powered_messages(false),
        vec![Message::SwitchActive(false, BtAddress::any(), true), Message::SwitchAdapterPowered(false)]
    );
    assert_eq!(discoverable_messages(true), vec![Message::SwitchAdapterDiscoverable(true)]);
}

#[test]
fn toggles_ask_for_the_opposite_and_failures_are_toasted() {
    assert!(!toggle_target(true));
    assert!(toggle_target(false));
    assert!(toggle_target(toggle_target(true)));
    assert_eq!(failure_toast("pair failed: x".to_string()), Message::PopupError("pair failed: x".to_string(), ToastPriority::High));
}
