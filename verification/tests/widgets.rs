use btman::address::BtAddress;
use btman::widgets::battery_indicator::BatteryLevelIndicator;
use btman::widgets::device_action_row::DeviceActionRow;
use btman::widgets::paired_device_row::{PairedDeviceList, PairedDeviceRow};
use btman::widgets::startup_error_message::{StartupErrorMessage, StartupFix};

#[test]
fn battery_level_is_clamped_and_labelled() {
    let mut b = BatteryLevelIndicator::new();
    assert_eq!(b.label, "Battery: Unavailable");
    assert_eq!(b.battery_level, 0);
    b.set_battery_level_from_i8(42);
    assert_eq!((b.battery_level, b.bar_value, b.sensitive), (42, 42, true));
    assert_eq!(b.label, "Battery: 42%");
    b.set_battery_level_from_i8(127);
    assert_eq!((b.battery_level, b.bar_value), (100, 100));
    assert_eq!(b.label, "Battery: 100%");
    b.set_indicator_battery_level(-1);
    assert_eq!((b.battery_level, b.bar_value, b.sensitive), (-1, 100, false));
    assert_eq!(b.label, "Battery: Unavailable");
    b.set_indicator_battery_level(-100);
    assert_eq!(b.battery_level, -1);
    b.set_indicator_battery_level(0);
    assert_eq!(b.label, "Battery: 0%");
    assert_eq!(b.bar_value, 0);
}

#[test]
fn device_rows_hold_their_address() {
    let mut r = DeviceActionRow::new();
    assert_eq!(r.get_bluer_address(), BtAddress::any());
    r.set_bluer_address(BtAddress { value: 77 });
    assert_eq!(r.get_bluer_address().value, 77);
}

#[test]
fn paired_rows_show_signal_and_connection() {
    let mut r = PairedDeviceRow::new("Buds", BtAddress { value: 5 });
    assert_eq!(r.title, "Buds");
    assert_eq!(r.subtitle, "Not in range");
    assert_eq!(r.button_label, "Connect");
    assert!(r.button_suggested && !r.connected);
    r.set_rssi(-60);
    assert_eq!(r.subtitle, "-60 dBm");
    r.set_connected(true);
    assert_eq!(r.button_label, "Disconnect");
    assert!(!r.button_suggested && r.connected);
    r.set_connected(false);
    assert_eq!(r.button_label, "Connect");
    assert_eq!(r.get_bluer_address().value, 5);
}

#[test]
fn start_up_error_offers_a_fix() {
    let w = StartupErrorMessage::new();
    assert_eq!(w.title, "An Error Occurred");
    assert_eq!(StartupErrorMessage::fix_for(true), StartupFix::CopyCommand);
    assert_eq!(StartupErrorMessage::fix_for(false), StartupFix::EnableWithPkexec);
    assert_eq!(
        StartupErrorMessage::fix_commands(StartupFix::EnableWithPkexec),
        vec![
            vec!["pkexec", "systemctl", "enable", "--now", "bluetooth"],
            vec!["pkexec", "systemctl", "start", "bluetooth"]
        ]
    );
    assert!(StartupErrorMessage::fix_commands(StartupFix::CopyCommand).is_empty());
    assert_eq!(
        StartupErrorMessage::fix_clipboard(StartupFix::CopyCommand).as_deref(),
        Some("sudo systemctl enable --now bluetooth")
    );
    assert_eq!(StartupErrorMessage::fix_toast(StartupFix::CopyCommand), "copied command to clipboard");
    assert_eq!(StartupErrorMessage::fix_toast(StartupFix::EnableWithPkexec), "applying commands through pkexec");
}

#[test]
fn paired_list_follows_the_messages() {
    let a = BtAddress { value: 1 };
    let b = BtAddress { value: 2 };
    let mut list = PairedDeviceList::new();
    assert!(list.rows.is_empty() && !list.current_active);
    list.add_paired_row("Buds".to_string(), a, true);
    list.add_paired_row("Pad".to_string(), b, false);
    assert_eq!(list.rows.len(), 2);
    assert_eq!(list.rows[0].button_label, "Disconnect");
    assert!(list.rows[0].connected && !list.rows[1].connected);
    list.add_paired_row("Buds Pro".to_string(), a, false);
    assert_eq!(list.rows.len(), 2);
    assert_eq!(list.rows[0].title, "Buds Pro");
    assert!(!list.rows[0].connected);
    assert_eq!(list.rows[0].button_label, "Connect");

    list.switch_active(true, b, true);
    assert!(list.rows[1].connected && !list.rows[0].connected);
    assert!(list.current_active);
    list.switch_active(true, a, false);
    assert!(list.rows[0].connected);
    assert!(list.current_active);
    list.switch_active(false, BtAddress::any(), true);
    assert!(!list.rows[0].connected && !list.rows[1].connected);
    assert!(!list.current_active);

    list.switch_spinner(true, a);
    assert!(list.rows[0].spinning && !list.rows[1].spinning);
    list.switch_spinner(false, a);
    assert!(!list.rows[0].spinning);

    list.switch_rssi(b, -42);
    assert_eq!(list.rows[1].subtitle, "-42 dBm");
    assert_eq!(list.rows[0].subtitle, "Not in range");
}
