use btman::address::BtAddress;
use btman::bluetooth_state::{adapters_lut, devices_lut, AdapterTable, BluetoothState, DeviceTable};
use btman::singletons::BtmanProperties;

fn addr(v: u64) -> BtAddress {
    BtAddress { value: v }
}

#[test]
fn device_table_reads_back_what_was_written() {
    let mut t = DeviceTable::new();
    assert!(!t.contains(addr(1)));
    t.insert(addr(1), "Speaker".to_string());
    t.insert(addr(2), "Mouse".to_string());
    assert_eq!(t.get(addr(1)), Some("Speaker".to_string()));
    t.insert(addr(1), "Speaker 2".to_string());
    assert_eq!(t.get(addr(1)), Some("Speaker 2".to_string()));
    assert_eq!(t.remove(addr(1)), Some("Speaker 2".to_string()));
    assert_eq!(t.remove(addr(1)), None);
    assert!(t.contains(addr(2)));
}

#[test]
fn adapter_table_looks_up_both_ways() {
    let mut t = AdapterTable::new();
    assert_eq!(t.get("laptop"), None);
    t.insert("laptop".to_string(), "hci0".to_string());
    t.insert("dongle".to_string(), "hci1".to_string());
    t.insert("laptop".to_string(), "hci2".to_string());
    assert_eq!(t.get("laptop"), Some("hci2".to_string()));
    assert_eq!(t.get("dongle"), Some("hci1".to_string()));
    assert_eq!(t.alias_of("hci1"), Some("dongle".to_string()));
    assert_eq!(t.alias_of("hci0"), None);
}

#[test]
fn shared_state_starts_absent_and_names_devices() {
    let mut s = BluetoothState::new();
    assert!(devices_lut(&s).is_none());
    assert!(adapters_lut(&s).is_none());
    assert!(!s.knows_device(addr(5)));
    assert_eq!(s.forget_device(addr(5)), None);
    s.reset_devices();
    assert!(devices_lut(&s).is_some());
    s.register_device(addr(5), "Keyboard".to_string());
    assert!(s.knows_device(addr(5)));
    assert_eq!(s.device_name(addr(5)), "Keyboard");
    assert_eq!(s.device_name(addr(6)), "Unknown Device");
    assert_eq!(s.forget_device(addr(5)), Some("Keyboard".to_string()));
    assert_eq!(s.device_name(addr(5)), "Unknown Device");
    let mut t = AdapterTable::new();
    t.insert("My PC".to_string(), "hci0".to_string());
    s.set_adapters(t);
    assert!(adapters_lut(&s).is_some());
    assert_eq!(s.adapter_name("My PC"), "hci0");
    assert_eq!(s.adapter_name("hci0"), "Unknown Adapter");
    assert_eq!(s.adapter_alias("hci0"), Some("My PC".to_string()));
}

#[test]
fn properties_start_empty() {
    let p = BtmanProperties::new();
    assert_eq!(p.name, "");
    assert_eq!(p.current_adapter, "");
    assert_eq!(p.address, BtAddress::any());
    assert!(!p.displaying_dialog);
    assert_eq!(p.pass_key, 0);
    assert!(!p.confirm_authorization);
}

#[test]
fn dialogs_record_their_answers() {
    let mut p = BtmanProperties::new();
    p.begin_dialog();
    assert!(p.displaying_dialog);
    assert!(p.finish_choice("allow", "allow"));
    assert!(!p.displaying_dialog);
    assert!(p.confirm_authorization);
    p.begin_dialog();
    assert!(!p.finish_choice("cancel", "allow"));
    assert!(!p.confirm_authorization);

    p.begin_dialog();
    p.finish_pin_code("confirm", "1234".to_string());
    assert_eq!(p.pin_code, "1234");
    p.finish_pin_code("cancel", "9999".to_string());
    assert_eq!(p.pin_code, "");

    p.finish_pass_key("confirm", "123456");
    assert_eq!(p.pass_key, 123456);
    p.finish_pass_key("confirm", "abc");
    assert_eq!(p.pass_key, 0);
    p.finish_pass_key("cancel", "42");
    assert_eq!(p.pass_key, 0);
    p.end_dialog();
    assert!(!p.displaying_dialog);
}

#[test]
fn start_up_picks_an_adapter() {
    let mut p = BtmanProperties::new();
    assert!(BtmanProperties::startup_needs_default(""));
    assert!(!BtmanProperties::startup_needs_default("hci1"));
    p.use_saved_adapter("hci1".to_string());
    assert_eq!(p.current_adapter, "hci1");
    assert_eq!(p.name, "");
    p.use_default_adapter("hci0".to_string());
    assert_eq!(p.current_adapter, "hci0");
    assert_eq!(p.name, "hci0");
    p.select_row(3, BtAddress { value: 9 });
    assert_eq!(p.current_index, 3);
    assert_eq!(p.address.value, 9);
}
