use waterdrop::devices::{
    fetch_discovered_devices, fetch_saved_devices, listed, remove_saved_device, save_device,
    DeviceForm, DeviceType, FormError, NewDevice, SendDialog, TransferStatus,
};

fn form(name: &str, address: &str, port: &str) -> DeviceForm {
    DeviceForm { name: name.into(), address: address.into(), port: port.into() }
}

#[test]
fn sample_devices_are_listed() {
    let found = fetch_discovered_devices();
    assert_eq!(found.len(), 3);
    assert_eq!(found[0].name, "Jay's iPhone");
    assert_eq!(found[1].device_type, DeviceType::Desktop);
    assert_eq!(found[2].ip_address, "192.168.1.60");
    assert_eq!(found[2].status_text(), "Offline");
    assert_eq!(found[2].status_class(), "badge-ghost");
    let saved = fetch_saved_devices();
    assert_eq!(saved.len(), 2);
    assert_eq!(saved[0].id, "saved-1");
    assert_eq!(saved[0].status_text(), "Online");
    assert_eq!(saved[0].status_class(), "badge-success");
}

#[test]
fn device_types_have_icons_and_labels() {
    assert_eq!(DeviceType::Phone.icon(), "📱");
    assert_eq!(DeviceType::Laptop.icon(), "💻");
    assert_eq!(DeviceType::Desktop.icon(), "🖥️");
    assert_eq!(DeviceType::Tablet.icon(), "📲");
    assert_eq!(DeviceType::Unknown.icon(), "❓");
    assert_eq!(DeviceType::Phone.label(), "Phone");
    assert_eq!(DeviceType::Unknown.label(), "Unknown");
}

#[test]
fn removing_undoes_saving() {
    let mut devices = fetch_saved_devices();
    let before = devices.clone();
    let device = fetch_discovered_devices().remove(1);
    save_device(&mut devices, &device);
    assert_eq!(devices.len(), 3);
    assert_eq!(devices[2], device);
    remove_saved_device(&mut devices, "disc-2");
    assert_eq!(devices, before);
}

#[test]
fn every_device_with_the_identifier_is_removed() {
    let mut devices = fetch_discovered_devices();
    let copy = devices[0].clone();
    save_device(&mut devices, &copy);
    remove_saved_device(&mut devices, "disc-1");
    let ids: Vec<&str> = devices.iter().map(|d| d.id.as_str()).collect();
    assert_eq!(ids, vec!["disc-2", "disc-3"]);
    remove_saved_device(&mut devices, "nobody");
    assert_eq!(devices.len(), 2);
}

#[test]
fn form_is_trimmed_and_submitted_under_a_new_identifier() {
    let f = form(" Phone ", "\t10.0.0.1 ", " 4242 ");
    assert!(f.can_submit());
    let a = f.submit().unwrap();
    assert_eq!(a.name, "Phone");
    assert_eq!(a.address, "10.0.0.1");
    assert_eq!(a.port, 4242);
    assert_eq!(a.id.len(), 36);
    assert_eq!(a.id.as_bytes()[14], b'4');
    assert_eq!(a.id.matches('-').count(), 4);
    assert_ne!(a.id, f.submit().unwrap().id);
    assert_eq!(f.describe("me".into()).unwrap().id, "me");
}

#[test]
fn form_errors_are_told_port_first() {
    let port = form("", "", "99999");
    assert!(!port.can_submit());
    assert_eq!(port.submit().unwrap_err(), FormError::InvalidPort);
    let name = form("  ", "10.0.0.1", "1");
    assert!(!name.can_submit());
    assert_eq!(name.submit().unwrap_err(), FormError::MissingField);
    let address = form("a", "", "1");
    assert_eq!(address.submit().unwrap_err(), FormError::MissingField);
    assert_eq!(FormError::InvalidPort.message(), "Port must be a number between 0 and 65535");
    assert_eq!(FormError::MissingField.message(), "Name and address are required");
}

#[test]
fn new_form_offers_the_default_port() {
    let f = DeviceForm::new();
    assert_eq!(f.port, "4242");
    assert!(!f.can_submit());
}

#[test]
fn message_is_sent_as_it_was_typed() {
    let mut d = SendDialog::new();
    d.message = "  ".into();
    assert!(!d.can_send());
    assert_eq!(d.send_message(), None);
    assert_eq!(d.status, TransferStatus::Idle);
    d.message = " hi ".into();
    assert!(d.can_send());
    assert_eq!(d.send_message().as_deref(), Some(" hi "));
    assert_eq!(d.message, "");
    assert_eq!(d.status, TransferStatus::Done { filename: "message".into() });
}

#[test]
fn dialog_says_what_it_cannot_do_and_forgets_when_closed() {
    let mut d = SendDialog::new();
    d.message = "draft".into();
    d.pick_file();
    let message = "File picker not connected yet".to_string();
    assert_eq!(d.status, TransferStatus::Error { message });
    d.send_clipboard();
    let message = "Clipboard send not connected yet".to_string();
    assert_eq!(d.status, TransferStatus::Error { message });
    assert_eq!(d.message, "draft");
    d.close();
    assert_eq!(d.message, "");
    assert_eq!(d.status, TransferStatus::Idle);
}

#[test]
fn described_device_is_listed_with_its_port() {
    let described = NewDevice {
        id: "i".into(),
        name: "NAS".into(),
        address: "10.0.0.7".into(),
        port: 4242,
    };
    let device = listed(described);
    assert_eq!(device.id, "i");
    assert_eq!(device.name, "NAS");
    assert_eq!(device.ip_address, "10.0.0.7:4242");
    assert_eq!(device.device_type, DeviceType::Unknown);
    assert!(!device.is_online);
}
