use waterdrop::config::{initial_config_file, load, AppConfig, ConfigFile, DEFAULT_PORT};

fn file(listen_addr: Option<&str>, port: Option<u16>) -> Option<ConfigFile> {
    Some(ConfigFile { listen_addr: listen_addr.map(|s| s.to_string()), port })
}

fn addr(listen: Option<&str>, port: Option<&str>, file: Option<ConfigFile>) -> String {
    let listen = listen.map(|s| s.to_string());
    let port = port.map(|s| s.to_string());
    load(listen, port, file).listen_addr
}

#[test]
fn address_variable_comes_first() {
    let all = file(Some("1.1.1.1:1"), Some(1));
    assert_eq!(addr(Some(" 0.0.0.0:5000 "), Some("6000"), all), "0.0.0.0:5000");
}

#[test]
fn port_variable_comes_second() {
    assert_eq!(addr(None, Some(" 6000\n"), file(Some("1.1.1.1:1"), None)), "0.0.0.0:6000");
    assert_eq!(addr(Some("  "), Some("+6000"), None), "0.0.0.0:6000");
}

#[test]
fn file_comes_third_and_its_address_before_its_port() {
    assert_eq!(addr(None, None, file(Some(" 1.1.1.1:1 "), Some(7))), "1.1.1.1:1");
    assert_eq!(addr(None, None, file(Some(" "), Some(7))), "0.0.0.0:7");
    assert_eq!(addr(None, None, file(None, Some(7))), "0.0.0.0:7");
}

#[test]
fn invalid_port_variable_is_passed_over() {
    assert_eq!(addr(None, Some("70000"), file(None, Some(7))), "0.0.0.0:7");
    assert_eq!(addr(None, Some("port"), None), "0.0.0.0:4242");
    assert_eq!(addr(None, Some(""), file(None, None)), "0.0.0.0:4242");
}

#[test]
fn defaults_are_the_documented_ones() {
    assert_eq!(AppConfig::default().listen_addr, "0.0.0.0:4242");
    assert_eq!(addr(None, None, Some(ConfigFile::default())), "0.0.0.0:4242");
    let initial = initial_config_file();
    assert_eq!(initial.port, Some(DEFAULT_PORT));
    assert_eq!(initial.listen_addr, None);
}
