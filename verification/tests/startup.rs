use live_server::open_explorer::{open, Launch, Platform};
use live_server::startup::{bind_address, host_or_wildcard, port_or_zero, server_url, FIRST_PORT};

fn strings(list: &[&str]) -> Vec<String> {
    list.iter().map(|s| s.to_string()).collect()
}

#[test]
fn open_on_windows_asks_the_url_handler() {
    assert_eq!(
        open("http://10.0.0.2:5437", Platform::Windows, None),
        Some(Launch {
            program: "rundll32".to_string(),
            args: strings(&["url.dll,FileProtocolHandler", "http://10.0.0.2:5437"]),
        })
    );
}

#[test]
fn open_on_linux_asks_xdg_open() {
    let expected =
        Some(Launch { program: "xdg-open".to_string(), args: strings(&["http://10.0.0.2:5437"]) });
    assert_eq!(open("http://10.0.0.2:5437", Platform::Linux, None), expected);
    assert_eq!(open("http://10.0.0.2:5437", Platform::Linux, Some("/usr")), expected);
    assert_eq!(open("http://10.0.0.2:5437", Platform::Linux, Some("")), expected);
}

#[test]
fn open_in_termux_does_nothing() {
    assert_eq!(
        open("http://10.0.0.2:5437", Platform::Linux, Some("/data/data/com.termux/files/usr")),
        None
    );
    assert!(open("http://10.0.0.2:5437", Platform::Linux, Some("/data/data/com.termux/files/usr/"))
        .is_some());
    assert!(open("http://10.0.0.2:5437", Platform::MacOs, Some("/data/data/com.termux/files/usr"))
        .is_some());
}

#[test]
fn open_on_macos_asks_open() {
    assert_eq!(
        open("http://10.0.0.2:5437", Platform::MacOs, None),
        Some(Launch { program: "open".to_string(), args: strings(&["http://10.0.0.2:5437"]) })
    );
}

#[test]
fn open_elsewhere_does_nothing() {
    assert_eq!(open("http://10.0.0.2:5437", Platform::Other, None), None);
    assert_eq!(open("http://10.0.0.2:5437", Platform::Other, Some("/usr")), None);
}

#[test]
fn host_falls_back_to_the_wildcard() {
    assert_eq!(host_or_wildcard(Some("192.168.1.7".to_string())), "192.168.1.7");
    assert_eq!(host_or_wildcard(None), "0.0.0.0");
}

#[test]
fn port_falls_back_to_zero() {
    assert_eq!(FIRST_PORT, 5437);
    assert_eq!(port_or_zero(Some(40123)), 40123);
    assert_eq!(port_or_zero(None), 0);
}

#[test]
fn socket_and_url_name_host_and_port() {
    assert_eq!(bind_address("192.168.1.7", 5437), "192.168.1.7:5437");
    assert_eq!(bind_address("0.0.0.0", 0), "0.0.0.0:0");
    assert_eq!(bind_address("0.0.0.0", u16::MAX), "0.0.0.0:65535");
    assert_eq!(server_url("192.168.1.7", 5437), "http://192.168.1.7:5437");
    assert_eq!(server_url("0.0.0.0", 80), "http://0.0.0.0:80");
}
