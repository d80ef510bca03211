use slide_sync::supervisor::{is_connected, run_verdict, select_host_ip, HostAddr, RunOutcome};
use slide_sync::text::{address_artifact, notified_clients_note, qr_code_url, slide_file_name, slide_viewer_url};

#[test]
fn loopback_only_means_disconnected() {
    let interfaces = vec![
        HostAddr::V4(127, 0, 0, 1),
        HostAddr::V6(0, 0, 0, 0, 0, 0, 0, 1),
    ];
    assert!(!is_connected(&interfaces));
    assert_eq!(select_host_ip(&interfaces), None);
}

#[test]
fn first_non_loopback_address_is_chosen() {
    let interfaces = vec![
        HostAddr::V4(127, 0, 0, 1),
        HostAddr::V4(192, 168, 1, 10),
        HostAddr::V4(10, 0, 0, 3),
    ];
    assert!(is_connected(&interfaces));
    assert_eq!(select_host_ip(&interfaces), Some(HostAddr::V4(192, 168, 1, 10)));
}

#[test]
fn no_interfaces_means_disconnected() {
    let interfaces: Vec<HostAddr> = Vec::new();
    assert!(!is_connected(&interfaces));
    assert_eq!(select_host_ip(&interfaces), None);
}

#[test]
fn verdict_matrix() {
    assert_eq!(run_verdict(true, true), RunOutcome::Graceful);
    assert_eq!(run_verdict(true, false), RunOutcome::Crash);
    assert_eq!(run_verdict(false, true), RunOutcome::Crash);
    assert_eq!(run_verdict(false, false), RunOutcome::Crash);
}

#[test]
fn address_artifact_text() {
    let artifact = address_artifact("192.168.1.10:4123");
    assert_eq!(
        artifact,
        "export const webSocketAddress = \"ws://192.168.1.10:4123\";\n"
    );
}

#[test]
fn slide_file_names_are_deterministic() {
    assert_eq!(slide_file_name(1), "slide1.png");
    assert_eq!(slide_file_name(12), "slide12.png");
    assert_eq!(slide_file_name(65535), "slide65535.png");
}

#[test]
fn window_urls() {
    assert_eq!(
        slide_viewer_url(3, "192.168.1.10:8080"),
        "slide-viewer?slideNumber=3&serverAddress=192.168.1.10:8080"
    );
    assert_eq!(
        qr_code_url("192.168.1.10:8080"),
        "qr-code?serverAddress=192.168.1.10:8080"
    );
}

#[test]
fn notified_clients_text() {
    assert_eq!(notified_clients_note(0), "Notified 0 clients");
    assert_eq!(notified_clients_note(3), "Notified 3 clients");
}
