use latency_link::measurement::{
    ClientConnectionConfig, MeasurementTab, SessionConfig, UiEvent,
};
use latency_link::packets::{LatencyTestConfig, ServerRequest};

fn client(hostname: &str, trusted: bool, ip: Option<&str>) -> (String, ClientConnectionConfig) {
    (
        hostname.to_string(),
        ClientConnectionConfig { trusted, current_ip: ip.map(|t| t.to_string()) },
    )
}

fn session(clients: Vec<(String, ClientConnectionConfig)>) -> SessionConfig {
    SessionConfig { client_connections: clients }
}

#[test]
fn a_new_tab_has_the_default_settings() {
    let tab = MeasurementTab::new();
    assert_eq!(tab.frame_size_kb, 100);
    assert_eq!(tab.frame_rate_hz, 90);
    assert_eq!(tab.duration_secs, 30);
    assert_eq!(tab.client_ip_input, "");
    assert!(tab.available_clients.is_empty());
    assert!(!tab.can_stop());
    assert_eq!(tab.available_label(), None);
}

#[test]
fn only_trusted_clients_are_listed_and_the_first_address_is_filled_in() {
    let mut tab = MeasurementTab::new();
    tab.update_client_list(&session(vec![
        client("stranger", false, Some("1.1.1.1")),
        client("offline", true, None),
        client("first", true, Some("10.0.0.2")),
        client("second", true, Some("10.0.0.3")),
    ]));
    let names: Vec<&str> = tab.available_clients.iter().map(|c| c.hostname.as_str()).collect();
    assert_eq!(names, vec!["offline", "first", "second"]);
    assert_eq!(tab.client_ip_input, "10.0.0.2");
    assert_eq!(tab.available_label(), Some("10.0.0.2, 10.0.0.3".to_string()));
}

#[test]
fn a_typed_address_is_kept() {
    let mut tab = MeasurementTab::new();
    assert_eq!(tab.ui(UiEvent::IpEdited("typed".to_string())), None);
    tab.update_client_list(&session(vec![client("first", true, Some("10.0.0.2"))]));
    assert_eq!(tab.client_ip_input, "typed");
}

#[test]
fn clients_without_addresses_are_noted() {
    let mut tab = MeasurementTab::new();
    tab.update_client_list(&session(vec![client("offline", true, None)]));
    assert_eq!(tab.client_ip_input, "");
    assert_eq!(tab.available_label(), Some("No IP available".to_string()));
    tab.update_client_list(&session(vec![client("stranger", false, Some("1.1.1.1"))]));
    assert_eq!(tab.available_label(), None);
}

#[test]
fn a_start_carries_the_settings_and_is_made_once() {
    let mut tab = MeasurementTab::new();
    tab.ui(UiEvent::IpEdited("10.0.0.2".to_string()));
    tab.ui(UiEvent::FrameSizeChanged(250));
    tab.ui(UiEvent::FrameRateChanged(72));
    tab.ui(UiEvent::DurationChanged(60));
    assert!(!tab.can_start(false));
    assert_eq!(tab.ui(UiEvent::StartClicked { ip_valid: false }), None);
    assert!(tab.can_start(true));
    assert_eq!(
        tab.ui(UiEvent::StartClicked { ip_valid: true }),
        Some(ServerRequest::StartLatencyTest(LatencyTestConfig {
            client_ip: "10.0.0.2".to_string(),
            frame_size_kb: 250,
            frame_rate_hz: 72,
            duration_secs: 60,
        }))
    );
    assert!(!tab.can_start(true));
    assert_eq!(tab.ui(UiEvent::StartClicked { ip_valid: true }), None);
}

#[test]
fn starts_and_stops_alternate() {
    let mut tab = MeasurementTab::new();
    assert_eq!(tab.ui(UiEvent::StopClicked), None);
    for _ in 0..3 {
        assert!(matches!(
            tab.ui(UiEvent::StartClicked { ip_valid: true }),
            Some(ServerRequest::StartLatencyTest(_))
        ));
        assert!(tab.can_stop());
        assert_eq!(tab.ui(UiEvent::StopClicked), Some(ServerRequest::StopLatencyTest));
        assert_eq!(tab.ui(UiEvent::StopClicked), None);
    }
}

#[test]
fn an_invalid_address_is_noted_unless_the_field_is_empty() {
    let mut tab = MeasurementTab::new();
    assert!(!tab.shows_invalid_ip(false));
    tab.ui(UiEvent::IpEdited("10.0.0".to_string()));
    assert!(tab.shows_invalid_ip(false));
    assert!(!tab.shows_invalid_ip(true));
}
