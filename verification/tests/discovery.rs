use samsung_tv_rs::discovery::{
    is_samsung_tv, keeps_listening, m_search_request, parse_ssdp_response, search_targets,
    tls_probe_address, DiscoveredTv, DiscoveryOptions, DiscoveryRegistry, ReceiveFailure,
};
use std::time::Duration;

#[test]
fn test_is_samsung_tv() {
    assert!(is_samsung_tv("SERVER: Samsung/1.0"));
    assert!(is_samsung_tv("Tizen TV"));
    assert!(is_samsung_tv("RemoteControlReceiver"));
    assert!(!is_samsung_tv("Roku"));
    assert!(!is_samsung_tv("Chromecast"));
}

#[test]
fn test_parse_ssdp_response() {
    let response = "HTTP/1.1 200 OK\r\n\
        LOCATION: http://192.168.1.100:8001/\r\n\
        USN: uuid:abc123\r\n\
        SERVER: Samsung/Tizen UPnP/1.0\r\n";

    let mut tv = DiscoveredTv::new("192.168.1.100".to_string());
    parse_ssdp_response(response, &mut tv);

    assert_eq!(tv.location, Some("http://192.168.1.100:8001/".to_string()));
    assert_eq!(tv.usn, Some("uuid:abc123".to_string()));
    assert!(tv.model.is_some());
}

#[test]
fn test_discovery_options_builder() {
    let options = DiscoveryOptions::new()
        .timeout(Duration::from_secs(10))
        .fetch_info(true)
        .bind_addr([192, 168, 1, 50]);

    assert_eq!(options.timeout, Duration::from_secs(10));
    assert!(options.fetch_info);
    assert_eq!(options.bind_addr, Some([192, 168, 1, 50]));
}

#[test]
fn ssdp_headers_are_case_insensitive_and_ports_filtered() {
    let mut tv = DiscoveredTv::new("10.0.0.2".to_string());
    parse_ssdp_response("location:  http://10.0.0.2:8002/x \nserver: Linux\n", &mut tv);
    assert_eq!(tv.location, Some("http://10.0.0.2:8002/x".to_string()));
    assert_eq!(tv.port, 8002);
    assert!(tv.model.is_none());

    let mut tv = DiscoveredTv::new("10.0.0.3".to_string());
    parse_ssdp_response("LOCATION: http://10.0.0.3:9197/dmr\r\nNOCOLON\r\n", &mut tv);
    assert_eq!(tv.port, 8001);
    assert_eq!(tv.location, Some("http://10.0.0.3:9197/dmr".to_string()));

    let mut tv = DiscoveredTv::new("10.0.0.4".to_string());
    parse_ssdp_response("LOCATION: not a url\n", &mut tv);
    assert_eq!(tv.port, 8001);
    assert_eq!(tv.location, Some("not a url".to_string()));
}

#[test]
fn m_search_text() {
    let targets = search_targets();
    assert_eq!(targets.len(), 3);
    assert_eq!(targets[2], "ssdp:all");
    assert_eq!(
        m_search_request("ssdp:all"),
        "M-SEARCH * HTTP/1.1\r\nHOST: 239.255.255.250:1900\r\nMAN: \"ssdp:discover\"\r\nMX: 3\r\nST: ssdp:all\r\n\r\n"
    );
    assert_eq!(tls_probe_address("10.0.0.9"), "10.0.0.9:8002");
}

#[test]
fn registry_keeps_first_response_per_ip() {
    let mut registry = DiscoveryRegistry::new();
    let first = "SERVER: Samsung/Tizen\r\nUSN: uuid:first\r\n";
    let tv = registry.candidate(first, "10.0.0.5").unwrap();
    registry.record(tv, true);
    assert!(registry.knows("10.0.0.5"));
    assert!(registry.candidate("SERVER: Samsung\r\nUSN: uuid:second\r\n", "10.0.0.5").is_none());
    assert!(registry.candidate("SERVER: Roku\r\n", "10.0.0.6").is_none());
    let tv = registry.candidate("X: TIZEN\r\n", "10.0.0.7").unwrap();
    registry.record(tv, false);
    let tvs = registry.into_tvs();
    assert_eq!(tvs.len(), 2);
    assert_eq!(tvs[0].usn, Some("uuid:first".to_string()));
    assert_eq!(tvs[0].port, 8002);
    assert!(tvs[0].supports_tls);
    assert_eq!(tvs[1].port, 8001);
    assert!(!tvs[1].supports_tls);
}

#[test]
fn listening_stops_on_timeouts_only() {
    assert!(!keeps_listening(ReceiveFailure::WouldBlock));
    assert!(!keeps_listening(ReceiveFailure::TimedOut));
    assert!(keeps_listening(ReceiveFailure::Other));
}

#[test]
fn datagrams_are_read_lossily() {
    let registry = DiscoveryRegistry::new();
    let tv = registry.candidate_from_datagram(b"SERVER: Samsung\xff\r\nUSN: u1\r\n", "10.0.0.8").unwrap();
    assert_eq!(tv.usn, Some("u1".to_string()));
    assert!(registry.candidate_from_datagram(b"\xff\xfe", "10.0.0.9").is_none());
}
