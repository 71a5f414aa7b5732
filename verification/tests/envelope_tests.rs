use live_metrics::envelope::{build_envelope, format_timestamp};
use live_metrics::resource::ResourceData;

fn resource() -> ResourceData {
    ResourceData::from_parts(
        Some(String::from("rust:0.1")),
        Some(String::from("checkout")),
        Some(String::from("checkout-1")),
        Some(String::from("host-a")),
    )
}

#[test]
fn timestamp_renders_milliseconds() {
    assert_eq!(format_timestamp(0), "/Date(0)/");
    assert_eq!(format_timestamp(1_700_000_000_123), "/Date(1700000000123)/");
    assert_eq!(format_timestamp(u64::MAX), format!("/Date({})/", u64::MAX));
}

#[test]
fn timestamp_shape_is_date_digits() {
    for ms in [0_u64, 7, 999, 1_000, 1_700_000_000_123] {
        let t = format_timestamp(ms);
        assert!(t.starts_with("/Date("));
        assert!(t.ends_with(")/"));
        let inner = &t["/Date(".len()..t.len() - ")/".len()];
        assert!(!inner.is_empty());
        assert!(inner.chars().all(|c| c.is_ascii_digit()));
    }
}

#[test]
fn envelope_carries_identity_and_stream_id() {
    let r = resource();
    let e = build_envelope(Vec::new(), &r, "0123456789abcdef0123456789abcdef", 42_000);
    assert_eq!(e.invariant_version, 1);
    assert_eq!(e.timestamp, "/Date(42000)/");
    assert_eq!(e.version.as_deref(), Some("rust:0.1"));
    assert_eq!(e.stream_id, "0123456789abcdef0123456789abcdef");
    assert_eq!(e.machine_name, "host-a");
    assert_eq!(e.instance, "checkout-1");
    assert_eq!(e.role_name.as_deref(), Some("checkout"));
    assert!(e.metrics.is_empty());
}

#[test]
fn envelopes_share_one_stream_id() {
    let r = resource();
    let id = "0123456789abcdef0123456789abcdef";
    let first = build_envelope(Vec::new(), &r, id, 1_000);
    let second = build_envelope(Vec::new(), &r, id, 2_000);
    assert_eq!(first.stream_id, second.stream_id);
}

#[test]
fn resource_defaults_to_unknown_machine() {
    let r = ResourceData::from_parts(None, None, None, None);
    assert_eq!(r.machine_name, "Unknown");
    assert_eq!(r.instance, "Unknown");
    assert!(r.version.is_none());
    assert!(r.role_name.is_none());
}

#[test]
fn resource_instance_falls_back_to_machine_name() {
    let r = ResourceData::from_parts(None, None, None, Some(String::from("host-b")));
    assert_eq!(r.machine_name, "host-b");
    assert_eq!(r.instance, "host-b");

    let r = ResourceData::from_parts(None, None, Some(String::from("inst")), None);
    assert_eq!(r.machine_name, "Unknown");
    assert_eq!(r.instance, "inst");
}
