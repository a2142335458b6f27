use pulsar_core::policy::PolicyDecision;

#[test]
fn raw_encoding_of_all_four_decisions() {
    let cases = [
        (false, false, 0u8),
        (true, false, 1u8),
        (false, true, 2u8),
        (true, true, 3u8),
    ];
    for (interesting, children_interesting, raw) in cases {
        let d = PolicyDecision { interesting, children_interesting };
        assert_eq!(d.as_raw(), raw);
    }
}

#[test]
fn raw_round_trip_of_all_four_decisions() {
    for raw in 0u8..4u8 {
        let d = PolicyDecision::from_raw(raw);
        assert_eq!(d.as_raw(), raw);
        assert_eq!(PolicyDecision::from_raw(d.as_raw()), d);
    }
}

#[test]
fn default_decision_monitors_process_and_children() {
    let d = PolicyDecision::default();
    assert!(d.interesting);
    assert!(d.children_interesting);
    assert_eq!(d.as_raw(), 3);
}
