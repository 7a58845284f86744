use voicebridge::ports::{plan_output_port, PortPlan, PortTopology};

#[test]
fn missing_destination_is_skipped() {
    assert_eq!(plan_output_port(false, false), PortPlan::Skip);
    assert_eq!(plan_output_port(false, true), PortPlan::Skip);
}

#[test]
fn plain_destination_is_connected() {
    assert_eq!(plan_output_port(true, false), PortPlan::Connect);
}

#[test]
fn monitoring_destination_is_isolated() {
    // A destination wired straight to the input source would feed the
    // microphone back: connect it, but sever the direct route.
    assert_eq!(plan_output_port(true, true), PortPlan::ConnectAndIsolate);
}

#[test]
fn topology_restores_in_severed_order() {
    let mut topology = PortTopology::new();
    assert_eq!(topology.len(), 0);
    topology.record(String::from("system:playback_1"));
    topology.record(String::from("system:playback_2"));
    assert_eq!(topology.len(), 2);
    let restored = topology.take_all();
    assert_eq!(restored, vec![String::from("system:playback_1"), String::from(
        "system:playback_2",
    )]);
    // Consumed exactly once: nothing is left to restore twice.
    assert_eq!(topology.len(), 0);
    assert!(topology.take_all().is_empty());
}
