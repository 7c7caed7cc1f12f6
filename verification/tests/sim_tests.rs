use raft_core::node_state::NodeState;
use raft_core::observer::EventLevel;
use raft_core::sim::cluster::{wait_for_leader_step, ClusterError};
use raft_core::sim::led_state::{LedColor, LedState};
use raft_core::sim::network::{frame_destinations, mac_address, route_frame};
use raft_core::sim::observer_config::parse_observer_level;

fn level(text: &str) -> EventLevel {
    parse_observer_level(text.as_bytes())
}

#[test]
fn observer_level_names() {
    assert_eq!(level(r#"{ "observer_level": "None" }"#), EventLevel::Off);
    assert_eq!(level(r#"{ "observer_level": "Essential" }"#), EventLevel::Essential);
    assert_eq!(level(r#"{ "observer_level": "Info" }"#), EventLevel::Info);
    assert_eq!(level(r#"{ "observer_level": "Debug" }"#), EventLevel::Debug);
    assert_eq!(level(r#"{ "observer_level": "Trace" }"#), EventLevel::Trace);
}

#[test]
fn observer_level_value_is_trimmed() {
    assert_eq!(level("{\"observer_level\":\"  Debug\t\"}"), EventLevel::Debug);
    assert_eq!(level("{\n  \"observer_level\" :\n  \" Trace \"\n}"), EventLevel::Trace);
}

#[test]
fn observer_level_value_is_trimmed_of_unicode_whitespace() {
    assert_eq!(level("{\"observer_level\": \"\u{a0}Info\u{3000}\"}"), EventLevel::Info);
    assert_eq!(level("{\"observer_level\": \"\u{2003}\u{85}Trace\u{202f}\u{1680}\"}"), EventLevel::Trace);
    assert_eq!(level("{\"observer_level\": \"\u{2028}None\u{2029}\u{205f}\"}"), EventLevel::Off);
    assert_eq!(level("{\"observer_level\": \"\u{200b}Debug\"}"), EventLevel::Essential);
}

#[test]
fn observer_level_defaults_to_essential() {
    assert_eq!(level(r#"{ "observer_level": "Verbose" }"#), EventLevel::Essential);
    assert_eq!(level(r#"{ "observer_level": "debug" }"#), EventLevel::Essential);
    assert_eq!(level(r#"{ "other": "Trace" }"#), EventLevel::Essential);
    assert_eq!(level(r#"{ "observer_level" "Trace" }"#), EventLevel::Essential);
    assert_eq!(level(r#"{ "observer_level": "Trace"#), EventLevel::Essential);
    assert_eq!(level(""), EventLevel::Essential);
}

#[test]
fn observer_level_uses_first_key_occurrence() {
    let text = r#"{ "observer_level": "Info", "observer_level": "Trace" }"#;
    assert_eq!(level(text), EventLevel::Info);
}

#[test]
fn led_starts_red_and_tracks_role() {
    let mut led = LedState::new(3);
    assert_eq!(led.node_id(), 3);
    assert_eq!(led.current_state(), NodeState::Follower);
    assert_eq!(led.color(), LedColor::Red);

    assert!(!led.update(&NodeState::Follower));
    assert!(led.update(&NodeState::Candidate));
    assert_eq!(led.color(), LedColor::Yellow);
    assert!(led.update(&NodeState::Leader));
    assert_eq!(led.color(), LedColor::Green);
    assert!(!led.update(&NodeState::Leader));
    assert_eq!(led.current_state(), NodeState::Leader);
}

#[test]
fn wait_for_leader_outcomes() {
    assert_eq!(wait_for_leader_step(Some(4), 99_999, 10), Some(Ok(4)));
    assert_eq!(wait_for_leader_step(None, 11, 10), Some(Err(ClusterError::Timeout)));
    assert_eq!(wait_for_leader_step(None, 10, 10), None);
    assert_eq!(wait_for_leader_step(None, 0, 10), None);
}

#[test]
fn mac_address_ends_in_node_number() {
    assert_eq!(mac_address(3), [0x02, 0x00, 0x00, 0x00, 0x00, 0x03]);
}

#[test]
fn broadcast_frames_reach_every_other_server() {
    let mut frame = vec![0xFF; 6];
    frame.extend_from_slice(&[1, 2, 3]);
    assert_eq!(frame_destinations(2, &frame), vec![1, 3, 4, 5]);
    assert_eq!(frame_destinations(9, &frame), vec![1, 2, 3, 4, 5]);
}

#[test]
fn unicast_frames_reach_the_addressed_server() {
    let mut frame = mac_address(4).to_vec();
    frame.extend_from_slice(&mac_address(1));
    assert_eq!(frame_destinations(1, &frame), vec![4]);

    let to_unknown = [0x02, 0, 0, 0, 0, 7, 0, 0];
    assert_eq!(frame_destinations(1, &to_unknown), Vec::<u8>::new());
    let to_zero = [0x02, 0, 0, 0, 0, 0];
    assert_eq!(frame_destinations(1, &to_zero), Vec::<u8>::new());
}

#[test]
fn short_frames_go_nowhere() {
    assert_eq!(frame_destinations(1, &[0xFF, 0xFF, 0xFF]), Vec::<u8>::new());
    assert!(route_frame(1, &vec![0xFF; 5]).is_empty());
}

#[test]
fn routed_packets_carry_the_whole_frame() {
    let frame = vec![0xFF, 0xFF, 0xFF, 0xFF, 0xFF, 0xFF, 9, 8, 7];
    let packets = route_frame(5, &frame);
    let targets: Vec<u8> = packets.iter().map(|(t, _)| *t).collect();
    assert_eq!(targets, vec![1, 2, 3, 4]);
    for (_, packet) in &packets {
        assert_eq!(packet.data, frame);
        assert_eq!(packet.len, frame.len());
    }
}
