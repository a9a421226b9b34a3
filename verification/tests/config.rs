use matchbox_socket::{ChannelConfig, RtcIceServerConfig, WebRtcSocket, WebRtcSocketBuilder};

#[test]
fn unreliable_channel_is_unordered_without_retransmits() {
    let config = ChannelConfig::unreliable();
    assert!(!config.ordered);
    assert_eq!(config.max_retransmits, Some(0));
}

#[test]
fn reliable_channel_is_ordered_with_unlimited_retransmits() {
    let config = ChannelConfig::reliable();
    assert!(config.ordered);
    assert_eq!(config.max_retransmits, None);
}

#[test]
fn default_ice_server_is_two_public_stun_servers() {
    let config = RtcIceServerConfig::default();
    assert_eq!(
        config.urls,
        vec![
            "stun:stun.l.google.com:19302".to_string(),
            "stun:stun1.l.google.com:19302".to_string(),
        ]
    );
    assert_eq!(config.username, None);
    assert_eq!(config.credential, None);
}

#[test]
fn new_builder_has_defaults() {
    let builder = WebRtcSocketBuilder::new("wss://example.invalid/room");
    assert_eq!(builder.room_url(), "wss://example.invalid/room");
    assert_eq!(builder.attempts(), Some(3));
    assert!(builder.channel_configs().is_empty());
    let ice = builder.ice_server_config();
    assert_eq!(ice.urls.len(), 2);
    assert_eq!(ice.urls[0], "stun:stun.l.google.com:19302");
    assert_eq!(ice.urls[1], "stun:stun1.l.google.com:19302");
    assert_eq!(ice.username, None);
    assert_eq!(ice.credential, None);
}

#[test]
fn socket_builder_is_a_new_builder() {
    let builder = WebRtcSocket::builder("ws://localhost:3536/extreme_bevy?next=2");
    assert_eq!(builder.room_url(), "ws://localhost:3536/extreme_bevy?next=2");
    assert_eq!(builder.attempts(), Some(3));
    assert!(builder.channel_configs().is_empty());
}

#[test]
fn ice_server_replaces_the_default() {
    let turn = RtcIceServerConfig {
        urls: vec!["turn:turn.example.invalid:3478".to_string()],
        username: Some("user".to_string()),
        credential: Some("turn-password".to_string()),
    };
    let builder = WebRtcSocketBuilder::new("wss://example.invalid")
        .add_reliable_channel()
        .ice_server(turn);
    let ice = builder.ice_server_config();
    assert_eq!(ice.urls, vec!["turn:turn.example.invalid:3478".to_string()]);
    assert_eq!(ice.username.as_deref(), Some("user"));
    assert_eq!(ice.credential.as_deref(), Some("turn-password"));
    assert_eq!(builder.room_url(), "wss://example.invalid");
    assert_eq!(builder.attempts(), Some(3));
    assert_eq!(builder.channel_configs().len(), 1);
}

#[test]
fn reconnect_attempts_sets_the_bound() {
    let builder = WebRtcSocketBuilder::new("wss://example.invalid/").reconnect_attempts(Some(7));
    assert_eq!(builder.attempts(), Some(7));
    assert_eq!(builder.room_url(), "wss://example.invalid/");
    let builder = builder.reconnect_attempts(Some(0));
    assert_eq!(builder.attempts(), Some(0));
}

#[test]
fn reconnect_attempts_none_is_unbounded() {
    let builder = WebRtcSocketBuilder::new("wss://example.invalid/").reconnect_attempts(None);
    assert_eq!(builder.attempts(), None);
}

#[test]
fn channels_keep_the_order_in_which_they_were_added() {
    let custom = ChannelConfig { ordered: true, max_retransmits: Some(5) };
    let builder = WebRtcSocketBuilder::new("wss://example.invalid")
        .add_unreliable_channel()
        .add_channel(custom)
        .add_reliable_channel();
    let channels = builder.channel_configs();
    assert_eq!(channels.len(), 3);
    assert!(!channels[0].ordered);
    assert_eq!(channels[0].max_retransmits, Some(0));
    assert!(channels[1].ordered);
    assert_eq!(channels[1].max_retransmits, Some(5));
    assert!(channels[2].ordered);
    assert_eq!(channels[2].max_retransmits, None);
}

#[test]
fn builder_outlives_a_clone() {
    let builder = WebRtcSocketBuilder::new("wss://example.invalid").add_reliable_channel();
    let copy = builder.clone().add_unreliable_channel();
    assert_eq!(builder.channel_configs().len(), 1);
    assert_eq!(copy.channel_configs().len(), 2);
    assert_eq!(copy.room_url(), builder.room_url());
}
