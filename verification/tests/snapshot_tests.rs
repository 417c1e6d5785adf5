use widget_overlay::media::{
    aggregate_snapshots, build_snapshot, get_playback_status, get_timeline_properties,
    observed_player_ids, order_snapshots, MediaInfo, MediaPlaybackControls, MediaPlayerInfo,
    MediaTimelineProperties, PlaybackStatus, RawPlaybackInfo, SessionFetch, SessionProperties,
    SessionTimeline,
};

fn controls() -> MediaPlaybackControls {
    MediaPlaybackControls {
        play_enabled: true,
        pause_enabled: true,
        stop_enabled: false,
        next_enabled: true,
        prev_enabled: true,
        toggle_enabled: true,
        shuffle_enabled: false,
        repeat_enabled: false,
    }
}

fn full_properties() -> SessionProperties {
    SessionProperties {
        title: Some(String::from("Song")),
        artist: Some(String::from("Artist")),
        thumbnail: Some(vec![1, 2, 3]),
        playback: Some(
            RawPlaybackInfo {
                controls: controls(),
                status: PlaybackStatus::Playing,
                is_shuffle: Some(true),
            },
        ),
        timeline: Some(
            SessionTimeline { start_ticks: 0, end_ticks: 1_800_000_000, position_ticks: 900_000_000 },
        ),
    }
}

fn snapshot(player_id: &str, is_current: bool) -> MediaInfo {
    let mut info =
        build_snapshot(String::from(player_id), is_current, full_properties()).unwrap();
    info.player = Some(MediaPlayerInfo { name: String::new(), icon: Vec::new() });
    info
}

#[test]
fn timeline_ticks_convert_to_milliseconds() {
    let timeline =
        SessionTimeline { start_ticks: 0, end_ticks: 1_800_000_000, position_ticks: 900_000_000 };
    let converted = get_timeline_properties(&timeline).unwrap();
    assert_eq!(
        converted,
        MediaTimelineProperties { start_time: 0, end_time: 180_000, position: 90_000 }
    );
}

#[test]
fn unconvertible_timeline_is_dropped_not_fatal() {
    let timeline =
        SessionTimeline { start_ticks: -1, end_ticks: 10_000, position_ticks: 5_000 };
    assert_eq!(get_timeline_properties(&timeline), None);
}

#[test]
fn playback_status_labels() {
    assert_eq!(get_playback_status(&PlaybackStatus::Playing), "playing");
    assert_eq!(get_playback_status(&PlaybackStatus::Paused), "paused");
    assert_eq!(get_playback_status(&PlaybackStatus::Stopped), "stopped");
    assert_eq!(get_playback_status(&PlaybackStatus::Changing), "changing");
    assert_eq!(get_playback_status(&PlaybackStatus::Opened), "opened");
    assert_eq!(get_playback_status(&PlaybackStatus::Closed), "unknown");
}

#[test]
fn missing_thumbnail_degrades_to_empty_bytes() {
    let mut props = full_properties();
    props.thumbnail = None;
    let info = build_snapshot(String::from("app"), false, props).unwrap();
    assert_eq!(info.thumbnail, Vec::<u8>::new());
    assert_eq!(info.title, "Song");
    assert_eq!(info.artist, "Artist");
}

#[test]
fn missing_required_fields_fail_only_this_session() {
    let mut props = full_properties();
    props.title = None;
    assert_eq!(build_snapshot(String::from("app"), false, props), None);

    let mut props = full_properties();
    props.artist = None;
    assert_eq!(build_snapshot(String::from("app"), false, props), None);
}

#[test]
fn optional_playback_and_timeline_degrade_to_none() {
    let mut props = full_properties();
    props.playback = None;
    props.timeline = None;
    let info = build_snapshot(String::from("app"), true, props).unwrap();
    assert_eq!(info.playback_info, None);
    assert_eq!(info.timeline_properties, None);
    assert!(info.is_current_session);
}

#[test]
fn snapshot_carries_playback_details() {
    let info = build_snapshot(String::from("app"), false, full_properties()).unwrap();
    let playback = info.playback_info.unwrap();
    assert_eq!(playback.status, "playing");
    assert!(playback.is_shuffle);
    assert_eq!(playback.controls, controls());
    let timeline = info.timeline_properties.unwrap();
    assert_eq!(timeline.end_time, 180_000);
}

#[test]
fn current_session_comes_first_order_preserved() {
    let a = snapshot("app.a", false);
    let b = snapshot("app.b", true);
    let c = snapshot("app.c", false);
    let ordered = order_snapshots(vec![a, b, c]);
    let ids: Vec<&str> = ordered.iter().map(|m| m.player_id.as_str()).collect();
    assert_eq!(ids, vec!["app.b", "app.a", "app.c"]);
    assert!(ordered[0].is_current_session);
}

#[test]
fn aggregation_drops_failures_and_keeps_dispatch_order() {
    let ok_one = SessionFetch {
        player_id: Some(String::from("app.one")),
        properties: Some(full_properties()),
        player: Some(MediaPlayerInfo { name: String::from("One"), icon: vec![7] }),
    };
    let failed = SessionFetch {
        player_id: Some(String::from("app.broken")),
        properties: None,
        player: None,
    };
    let ok_two = SessionFetch {
        player_id: None,
        properties: Some(full_properties()),
        player: None,
    };

    let current = String::from("app.one");
    let observed = observed_player_ids(&vec![
        SessionFetch {
            player_id: Some(String::from("app.one")),
            properties: None,
            player: None,
        },
        SessionFetch { player_id: None, properties: None, player: None },
    ]);
    assert_eq!(observed, vec![String::from("app.one"), String::from("Unknown")]);

    let snapshots = aggregate_snapshots(vec![ok_one, failed, ok_two], &current);
    assert_eq!(snapshots.len(), 2);

    assert_eq!(snapshots[0].player_id, "app.one");
    assert!(snapshots[0].is_current_session);
    assert_eq!(
        snapshots[0].player,
        Some(MediaPlayerInfo { name: String::from("One"), icon: vec![7] })
    );

    // The unreadable player id reads as Unknown, and its failed metadata
    // fetch degrades to empty display data.
    assert_eq!(snapshots[1].player_id, "Unknown");
    assert!(!snapshots[1].is_current_session);
    assert_eq!(
        snapshots[1].player,
        Some(MediaPlayerInfo { name: String::new(), icon: Vec::new() })
    );
}
