use widget_overlay::migration::{Dimensions, ManifestDoc};
use widget_overlay::system::{average_cpu_frequency, network_speed};
use widget_overlay::widget::{
    default_widget_size, default_widget_type, ensure_window_position_bounds,
    existing_widget_keys, parse_theme_mode, publish_manifest, set_manifest_always_on_top,
    set_manifest_visibility, widget_window_label, widget_window_url, MonitorBounds, WidgetType,
    WindowPosition, WindowSize,
};
use widget_overlay::{emit_global_event, get_custom_server_port, EventChannel, ServerConfig};

fn monitor(x: i32, y: i32, width: u32, height: u32) -> MonitorBounds {
    MonitorBounds {
        position: WindowPosition { x, y },
        size: WindowSize { width, height },
    }
}

#[test]
fn widget_type_defaults() {
    assert_eq!(default_widget_type(), WidgetType::Json);
    assert_eq!(default_widget_size(&WidgetType::Url), WindowSize { width: 520, height: 840 });
    assert_eq!(default_widget_size(&WidgetType::Json), WindowSize { width: 600, height: 400 });
    assert_eq!(default_widget_size(&WidgetType::Html), WindowSize { width: 600, height: 400 });
}

#[test]
fn position_on_some_monitor_is_kept() {
    let monitors = vec![monitor(0, 0, 1920, 1080), monitor(1920, 0, 1920, 1080)];
    let size = WindowSize { width: 600, height: 400 };

    // Fully on the second monitor.
    let position = WindowPosition { x: 2000, y: 100 };
    let kept = ensure_window_position_bounds(&monitors, Some(monitors[0]), position, size);
    assert_eq!(kept, position);
}

#[test]
fn offscreen_position_falls_back_near_the_primary_corner() {
    let monitors = vec![monitor(0, 0, 1920, 1080)];
    let size = WindowSize { width: 600, height: 400 };

    // Sticks out past the right edge.
    let position = WindowPosition { x: 1700, y: 100 };
    let moved = ensure_window_position_bounds(&monitors, Some(monitor(0, 0, 1920, 1080)), position, size);
    assert_eq!(moved, WindowPosition { x: 30, y: 30 });

    // Without a primary monitor the origin corner is used.
    let moved = ensure_window_position_bounds(&monitors, None, position, size);
    assert_eq!(moved, WindowPosition { x: 30, y: 30 });

    // A primary monitor away from the origin shifts the fallback.
    let moved = ensure_window_position_bounds(
        &monitors,
        Some(monitor(-1920, 200, 1920, 1080)),
        position,
        size,
    );
    assert_eq!(moved, WindowPosition { x: -1890, y: 230 });
}

fn fresh_manifest() -> ManifestDoc {
    ManifestDoc {
        key: Some(String::from("clock")),
        label: Some(String::from("Clock")),
        elements: Some(String::from("[]")),
        dimensions: Some(Dimensions { width: 600, height: 400 }),
        position: Some(WindowPosition { x: 10, y: 20 }),
        visible: Some(true),
        always_on_top: None,
        published: None,
        published_at: None,
    }
}

#[test]
fn publishing_marks_and_timestamps() {
    let mut manifest = fresh_manifest();
    publish_manifest(&mut manifest, None, 1_700_000_000_000);
    assert_eq!(manifest.published, Some(true));
    assert_eq!(manifest.published_at, Some(1_700_000_000_000));
    assert_eq!(manifest.visible, Some(true));
    assert_eq!(manifest.position, Some(WindowPosition { x: 10, y: 20 }));
}

#[test]
fn republishing_keeps_the_placed_copy_in_place() {
    let mut manifest = fresh_manifest();
    let mut placed = fresh_manifest();
    placed.visible = None;
    placed.dimensions = Some(Dimensions { width: 800, height: 600 });
    placed.position = Some(WindowPosition { x: 500, y: 500 });

    publish_manifest(&mut manifest, Some(&placed), 42);
    assert_eq!(manifest.published, Some(true));
    assert_eq!(manifest.published_at, Some(42));
    // Missing visibility on the placed copy defaults to hidden.
    assert_eq!(manifest.visible, Some(false));
    assert_eq!(manifest.dimensions, Some(Dimensions { width: 800, height: 600 }));
    assert_eq!(manifest.position, Some(WindowPosition { x: 500, y: 500 }));
}

#[test]
fn visibility_and_always_on_top_toggles() {
    let mut manifest = fresh_manifest();
    set_manifest_visibility(&mut manifest, false);
    assert_eq!(manifest.visible, Some(false));
    assert_eq!(manifest.key, Some(String::from("clock")));

    set_manifest_always_on_top(&mut manifest, true);
    assert_eq!(manifest.always_on_top, Some(true));
    assert_eq!(manifest.visible, Some(false));
}

#[test]
fn existing_keys_skip_the_edited_folder_and_duplicates() {
    let entries = vec![
        (String::from("/saves/one"), Some(String::from("clock"))),
        (String::from("/saves/two"), None),
        (String::from("/widgets/three"), Some(String::from("weather"))),
        (String::from("/widgets/four"), Some(String::from("clock"))),
        (String::from("/saves/current"), Some(String::from("draft"))),
    ];
    let keys = existing_widget_keys(&entries, &String::from("/saves/current"));
    assert_eq!(keys, vec![String::from("clock"), String::from("weather")]);
}

#[test]
fn widget_urls_follow_the_widget_kind() {
    let key = String::from("clock");
    assert_eq!(
        widget_window_url(&WidgetType::Url, Some(String::from("https://example.com")), &key, 8080),
        "https://example.com"
    );
    assert_eq!(widget_window_url(&WidgetType::Url, None, &key, 8080), "");
    assert_eq!(
        widget_window_url(&WidgetType::Html, None, &key, 8080),
        "http://localhost:8080/clock/index.html"
    );
    assert_eq!(widget_window_url(&WidgetType::Json, None, &key, 8080), "widget-index.html");
}

#[test]
fn widget_labels_mark_previews() {
    let key = String::from("clock");
    assert_eq!(widget_window_label(&key, false), "widget-clock");
    assert_eq!(widget_window_label(&key, true), "widget-preview-clock");
}

#[test]
fn theme_modes_parse_exactly() {
    assert_eq!(parse_theme_mode(&String::from("dark")), Some(true));
    assert_eq!(parse_theme_mode(&String::from("light")), Some(false));
    assert_eq!(parse_theme_mode(&String::from("auto")), None);
}

#[test]
fn network_speed_never_goes_negative() {
    assert_eq!(network_speed(1_000, 5_000), 4_000);
    assert_eq!(network_speed(1_000, 1_000), 0);
    // An interface reset makes the counter go backwards; the speed reads
    // as zero instead of wrapping.
    assert_eq!(network_speed(5_000, 1_000), 0);
}

#[test]
fn cpu_frequency_averages_truncating() {
    assert_eq!(average_cpu_frequency(&vec![3_600, 3_400]), 3_500);
    assert_eq!(average_cpu_frequency(&vec![1_000]), 1_000);
    assert_eq!(average_cpu_frequency(&vec![3, 4]), 3);
}

#[test]
fn event_channel_collects_emitted_events() {
    let mut channel = EventChannel::new();
    assert!(channel.pending.is_empty());
    emit_global_event(&mut channel, "media_updated");
    emit_global_event(&mut channel, "media_updated");
    assert_eq!(
        channel.pending,
        vec![String::from("media_updated"), String::from("media_updated")]
    );
}

#[test]
fn server_port_reads_back_once_set() {
    let config = ServerConfig { port: Some(8123) };
    assert_eq!(get_custom_server_port(&config), 8123);
}
