use widget_overlay::migration::{
    all_migration_names, apply_migration, is_known_migration, migrations_to_apply,
    parse_direction, rollback_candidate, Dimensions, Direction, ManifestDoc,
};
use widget_overlay::migrations::{FixLabelKey, UpdateBattery, UpdateWeather};
use widget_overlay::text::{capitalize_first_letter, decimal_string, sanitize_string};

fn doc(key: &str, label: &str) -> ManifestDoc {
    ManifestDoc {
        key: Some(String::from(key)),
        label: Some(String::from(label)),
        elements: Some(String::from("[]")),
        dimensions: None,
        position: None,
        visible: Some(true),
        always_on_top: None,
        published: None,
        published_at: None,
    }
}

#[test]
fn sanitize_lowercases_and_cleans() {
    assert_eq!(sanitize_string("My Widget!"), "my-widget");
    assert_eq!(sanitize_string("ABC"), "abc");
    assert_eq!(sanitize_string("clock_v2"), "clock_v2");
    assert_eq!(sanitize_string("a\tb c"), "a-b-c");
}

#[test]
fn sanitize_falls_back_to_a_timestamp_key() {
    // Nothing but hyphens survives, so the key becomes a decimal timestamp.
    for input in ["", "!!!", "  ", "---"] {
        let key = sanitize_string(input);
        assert!(!key.is_empty());
        assert!(key.chars().all(|c| c.is_ascii_digit()));
    }
}

#[test]
fn capitalize_first_letter_handles_edges() {
    assert_eq!(capitalize_first_letter("battery"), "Battery");
    assert_eq!(capitalize_first_letter("a"), "A");
    assert_eq!(capitalize_first_letter(""), "");
    assert_eq!(capitalize_first_letter("Already"), "Already");
}

#[test]
fn decimal_rendering_is_exact() {
    assert_eq!(decimal_string(0), "0");
    assert_eq!(decimal_string(7), "7");
    assert_eq!(decimal_string(1_234_567_890_123), "1234567890123");
}

#[test]
fn fix_label_key_repairs_key_and_label() {
    let mut manifest = doc("My Widget", "weather");
    FixLabelKey.up(&mut manifest);
    assert_eq!(manifest.key, Some(String::from("my-widget")));
    assert_eq!(manifest.label, Some(String::from("Weather")));
    assert_eq!(manifest.elements, Some(String::from("[]")));

    let mut manifest = doc("gpt", "GPT");
    FixLabelKey.up(&mut manifest);
    assert_eq!(manifest.label, Some(String::from("ChatGPT")));

    let mut manifest = doc("ram", "ram");
    FixLabelKey.up(&mut manifest);
    assert_eq!(manifest.label, Some(String::from("RAM")));

    let mut manifest = doc("datetime", "datetime");
    FixLabelKey.up(&mut manifest);
    assert_eq!(manifest.label, Some(String::from("Date & Time")));

    // A label outside the legacy set is left alone.
    let mut manifest = doc("clock", "My Clock");
    FixLabelKey.up(&mut manifest);
    assert_eq!(manifest.label, Some(String::from("My Clock")));
}

#[test]
fn update_weather_rewrites_only_the_weather_widget() {
    let mut manifest = doc("weather", "Weather");
    UpdateWeather.up(&mut manifest);
    let elements = manifest.elements.clone().unwrap();
    assert!(elements.contains("{{weather:temperature_celsius}}"));
    assert_eq!(manifest.dimensions, Some(Dimensions { width: 270, height: 100 }));
    assert_eq!(manifest.label, Some(String::from("Weather")));

    let mut other = doc("clock", "Clock");
    UpdateWeather.up(&mut other);
    assert_eq!(other, doc("clock", "Clock"));
}

#[test]
fn update_battery_rewrites_only_the_battery_widget() {
    let mut manifest = doc("battery", "Battery");
    UpdateBattery.up(&mut manifest);
    let elements = manifest.elements.clone().unwrap();
    assert!(elements.contains("{{system:battery_health}}"));
    assert_eq!(manifest.dimensions, Some(Dimensions { width: 315, height: 135 }));

    let mut other = doc("weather", "Weather");
    UpdateBattery.up(&mut other);
    assert_eq!(other, doc("weather", "Weather"));
}

#[test]
fn downgrades_change_nothing() {
    let mut manifest = doc("weather", "Weather");
    FixLabelKey.down(&mut manifest);
    UpdateWeather.down(&mut manifest);
    UpdateBattery.down(&mut manifest);
    assert_eq!(manifest, doc("weather", "Weather"));
}

#[test]
fn planning_skips_applied_migrations() {
    let names = all_migration_names();
    assert_eq!(names.len(), 3);

    let none_applied: Vec<String> = Vec::new();
    assert_eq!(migrations_to_apply(&none_applied), names);

    let first_applied = vec![names[0].clone()];
    assert_eq!(migrations_to_apply(&first_applied), vec![names[1].clone(), names[2].clone()]);

    assert_eq!(migrations_to_apply(&names), Vec::<String>::new());
}

#[test]
fn rollback_targets_the_most_recent_migration() {
    let empty: Vec<String> = Vec::new();
    assert_eq!(rollback_candidate(&empty), None);

    let applied = vec![String::from("20250910172425_fix_label_key"), String::from("stray")];
    assert_eq!(rollback_candidate(&applied), Some(String::from("stray")));
    assert!(!is_known_migration(&String::from("stray")));
    assert!(is_known_migration(&String::from("20250910172425_fix_label_key")));
}

#[test]
fn directions_parse_exactly() {
    assert_eq!(parse_direction(&String::from("up")), Some(Direction::Up));
    assert_eq!(parse_direction(&String::from("down")), Some(Direction::Down));
    assert_eq!(parse_direction(&String::from("sideways")), None);
}

#[test]
fn apply_migration_dispatches_by_name() {
    let mut manifest = doc("weather", "weather");
    apply_migration(
        &String::from("20260104194741_update_weather"),
        &mut manifest,
        Direction::Up,
    );
    assert_eq!(manifest.dimensions, Some(Dimensions { width: 270, height: 100 }));

    let mut untouched = doc("weather", "weather");
    apply_migration(&String::from("not_a_migration"), &mut untouched, Direction::Up);
    assert_eq!(untouched, doc("weather", "weather"));

    let mut down = doc("weather", "weather");
    apply_migration(
        &String::from("20260104194741_update_weather"),
        &mut down,
        Direction::Down,
    );
    assert_eq!(down, doc("weather", "weather"));
}
