//! The widget-manifest migration framework: the manifest fields migrations
//! read and rewrite, the direction of a run, and the planning rules — which
//! migrations an upgrade still has to run, and which one a rollback undoes.
//!
//! Reading a manifest file into a [`ManifestDoc`] and writing it back is
//! the I/O shell's work; every decision and every rewrite is verified here
//! and in the individual migrations.

use vstd::prelude::*;

use crate::migrations::{
    fix_label_key_applied, update_battery_applied, update_weather_applied, FixLabelKey,
    UpdateBattery, UpdateWeather,
};
use crate::text::string_list_contains;
use crate::widget::WindowPosition;

verus! {

/// Whether a run applies migrations or rolls the last one back.
#[derive(Clone, Copy, PartialEq, Eq, Structural, Debug)]
pub enum Direction {
    Up,
    Down,
}

/// Pixel dimensions of a widget.
#[derive(Clone, Copy, PartialEq, Eq, Structural, Debug)]
pub struct Dimensions {
    pub width: u64,
    pub height: u64,
}

/// The manifest fields this crate reads or rewrites; each is absent where
/// the manifest file lacks it. The elements field carries the widget's
/// element tree as its JSON text.
#[derive(PartialEq, Eq, Debug)]
pub struct ManifestDoc {
    pub key: Option<String>,
    pub label: Option<String>,
    pub elements: Option<String>,
    pub dimensions: Option<Dimensions>,
    pub position: Option<WindowPosition>,
    pub visible: Option<bool>,
    pub always_on_top: Option<bool>,
    pub published: Option<bool>,
    pub published_at: Option<u128>,
}

/// The fields the key-and-label repair leaves alone.
pub open spec fn same_but_key_label(pre: ManifestDoc, post: ManifestDoc) -> bool {
    &&& post.elements == pre.elements
    &&& post.dimensions == pre.dimensions
    &&& post.position == pre.position
    &&& post.visible == pre.visible
    &&& post.always_on_top == pre.always_on_top
    &&& post.published == pre.published
    &&& post.published_at == pre.published_at
}

/// The fields the widget reworks leave alone.
pub open spec fn same_but_elements_dimensions(pre: ManifestDoc, post: ManifestDoc) -> bool {
    &&& post.key == pre.key
    &&& post.label == pre.label
    &&& post.position == pre.position
    &&& post.visible == pre.visible
    &&& post.always_on_top == pre.always_on_top
    &&& post.published == pre.published
    &&& post.published_at == pre.published_at
}

/// The key a manifest is judged by; a missing key reads as empty.
pub open spec fn doc_key_text(doc: ManifestDoc) -> Seq<char> {
    match doc.key {
        Some(s) => s@,
        None => Seq::empty(),
    }
}

/// The label a manifest is judged by; a missing label reads as empty.
pub open spec fn doc_label_text(doc: ManifestDoc) -> Seq<char> {
    match doc.label {
        Some(s) => s@,
        None => Seq::empty(),
    }
}

/// Every migration this crate knows, oldest first.
pub open spec fn all_migration_names_text() -> Seq<Seq<char>> {
    seq![
        "20250910172425_fix_label_key"@,
        "20260104194741_update_weather"@,
        "20260104194931_update_battery"@,
    ]
}

pub fn all_migration_names() -> (names: Vec<String>)
    ensures
        names.deep_view() == all_migration_names_text(),
{
    let mut names: Vec<String> = Vec::new();
    names.push("20250910172425_fix_label_key".to_owned());
    names.push("20260104194741_update_weather".to_owned());
    names.push("20260104194931_update_battery".to_owned());
    proof {
        assert(names.deep_view() =~= all_migration_names_text());
    }
    names
}

/// Holds of a migration name that the given state has not applied yet.
pub open spec fn unapplied_pred(applied: Seq<Seq<char>>) -> spec_fn(Seq<char>) -> bool {
    |name: Seq<char>| !applied.contains(name)
}

/// The migrations an upward run still has to apply, oldest first: every
/// known migration whose name is not recorded as applied.
#[verifier::loop_isolation(false)]
pub fn migrations_to_apply(applied: &Vec<String>) -> (run: Vec<String>)
    ensures
        run.deep_view() == all_migration_names_text().filter(unapplied_pred(applied.deep_view())),
{
    let names = all_migration_names();
    let ghost pred = unapplied_pred(applied.deep_view());
    let n = names.len();
    let mut run: Vec<String> = Vec::new();
    let mut i: usize = 0;
    while i < n
        invariant
            0 <= i <= n,
            run.deep_view() == names.deep_view().take(i as int).filter(pred),
        decreases n - i,
    {
        proof {
            reveal(Seq::filter);
            assert(names.deep_view().take(i + 1).drop_last() =~= names.deep_view().take(i as int));
            assert(names.deep_view().take(i + 1).last() == names.deep_view()[i as int]);
        }
        if !string_list_contains(applied, &names[i]) {
            let ghost prev = run.deep_view();
            run.push(names[i].clone());
            proof {
                assert(run.deep_view() =~= prev.push(names.deep_view()[i as int]));
            }
        }
        i += 1;
    }
    proof {
        assert(names.deep_view().take(n as int) =~= names.deep_view());
    }
    run
}

/// The migration a downward run rolls back: the one most recently recorded
/// as applied, or nothing where none ever was. The caller pops it from the
/// state it persists.
pub fn rollback_candidate(applied: &Vec<String>) -> (r: Option<String>)
    ensures
        match r {
            Some(name) => applied@.len() > 0 && name@ == applied.deep_view().last(),
            None => applied@.len() == 0,
        },
{
    if applied.len() == 0 {
        None
    } else {
        Some(applied[applied.len() - 1].clone())
    }
}

/// Whether a recorded name denotes a migration this crate knows; rolling
/// back an unknown name removes it from the state but touches no manifest.
pub fn is_known_migration(name: &String) -> (r: bool)
    ensures
        r == all_migration_names_text().contains(name@),
{
    let names = all_migration_names();
    string_list_contains(&names, name)
}

/// The direction a run request names, if any.
pub open spec fn direction_of(direction: Seq<char>) -> Option<Direction> {
    if direction == "up"@ {
        Some(Direction::Up)
    } else if direction == "down"@ {
        Some(Direction::Down)
    } else {
        None
    }
}

/// Parse a run request's direction; anything but "up" or "down" is
/// invalid and refused.
pub fn parse_direction(direction: &String) -> (r: Option<Direction>)
    ensures
        r == direction_of(direction@),
{
    if *direction == "up".to_owned() {
        Some(Direction::Up)
    } else if *direction == "down".to_owned() {
        Some(Direction::Down)
    } else {
        None
    }
}

/// Apply one migration, by name, to one manifest in the given direction.
/// An unknown name changes nothing; no migration defines a rollback, so a
/// downward run changes nothing either.
pub fn apply_migration(name: &String, doc: &mut ManifestDoc, direction: Direction)
    ensures
        (match direction {
            Direction::Up => {
                if name@ == "20250910172425_fix_label_key"@ {
                    fix_label_key_applied(*old(doc), *final(doc))
                } else if name@ == "20260104194741_update_weather"@ {
                    update_weather_applied(*old(doc), *final(doc))
                } else if name@ == "20260104194931_update_battery"@ {
                    update_battery_applied(*old(doc), *final(doc))
                } else {
                    *final(doc) == *old(doc)
                }
            },
            Direction::Down => *final(doc) == *old(doc),
        }),
{
    match direction {
        Direction::Up => {
            if *name == "20250910172425_fix_label_key".to_owned() {
                FixLabelKey.up(doc);
            } else if *name == "20260104194741_update_weather".to_owned() {
                UpdateWeather.up(doc);
            } else if *name == "20260104194931_update_battery".to_owned() {
                UpdateBattery.up(doc);
            }
        },
        Direction::Down => {
            if *name == "20250910172425_fix_label_key".to_owned() {
                FixLabelKey.down(doc);
            } else if *name == "20260104194741_update_weather".to_owned() {
                UpdateWeather.down(doc);
            } else if *name == "20260104194931_update_battery".to_owned() {
                UpdateBattery.down(doc);
            }
        },
    }
}

} // verus!
