//! Widget-window rules that need no window: the widget kinds and their
//! default sizes, keeping a remembered window position on some monitor,
//! the manifest rewrites behind publishing and visibility toggles, and the
//! parsing of a blur-theme mode.
//!
//! Creating, moving and decorating the actual windows is the I/O shell's
//! work; it asks these functions what to do.

use vstd::prelude::*;

use crate::migration::ManifestDoc;
use crate::text::{decimal_digits, decimal_string};

verus! {

/// How a widget is rendered.
#[derive(Clone, Copy, PartialEq, Eq, Structural, Debug)]
pub enum WidgetType {
    Json,
    Url,
    Html,
}

/// The widget kind a manifest gets when it names none.
pub fn default_widget_type() -> (r: WidgetType)
    ensures
        r == WidgetType::Json,
{
    WidgetType::Json
}

/// A window position in physical pixels.
#[derive(Clone, Copy, PartialEq, Eq, Structural, Debug)]
pub struct WindowPosition {
    pub x: i32,
    pub y: i32,
}

/// A window size in physical pixels.
#[derive(Clone, Copy, PartialEq, Eq, Structural, Debug)]
pub struct WindowSize {
    pub width: u32,
    pub height: u32,
}

/// One monitor's area: its top-left corner and its size.
#[derive(Clone, Copy, PartialEq, Eq, Structural, Debug)]
pub struct MonitorBounds {
    pub position: WindowPosition,
    pub size: WindowSize,
}

/// The window size a widget gets when its manifest names none.
pub open spec fn default_size_of(widget_type: WidgetType) -> WindowSize {
    if widget_type is Url {
        WindowSize { width: 520, height: 840 }
    } else {
        WindowSize { width: 600, height: 400 }
    }
}

pub fn default_widget_size(widget_type: &WidgetType) -> (r: WindowSize)
    ensures
        r == default_size_of(*widget_type),
{
    match widget_type {
        WidgetType::Url => WindowSize { width: 520, height: 840 },
        _ => WindowSize { width: 600, height: 400 },
    }
}

/// Whether a window at this position, of this size, lies entirely within
/// the monitor's area.
pub open spec fn window_within(
    monitor: MonitorBounds,
    position: WindowPosition,
    size: WindowSize,
) -> bool {
    &&& position.x >= monitor.position.x
    &&& position.y >= monitor.position.y
    &&& position.x + size.width <= monitor.position.x + monitor.size.width
    &&& position.y + size.height <= monitor.position.y + monitor.size.height
}

/// Keep a remembered window position only if the whole window still lies on
/// some monitor; otherwise fall back to a spot near the primary monitor's
/// corner, or near the origin when no primary monitor is known.
pub fn ensure_window_position_bounds(
    monitors: &Vec<MonitorBounds>,
    primary: Option<MonitorBounds>,
    position: WindowPosition,
    size: WindowSize,
) -> (r: WindowPosition)
    requires
        primary is Some ==> primary->0.position.x + 30 <= i32::MAX && primary->0.position.y + 30
            <= i32::MAX,
    ensures
        (exists|i: int|
            0 <= i < monitors@.len() && window_within(#[trigger] monitors@[i], position, size))
            ==> r == position,
        !(exists|i: int|
            0 <= i < monitors@.len() && window_within(#[trigger] monitors@[i], position, size))
            ==> r == (match primary {
            Some(m) => WindowPosition {
                x: (m.position.x + 30) as i32,
                y: (m.position.y + 30) as i32,
            },
            None => WindowPosition { x: 30, y: 30 },
        }),
{
    let n = monitors.len();
    let mut i: usize = 0;
    #[verifier::loop_isolation(false)]
    while i < n
        invariant
            0 <= i <= n,
            forall|j: int| 0 <= j < i ==> !window_within(#[trigger] monitors@[j], position, size),
        decreases n - i,
    {
        let monitor = &monitors[i];
        let win_x = position.x as i64;
        let win_y = position.y as i64;
        let win_right = win_x + size.width as i64;
        let win_bottom = win_y + size.height as i64;
        let mon_x = monitor.position.x as i64;
        let mon_y = monitor.position.y as i64;
        let mon_right = mon_x + monitor.size.width as i64;
        let mon_bottom = mon_y + monitor.size.height as i64;
        if win_x >= mon_x && win_y >= mon_y && win_right <= mon_right && win_bottom <= mon_bottom {
            proof {
                assert(window_within(monitors@[i as int], position, size));
            }
            return position;
        }
        i += 1;
    }
    match primary {
        Some(m) => WindowPosition { x: m.position.x + 30, y: m.position.y + 30 },
        None => WindowPosition { x: 30, y: 30 },
    }
}

/// Whether some saved or published widget, other than the one being edited,
/// already uses this key. Each element pairs a widget folder with the key
/// its manifest declares, if any.
pub open spec fn key_taken(
    entries: Seq<(Seq<char>, Option<Seq<char>>)>,
    current_folder: Seq<char>,
    key: Seq<char>,
) -> bool {
    exists|i: int|
        0 <= i < entries.len() && (#[trigger] entries[i]).0 != current_folder && entries[i].1
            == Some(key)
}

/// The keys already in use by other widgets, for the editor to refuse:
/// exactly the keys declared by some widget outside the folder being
/// edited, each once.
#[verifier::loop_isolation(false)]
pub fn existing_widget_keys(
    entries: &Vec<(String, Option<String>)>,
    current_folder: &String,
) -> (keys: Vec<String>)
    ensures
        forall|i: int|
            0 <= i < keys.deep_view().len() ==> key_taken(
                entries.deep_view(),
                current_folder@,
                #[trigger] keys.deep_view()[i],
            ),
        forall|k: Seq<char>|
            key_taken(entries.deep_view(), current_folder@, k) ==> keys.deep_view().contains(k),
        forall|i: int, j: int|
            0 <= i < j < keys.deep_view().len() ==> keys.deep_view()[i] != keys.deep_view()[j],
{
    let ghost all = entries.deep_view();
    let n = entries.len();
    let mut keys: Vec<String> = Vec::new();
    let mut i: usize = 0;
    while i < n
        invariant
            0 <= i <= n,
            forall|x: int|
                0 <= x < keys.deep_view().len() ==> key_taken(
                    all.take(i as int),
                    current_folder@,
                    #[trigger] keys.deep_view()[x],
                ),
            forall|k: Seq<char>|
                key_taken(all.take(i as int), current_folder@, k) ==> keys.deep_view().contains(k),
            forall|x: int, y: int|
                0 <= x < y < keys.deep_view().len() ==> keys.deep_view()[x] != keys.deep_view()[y],
        decreases n - i,
    {
        let ghost keys0 = keys.deep_view();
        proof {
            assert(all.take(i + 1)[i as int] == all[i as int]);
            assert forall|x: int|
                0 <= x < keys0.len() implies key_taken(
                all.take(i + 1),
                current_folder@,
                #[trigger] keys0[x],
            ) by {
                let j = choose|j: int|
                    0 <= j < all.take(i as int).len() && (#[trigger] all.take(i as int)[j]).0
                        != current_folder@ && all.take(i as int)[j].1 == Some(keys0[x]);
                assert(all.take(i + 1)[j] == all.take(i as int)[j]);
            }
        }
        let (folder, key) = &entries[i];
        if *folder != *current_folder {
            if let Some(key) = key {
                if !crate::text::string_list_contains(&keys, key) {
                    keys.push(key.clone());
                    proof {
                        assert(keys.deep_view() =~= keys0.push(key@));
                        assert((all[i as int]).0 != current_folder@ && (all[i as int]).1 == Some(
                            key@,
                        ));
                        assert(keys.deep_view()[keys0.len() as int] == key@);
                    }
                }
            }
        }
        proof {
            assert forall|x: int| 0 <= x < keys0.len() implies keys.deep_view()[x] == keys0[x] by {}
            assert forall|k: Seq<char>|
                key_taken(all.take(i + 1), current_folder@, k) implies keys.deep_view().contains(
                k,
            ) by {
                let j = choose|j: int|
                    0 <= j < all.take(i + 1).len() && (#[trigger] all.take(i + 1)[j]).0
                        != current_folder@ && all.take(i + 1)[j].1 == Some(k);
                if j < i as int {
                    assert(all.take(i as int)[j] == all.take(i + 1)[j]);
                    assert(key_taken(all.take(i as int), current_folder@, k));
                    assert(keys0.contains(k));
                    let x = choose|x: int| 0 <= x < keys0.len() && keys0[x] == k;
                    assert(keys.deep_view()[x] == k);
                } else {
                    assert((all[i as int]).0 != current_folder@ && (all[i as int]).1 == Some(k));
                    if keys.deep_view().len() > keys0.len() {
                        assert(keys.deep_view()[keys0.len() as int] == k);
                    } else {
                        assert(keys0.contains(k));
                        let x = choose|x: int| 0 <= x < keys0.len() && keys0[x] == k;
                        assert(keys.deep_view()[x] == k);
                    }
                }
            }
        }
        i += 1;
    }
    proof {
        assert(all.take(n as int) =~= all);
    }
    keys
}

/// The URL a widget window loads: a URL widget loads its manifest's URL
/// (empty where it names none), an HTML widget loads its folder from the
/// localhost asset server, and a JSON widget loads the built-in renderer
/// page.
pub open spec fn widget_url_text(
    widget_type: WidgetType,
    url: Option<Seq<char>>,
    manifest_key: Seq<char>,
    port: u16,
) -> Seq<char> {
    match widget_type {
        WidgetType::Url => match url {
            Some(u) => u,
            None => Seq::empty(),
        },
        WidgetType::Html => "http://localhost:"@ + decimal_digits(port as nat) + "/"@
            + manifest_key + "/index.html"@,
        WidgetType::Json => "widget-index.html"@,
    }
}

pub fn widget_window_url(
    widget_type: &WidgetType,
    url: Option<String>,
    manifest_key: &String,
    port: u16,
) -> (r: String)
    ensures
        r@ == widget_url_text(*widget_type, url.deep_view(), manifest_key@, port),
{
    match widget_type {
        WidgetType::Url => match url {
            Some(u) => u,
            None => String::new(),
        },
        WidgetType::Html => {
            let mut built = "http://localhost:".to_owned();
            let rendered_port = decimal_string(port as u128);
            built.append(rendered_port.as_str());
            built.append("/");
            built.append(manifest_key.as_str());
            built.append("/index.html");
            proof {
                assert(built@ =~= widget_url_text(
                    *widget_type,
                    url.deep_view(),
                    manifest_key@,
                    port,
                ));
            }
            built
        },
        WidgetType::Json => "widget-index.html".to_owned(),
    }
}

/// The label a widget window runs under: the widget prefix, a preview mark
/// for preview windows, and the manifest key.
pub open spec fn widget_label_text(manifest_key: Seq<char>, is_preview: bool) -> Seq<char> {
    if is_preview {
        "widget-preview-"@ + manifest_key
    } else {
        "widget-"@ + manifest_key
    }
}

pub fn widget_window_label(manifest_key: &String, is_preview: bool) -> (r: String)
    ensures
        r@ == widget_label_text(manifest_key@, is_preview),
{
    let mut built = if is_preview {
        "widget-preview-".to_owned()
    } else {
        "widget-".to_owned()
    };
    built.append(manifest_key.as_str());
    built
}

/// The visibility a published manifest carries over; missing reads as
/// hidden.
pub open spec fn visible_or_hidden(doc: &ManifestDoc) -> bool {
    match doc.visible {
        Some(v) => v,
        None => false,
    }
}

/// How a manifest looks once published: marked published with the given
/// timestamp; when an already-published copy exists, its visibility,
/// dimensions and position are carried over — publishing again must not
/// move or reveal a placed widget — with hidden as the default visibility.
pub open spec fn publish_applied(
    pre: ManifestDoc,
    previous: Option<&ManifestDoc>,
    published_time: u128,
    post: ManifestDoc,
) -> bool {
    &&& post.key == pre.key
    &&& post.label == pre.label
    &&& post.elements == pre.elements
    &&& post.always_on_top == pre.always_on_top
    &&& post.published == Some(true)
    &&& post.published_at == Some(published_time)
    &&& (match previous {
        Some(p) => post.visible == Some(visible_or_hidden(p)) && post.dimensions == p.dimensions
            && post.position == p.position,
        None => post.visible == pre.visible && post.dimensions == pre.dimensions && post.position
            == pre.position,
    })
}

/// Rewrite a manifest for publication; `previous` is the manifest already
/// published under the same key, if one exists.
pub fn publish_manifest(
    config: &mut ManifestDoc,
    previous: Option<&ManifestDoc>,
    published_time: u128,
)
    ensures
        publish_applied(*old(config), previous, published_time, *final(config)),
{
    config.published = Some(true);
    config.published_at = Some(published_time);
    match previous {
        Some(p) => {
            config.visible = Some(
                match p.visible {
                    Some(v) => v,
                    None => false,
                },
            );
            config.dimensions = p.dimensions;
            config.position = p.position;
        },
        None => {},
    }
}

/// The fields a visibility toggle leaves alone.
pub open spec fn same_but_visible(pre: ManifestDoc, post: ManifestDoc) -> bool {
    &&& post.key == pre.key
    &&& post.label == pre.label
    &&& post.elements == pre.elements
    &&& post.dimensions == pre.dimensions
    &&& post.position == pre.position
    &&& post.always_on_top == pre.always_on_top
    &&& post.published == pre.published
    &&& post.published_at == pre.published_at
}

/// Record whether the widget is shown.
pub fn set_manifest_visibility(config: &mut ManifestDoc, visibility: bool)
    ensures
        final(config).visible == Some(visibility),
        same_but_visible(*old(config), *final(config)),
{
    config.visible = Some(visibility);
}

/// The fields an always-on-top toggle leaves alone.
pub open spec fn same_but_always_on_top(pre: ManifestDoc, post: ManifestDoc) -> bool {
    &&& post.key == pre.key
    &&& post.label == pre.label
    &&& post.elements == pre.elements
    &&& post.dimensions == pre.dimensions
    &&& post.position == pre.position
    &&& post.visible == pre.visible
    &&& post.published == pre.published
    &&& post.published_at == pre.published_at
}

/// Record whether the widget floats above other windows.
pub fn set_manifest_always_on_top(config: &mut ManifestDoc, value: bool)
    ensures
        final(config).always_on_top == Some(value),
        same_but_always_on_top(*old(config), *final(config)),
{
    config.always_on_top = Some(value);
}

/// The dark-or-light flag a blur-theme mode names: dark is true, light is
/// false, anything else names no theme.
pub open spec fn theme_mode_of(mode: Seq<char>) -> Option<bool> {
    if mode == "dark"@ {
        Some(true)
    } else if mode == "light"@ {
        Some(false)
    } else {
        None
    }
}

pub fn parse_theme_mode(mode: &String) -> (r: Option<bool>)
    ensures
        r == theme_mode_of(mode@),
{
    if *mode == "dark".to_owned() {
        Some(true)
    } else if *mode == "light".to_owned() {
        Some(false)
    } else {
        None
    }
}

} // verus!
