use std::path::{Path, PathBuf};

use gartray::config::TrayConfig;
use gartray::tray::icons::{
    argb_to_bgra, argb_to_cairo_bgra, eq_ignore_ascii_case, first_existing, first_marked, icon_format,
    path_extension, premultiply_channel, rgba_to_cairo_bgra, swap_red_blue,
    theme_icon_candidates, IconData, IconFormat,
};
use gartray::tray::menu::{
    layout_from_dbus, menu_from_dbus, menu_from_layout, menu_item_from_properties, menu_summary,
    strip_mnemonics, DbusValue, MenuClient, MenuItem, MenuLayout,
};
use gartray::tray::menu_popup::{
    calculate_size, click_action, hit_test, key_action, layout_item_rects, menu_position,
    menu_event, move_hover, ItemRect, MenuAction, PopupEvent,
};
use gartray::tray::renderer::{
    hit_test_positions, parse_color, CachedIcon, IconCache, SniIconPosition, TrayRenderer,
};
use gartray::tray::sni::host::parse_service;
use gartray::tray::sni::item::{choose_pixmap, needs_pixmap, scroll_orientation, SniItem};
use gartray::tray::xembed::{
    corner, select_monitor, tray_position, Corner, MonitorInfo, TrayButtonEvent, TrayEvent,
    TrayIds, TrayReaction, XEmbedIcons,
};

// ---------------------------------------------------------------------
// Icons
// ---------------------------------------------------------------------

fn float_premultiply(c: u8, a: u8) -> u8 {
    let af = a as f32 / 255.0;
    (c as f32 * af).round() as u8
}

#[test]
fn premultiply_matches_float_rounding() {
    for a in 0..=255u8 {
        for c in 0..=255u8 {
            assert_eq!(premultiply_channel(c, a), float_premultiply(c, a), "c={} a={}", c, a);
            assert!(premultiply_channel(c, a) <= a);
        }
        assert_eq!(premultiply_channel(a, 255), a);
        assert_eq!(premultiply_channel(a, 0), 0);
    }
}

#[test]
fn argb_conversion() {
    let data = [255u8, 10, 20, 30, 128, 255, 0, 100, 0, 200, 200, 200, 7, 7];
    let mut expected = Vec::new();
    for px in data.chunks_exact(4) {
        let a = px[0];
        expected.extend_from_slice(&[
            float_premultiply(px[3], a),
            float_premultiply(px[2], a),
            float_premultiply(px[1], a),
            a,
        ]);
    }
    assert_eq!(argb_to_cairo_bgra(&data), expected);
    assert_eq!(argb_to_bgra(&data), expected);
    assert_eq!(&argb_to_cairo_bgra(&data)[0..4], &[30, 20, 10, 255]);
    assert!(argb_to_cairo_bgra(&[1, 2, 3]).is_empty());
}

#[test]
fn rgba_conversion_and_channel_swap() {
    let data = [10u8, 20, 30, 255, 255, 0, 100, 128];
    assert_eq!(rgba_to_cairo_bgra(&data), vec![30, 20, 10, 255, 50, 0, 128, 128]);
    let mut d = vec![1u8, 2, 3, 4, 5, 6, 7, 8, 9];
    swap_red_blue(&mut d);
    assert_eq!(d, vec![3, 2, 1, 4, 7, 6, 5, 8, 9]);
}

#[test]
fn icon_sources() {
    assert!(matches!(IconData::from_sni(Some("nm-applet"), None), IconData::ThemeName(n) if n == "nm-applet"));
    assert!(matches!(
        IconData::from_sni(Some(""), Some((2, 1, vec![1, 2, 3, 4, 5, 6, 7, 8]))),
        IconData::Pixmap { width: 2, height: 1, .. }
    ));
    assert!(matches!(IconData::from_sni(None, None), IconData::Placeholder));
}

#[test]
fn extensions_match_std() {
    let paths = [
        "a.svg", "/usr/share/icons/x.PNG", "noext", ".bashrc", ".hidden.png", "dir.d/file",
        "file.", "a.b.c", "/", "", "..", "x/..", "x/.", "foo.txt/.", "foo.txt/.//", "./",
        "trailing/", "a.tar.gz", "...", "x/y.jpeg/", "é.svg",
    ];
    for p in paths {
        let expected = Path::new(p).extension().map(|e| e.to_str().unwrap().to_string());
        assert_eq!(path_extension(p), expected, "extension of {:?}", p);
    }
}

#[test]
fn icon_formats() {
    assert_eq!(icon_format("a.svg"), Ok(IconFormat::Svg));
    assert_eq!(icon_format("a.SVG"), Ok(IconFormat::Svg));
    assert_eq!(icon_format("b.png"), Ok(IconFormat::Raster));
    assert_eq!(icon_format("c.JPeg"), Ok(IconFormat::Raster));
    assert_eq!(icon_format("d.jpg"), Ok(IconFormat::Raster));
    assert_eq!(icon_format("e.gif"), Err("Unsupported icon format: gif".to_string()));
    assert_eq!(icon_format("noext"), Err("Unsupported icon format: ".to_string()));
    assert!(eq_ignore_ascii_case("SvG", "svg"));
    assert!(!eq_ignore_ascii_case("svgz", "svg"));
}

#[test]
fn loading_icon_files() {
    let r = IconData::load_from_file("x.gif", Ok((1, 1, vec![0, 0, 0, 0])));
    assert!(matches!(r, Err(e) if e == "Unsupported icon format: gif"));
    let r = IconData::load_from_file("x.png", Err("Failed to open image: x.png".to_string()));
    assert!(matches!(r, Err(e) if e == "Failed to open image: x.png"));
    let r = IconData::load_from_file("x.svg", Ok((2, 3, vec![9; 24])));
    assert!(matches!(r, Ok(IconData::Pixmap { width: 2, height: 3, data }) if data.len() == 24));
}

fn reference_candidates(data: Option<&str>, home: Option<&str>, name: &str, size: u32) -> Vec<String> {
    let dirs = [
        data.map(|p| PathBuf::from(p).join("icons")),
        home.map(|p| PathBuf::from(p).join(".local/share/icons")),
        Some(PathBuf::from("/usr/share/icons")),
        Some(PathBuf::from("/usr/share/pixmaps")),
    ];
    let themes = ["Adwaita", "breeze", "Papirus", "hicolor"];
    let sizes = [size, 48, 32, 24, 22, 16];
    let categories = ["apps", "status", "devices", "actions", "places"];
    let mut out = Vec::new();
    for dir in dirs.iter().flatten() {
        for theme in &themes {
            for category in &categories {
                out.push(dir.join(theme).join("scalable").join(category).join(format!("{}.svg", name)));
                out.push(dir.join(theme).join("scalable").join(category).join(format!("{}-symbolic.svg", name)));
            }
            for &sz in &sizes {
                for category in &categories {
                    out.push(dir.join(theme).join(format!("{}x{}", sz, sz)).join(category).join(format!("{}.png", name)));
                }
            }
        }
    }
    out.push(PathBuf::from(format!("/usr/share/pixmaps/{}.svg", name)));
    out.push(PathBuf::from(format!("/usr/share/pixmaps/{}.png", name)));
    out.into_iter().map(|p| p.to_str().unwrap().to_string()).collect()
}

#[test]
fn theme_icon_search_order() {
    let c = theme_icon_candidates(Some("/home/a/.local/share"), Some("/home/a"), "nm-applet", 24);
    assert_eq!(c.len(), 4 * 4 * 40 + 2);
    assert_eq!(c[0], "/home/a/.local/share/icons/Adwaita/scalable/apps/nm-applet.svg");
    assert_eq!(c[1], "/home/a/.local/share/icons/Adwaita/scalable/apps/nm-applet-symbolic.svg");
    assert_eq!(c[10], "/home/a/.local/share/icons/Adwaita/24x24/apps/nm-applet.png");
    assert_eq!(c[c.len() - 1], "/usr/share/pixmaps/nm-applet.png");
    assert_eq!(c, reference_candidates(Some("/home/a/.local/share"), Some("/home/a"), "nm-applet", 24));
    assert_eq!(theme_icon_candidates(None, None, "x", 16), reference_candidates(None, None, "x", 16));
    assert_eq!(theme_icon_candidates(None, None, "x", 16).len(), 2 * 4 * 40 + 2);
}

#[test]
fn first_existing_path() {
    let paths = vec!["/nonexistent/gartray/a.png".to_string(), "/".to_string()];
    assert_eq!(first_existing(&paths), Some("/".to_string()));
    assert_eq!(first_existing(&vec!["/nonexistent/gartray/b.png".to_string()]), None);
}

#[test]
fn first_marked_path() {
    let paths = vec!["a".to_string(), "b".to_string(), "c".to_string()];
    assert_eq!(first_marked(&paths, &vec![false, true, true]), Some("b".to_string()));
    assert_eq!(first_marked(&paths, &vec![false, false]), None);
    assert_eq!(first_marked(&paths, &vec![]), None);
    assert_eq!(first_marked(&vec![], &vec![true]), None);
}

#[test]
fn missing_theme_icon() {
    assert_eq!(IconData::find_theme_icon("no-such-icon-for-gartray-tests", 24), None);
}

// ---------------------------------------------------------------------
// Menus
// ---------------------------------------------------------------------

fn item(id: i32, label: Option<&str>, item_type: Option<&str>, enabled: bool, children: Vec<MenuItem>) -> MenuItem {
    menu_item_from_properties(
        id,
        label,
        None,
        Some(enabled),
        None,
        item_type.map(|t| t.to_string()),
        None,
        None,
        children,
    )
}

#[test]
fn menu_items_from_properties() {
    assert_eq!(strip_mnemonics("_File _Edit"), "File Edit");
    let hidden = menu_item_from_properties(2, None, None, None, Some(false), None, None, None, vec![]);
    let shown = item(3, Some("_Quit"), None, true, vec![]);
    let m = menu_item_from_properties(
        1,
        Some("Root"),
        Some("icon".to_string()),
        None,
        None,
        None,
        Some("".to_string()),
        Some(1),
        vec![hidden, shown],
    );
    assert_eq!(m.children.len(), 1);
    assert_eq!(m.children[0].label, Some("Quit".to_string()));
    assert_eq!(m.item_type, "standard");
    assert!(m.enabled && m.visible);
    assert_eq!(m.toggle_type, None);
    assert_eq!(m.toggle_state, 1);
}

#[test]
fn menu_summary_text() {
    let child = menu_item_from_properties(
        5,
        Some("Mute"),
        None,
        Some(false),
        None,
        None,
        Some("checkmark".to_string()),
        Some(1),
        vec![],
    );
    let root = menu_item_from_properties(0, None, None, None, None, None, None, None, vec![child]);
    assert_eq!(
        menu_summary(&root, 0),
        "[0] (no label) (type=standard, enabled=true, toggle=None:0)\n  [5] Mute (type=standard, enabled=false, toggle=Some(\"checkmark\"):1)\n"
    );
}

#[test]
fn menu_client_requests() {
    let c = MenuClient::new(":1.42", "/MenuBar");
    assert_eq!(c.bus_name, ":1.42");
    let r = c.layout_request();
    assert_eq!(r.parent_id, 0);
    assert_eq!(r.recursion_depth, -1);
    assert_eq!(
        r.property_names,
        vec!["type", "label", "enabled", "visible", "icon-name", "toggle-type", "toggle-state", "children-display"]
    );
    let e = c.click(7);
    assert_eq!((e.id, e.event_id.as_str(), e.data, e.timestamp), (7, "clicked", 0, 0));
}

fn sample_menu() -> Vec<MenuItem> {
    vec![
        item(1, Some("Open"), None, true, vec![]),
        item(2, None, Some("separator"), true, vec![]),
        item(3, Some("Disabled"), None, false, vec![]),
        item(4, Some("More"), None, true, vec![item(9, Some("x"), None, true, vec![])]),
    ]
}

#[test]
fn menu_layout_and_size() {
    let items = sample_menu();
    let rects = layout_item_rects(&items);
    assert_eq!(
        rects,
        vec![
            ItemRect { y: 4, height: 28, item_id: 1, has_submenu: false, enabled: true },
            ItemRect { y: 32, height: 8, item_id: 2, has_submenu: false, enabled: false },
            ItemRect { y: 40, height: 28, item_id: 3, has_submenu: false, enabled: false },
            ItemRect { y: 68, height: 28, item_id: 4, has_submenu: true, enabled: true },
        ]
    );
    assert_eq!(calculate_size(&items), (150, 100));
    let long = vec![item(1, Some("A rather long menu label here"), None, true, vec![])];
    assert_eq!(calculate_size(&long), (29 * 8 + 24 + 40, 36));
    assert_eq!(calculate_size(&vec![]), (150, 20));
}

#[test]
fn menu_clicks_and_keys() {
    let rects = layout_item_rects(&sample_menu());
    assert_eq!(hit_test(&rects, 3), None);
    assert_eq!(hit_test(&rects, 4), Some(0));
    assert_eq!(hit_test(&rects, 31), Some(0));
    assert_eq!(hit_test(&rects, 32), Some(1));
    assert_eq!(click_action(&rects, 10, 1), MenuAction::ItemClicked(1));
    assert_eq!(click_action(&rects, 35, 1), MenuAction::Nothing);
    assert_eq!(click_action(&rects, 50, 1), MenuAction::Nothing);
    assert_eq!(click_action(&rects, 70, 1), MenuAction::SubmenuOpened(4));
    assert_eq!(click_action(&rects, 70, 3), MenuAction::Dismissed);
    assert_eq!(click_action(&rects, 70, 2), MenuAction::Nothing);
    assert_eq!(key_action(&rects, Some(0), 9), (MenuAction::Dismissed, Some(0), false));
    assert_eq!(key_action(&rects, Some(0), 36), (MenuAction::ItemClicked(1), Some(0), false));
    assert_eq!(key_action(&rects, Some(3), 36), (MenuAction::Nothing, Some(3), false));
    assert_eq!(key_action(&rects, Some(0), 116), (MenuAction::Nothing, Some(3), true));
    assert_eq!(key_action(&rects, Some(0), 42), (MenuAction::Nothing, Some(0), false));
}

#[test]
fn menu_hover_skips_disabled_and_wraps() {
    let rects = layout_item_rects(&sample_menu());
    assert_eq!(move_hover(&rects, None, 1), Some(3));
    assert_eq!(move_hover(&rects, Some(0), 1), Some(3));
    assert_eq!(move_hover(&rects, Some(3), 1), Some(0));
    assert_eq!(move_hover(&rects, Some(0), -1), Some(3));
    assert_eq!(move_hover(&rects, Some(3), -1), Some(0));
    let all_disabled = vec![ItemRect { y: 4, height: 28, item_id: 1, has_submenu: false, enabled: false }];
    assert_eq!(move_hover(&all_disabled, None, 1), None);
    assert_eq!(move_hover(&vec![], Some(2), 1), Some(2));
    for h in [None, Some(0usize), Some(1), Some(2), Some(3)] {
        for d in [-1, 1] {
            if let Some(i) = move_hover(&rects, h, d) {
                assert!(rects[i].enabled);
            }
        }
    }
}

#[test]
fn menu_positions() {
    assert_eq!(menu_position(100, 100, 200, 300, 1920, 1080), (100, 100));
    assert_eq!(menu_position(1800, 900, 200, 300, 1920, 1080), (1720, 780));
    assert_eq!(menu_position(50, 50, 3000, 2000, 1920, 1080), (0, 0));
}

// ---------------------------------------------------------------------
// Renderer
// ---------------------------------------------------------------------

fn reference_parse_color(s: &str) -> Option<u32> {
    let s = s.trim_start_matches('#');
    if s.len() == 6 {
        let r = u8::from_str_radix(&s[0..2], 16).ok()?;
        let g = u8::from_str_radix(&s[2..4], 16).ok()?;
        let b = u8::from_str_radix(&s[4..6], 16).ok()?;
        Some(0xFF000000 | ((r as u32) << 16) | ((g as u32) << 8) | (b as u32))
    } else if s.len() == 8 {
        u32::from_str_radix(s, 16).ok()
    } else {
        None
    }
}

#[test]
fn colors() {
    assert_eq!(parse_color("#1a1a1a"), Some(0xFF1a1a1a));
    assert_eq!(parse_color("#80FF0000"), Some(0x80FF0000));
    assert_eq!(parse_color("##abcdef"), Some(0xFFabcdef));
    assert_eq!(parse_color("zzzzzz"), None);
    assert_eq!(parse_color("#12345"), None);
    let samples = [
        "#000000", "#ffffff", "#+1+2+3", "#1+2345", "+12345", "#-12345", "#12345g", "#ABCDEF",
        "#0000000", "#+1234567", "#12345678", "#ffffffff", "", "#", "é1234", "#éé12", "12345678",
        "1a2b3c", "#  1234", "#1a1a1a ",
    ];
    for s in samples {
        assert_eq!(parse_color(s), reference_parse_color(s), "color {:?}", s);
    }
}

fn tray_config(background: &str) -> TrayConfig {
    TrayConfig {
        background: background.to_string(),
        icon_size: 24,
        spacing: 4,
        monitor: "primary".to_string(),
        position: "top-right".to_string(),
        offset_x: 0,
        offset_y: 0,
    }
}

#[test]
fn renderer_setup() {
    let r = TrayRenderer::new(&tray_config("#102030"));
    assert_eq!(r.icon_size(), 24);
    assert_eq!(r.background_channels(), (0x10, 0x20, 0x30, 0xFF));
    let r = TrayRenderer::new(&tray_config("not a color"));
    assert_eq!(r.background_channels(), (0x1a, 0x1a, 0x1a, 0xFF));
    assert_eq!(r.icon_offset(16), 4);
    assert_eq!(r.icon_offset(24), 0);
    assert_eq!(r.icon_offset(27), -1);
}

#[test]
fn renderer_surface_size() {
    let mut r = TrayRenderer::new(&tray_config("#000000"));
    assert!(r.ensure_surface(false, 200, 24));
    assert!(!r.ensure_surface(true, 200, 24));
    assert!(r.ensure_surface(true, 300, 24));
    assert!(!r.ensure_surface(true, 300, 24));
}

#[test]
fn renderer_layout_and_hits() {
    let mut r = TrayRenderer::new(&tray_config("#000000"));
    let ids = vec!["a".to_string(), "b".to_string(), "c".to_string()];
    let (end, width) = r.layout_sni_icons(&ids, 10);
    assert_eq!(end, 10 + 3 * 28);
    assert_eq!(width, Some(10 + 3 * 24 + 2 * 4));
    let xs: Vec<i32> = r.positions().iter().map(|p| p.x).collect();
    assert_eq!(xs, vec![10, 38, 66]);
    let hit = r.hit_test(40, 5).unwrap();
    assert_eq!((hit.id.as_str(), hit.local_x, hit.local_y), ("b", 2, 5));
    assert!(r.hit_test(35, 5).is_none());
    assert!(r.hit_test(40, 24).is_none());
    assert!(r.hit_test(9, 0).is_none());
    for (k, p) in r.positions().clone().iter().enumerate() {
        for dx in [0, 23] {
            assert_eq!(r.hit_test(p.x + dx, 23).unwrap().id, ids[k]);
        }
    }
    let (end, width) = r.layout_sni_icons(&vec![], 7);
    assert_eq!((end, width), (7, None));
    assert!(r.positions().is_empty());
}

#[test]
fn hit_testing_positions() {
    let ps = vec![
        SniIconPosition { id: "x".into(), x: 0, y: 0, width: 10, height: 10 },
        SniIconPosition { id: "y".into(), x: 5, y: 0, width: 10, height: 10 },
    ];
    assert_eq!(hit_test_positions(&ps, 7, 3).unwrap().id, "x");
    assert_eq!(hit_test_positions(&ps, 12, 3).unwrap().local_x, 7);
    assert!(hit_test_positions(&ps, 15, 3).is_none());
}

#[test]
fn icon_cache() {
    let mut c = IconCache::new();
    assert!(c.get("a").is_none());
    c.insert("a".to_string(), CachedIcon { width: 1, height: 1, data: vec![1, 2, 3, 4] });
    c.insert("b".to_string(), CachedIcon { width: 2, height: 2, data: vec![] });
    c.insert("a".to_string(), CachedIcon { width: 3, height: 3, data: vec![5] });
    assert_eq!(c.get("a").unwrap().width, 3);
    assert_eq!(c.get("b").unwrap().width, 2);
    c.clear();
    assert!(c.get("a").is_none());
    let mut r = TrayRenderer::new(&tray_config("#000000"));
    r.cache_icon("/x.png".to_string(), CachedIcon { width: 4, height: 4, data: vec![0; 64] });
    assert_eq!(r.cached_icon("/x.png").unwrap().data.len(), 64);
    r.clear_cache();
    assert!(r.cached_icon("/x.png").is_none());
}

// ---------------------------------------------------------------------
// StatusNotifierItem
// ---------------------------------------------------------------------

#[test]
fn services() {
    assert_eq!(parse_service(":1.42:/org/ayatana/NotificationItem/nm"), (":1.42".to_string(), "/org/ayatana/NotificationItem/nm".to_string()));
    assert_eq!(parse_service("org.kde.StatusNotifierItem-123-1/StatusNotifierItem"), ("org.kde.StatusNotifierItem-123-1".to_string(), "/StatusNotifierItem".to_string()));
    assert_eq!(parse_service("org.example.App"), ("org.example.App".to_string(), "/StatusNotifierItem".to_string()));
    assert_eq!(parse_service("a/b/c"), ("a".to_string(), "/b/c".to_string()));
    assert_eq!(
        parse_service("org.kde.app/org/ayatana/NotificationItem/app"),
        ("org.kde.app".to_string(), "/org/ayatana/NotificationItem/app".to_string())
    );
    for s in [":1.5:/x/y", "bus/path", "plain", "a:/b:/c"] {
        let (bus, path) = parse_service(s);
        if s.contains(":/") {
            assert_eq!(format!("{}:{}", bus, path), s);
        } else if s.contains('/') {
            assert_eq!(format!("{}{}", bus, path), s);
        } else {
            assert_eq!(bus, s);
        }
    }
}

#[test]
fn sni_items() {
    let pix = vec![(16, 16, vec![0u8; 4]), (32, 32, vec![1u8; 8])];
    let it = SniItem::new(None, Some(String::new()), None, None, Some(pix.clone()));
    assert_eq!(it.id, "unknown");
    assert_eq!(it.status, "Active");
    assert_eq!(it.icon_pixmap, Some((32, 32, vec![1u8; 8])));
    let mut it = SniItem::new(Some("nm".into()), Some("nm-applet".into()), Some("Network".into()), Some("Passive".into()), Some(pix));
    assert_eq!(it.icon_pixmap, None);
    assert_eq!(it.status, "Passive");
    it.refresh(None, None, None, Some(vec![]));
    assert_eq!(it.icon_pixmap, None);
    assert_eq!(it.status, "Active");
    it.refresh(None, None, None, Some(vec![(8, 8, vec![2u8; 4])]));
    assert_eq!(it.icon_pixmap, Some((8, 8, vec![2u8; 4])));
    it.refresh(None, None, None, None);
    assert_eq!(it.icon_pixmap, Some((8, 8, vec![2u8; 4])));
    assert!(needs_pixmap(&None));
    assert!(!needs_pixmap(&Some("x".to_string())));
    assert_eq!(choose_pixmap(vec![]), None);
    assert_eq!(scroll_orientation(true), "horizontal");
    assert_eq!(scroll_orientation(false), "vertical");
}

// ---------------------------------------------------------------------
// XEMBED
// ---------------------------------------------------------------------

fn monitor(name: &str, x: i16, primary: bool) -> MonitorInfo {
    MonitorInfo { name: name.to_string(), x, y: 0, width: 1920, height: 1080, primary }
}

#[test]
fn monitor_selection() {
    let ms = vec![monitor("DP-1", 0, false), monitor("HDMI-1", 1920, true)];
    assert_eq!(select_monitor(&ms, "primary").unwrap().name, "HDMI-1");
    assert_eq!(select_monitor(&ms, "all").unwrap().name, "HDMI-1");
    assert_eq!(select_monitor(&ms, "DP-1").unwrap().name, "DP-1");
    assert_eq!(select_monitor(&ms, "eDP-1").unwrap().name, "HDMI-1");
    let no_primary = vec![monitor("DP-1", 0, false), monitor("DP-2", 1920, false)];
    assert_eq!(select_monitor(&no_primary, "primary").unwrap().name, "DP-1");
    assert!(select_monitor(&vec![], "primary").is_none());
}

#[test]
fn tray_placement() {
    assert_eq!(corner("top-left"), Corner::TopLeft);
    assert_eq!(corner("bottom-right"), Corner::BottomRight);
    assert_eq!(corner("middle"), Corner::TopRight);
    let mon = (1920i16, 0i16, 1920u16, 1080u16);
    assert_eq!(tray_position(Corner::TopRight, mon, 200, 24, 10, 5), (1920 + 1920 - 200 - 10, 5));
    assert_eq!(tray_position(Corner::TopLeft, mon, 200, 24, 10, 5), (1930, 5));
    assert_eq!(tray_position(Corner::BottomLeft, mon, 200, 24, 10, 5), (1930, 1080 - 24 - 5));
    assert_eq!(tray_position(Corner::BottomRight, mon, 200, 24, 0, 0), (3640, 1056));
}

fn ids() -> TrayIds {
    TrayIds { opcode_atom: 100, xembed_atom: 101, tray_window: 5 }
}

#[test]
fn xembed_docking_and_events() {
    let mut icons = XEmbedIcons::new();
    let dock = icons.handle_event(TrayEvent::ClientMessage { message_type: 100, window: 5, data1: 0, data2: 77 }, ids(), 24, 4);
    assert_eq!(dock, TrayReaction::Dock(77));
    assert_eq!(icons.dock_position(24, 4), 0);
    icons.track_docked(77, 24);
    assert_eq!(icons.dock_position(24, 4), 28);
    icons.track_docked(88, 24);
    assert_eq!(icons.icon_count(), 2);
    assert_eq!(icons.icon_places(24, 4), vec![(77, 0), (88, 28)]);
    assert_eq!(icons.tray_width(24, 4), Some(52));
    // focus request from a docked icon
    let r = icons.handle_event(TrayEvent::ClientMessage { message_type: 101, window: 77, data1: 3, data2: 0 }, ids(), 24, 4);
    assert_eq!(r, TrayReaction::FocusIcon(77));
    let r = icons.handle_event(TrayEvent::ClientMessage { message_type: 101, window: 99, data1: 3, data2: 0 }, ids(), 24, 4);
    assert_eq!(r, TrayReaction::Nothing);
    // clicks
    let r = icons.handle_event(TrayEvent::ButtonPress { event: 5, x: 30, y: 3, detail: 1 }, ids(), 24, 4);
    assert_eq!(r, TrayReaction::Forward { window: 88, x: 2, y: 3, button: 1, pressed: true });
    let r = icons.handle_event(TrayEvent::ButtonRelease { event: 5, x: 26, y: 3, detail: 1 }, ids(), 24, 4);
    assert_eq!(r, TrayReaction::Unhandled(TrayButtonEvent { x: 26, y: 3, button: 1, pressed: false }));
    let r = icons.handle_event(TrayEvent::ButtonPress { event: 6, x: 1, y: 1, detail: 1 }, ids(), 24, 4);
    assert_eq!(r, TrayReaction::Nothing);
    // unmap and map
    assert_eq!(icons.handle_event(TrayEvent::UnmapNotify { window: 77 }, ids(), 24, 4), TrayReaction::Reposition);
    assert_eq!(icons.mapped_count(), 1);
    assert_eq!(icons.icon_places(24, 4), vec![(88, 0)]);
    assert_eq!(icons.button_target(3, 24, 4), Some((88, 3)));
    assert_eq!(icons.handle_event(TrayEvent::MapNotify { window: 77 }, ids(), 24, 4), TrayReaction::Reposition);
    assert_eq!(icons.handle_event(TrayEvent::MapNotify { window: 77 }, ids(), 24, 4), TrayReaction::Nothing);
    // reparented away, destroyed
    assert_eq!(icons.handle_event(TrayEvent::ReparentNotify { window: 77, parent: 5 }, ids(), 24, 4), TrayReaction::Nothing);
    assert_eq!(icons.handle_event(TrayEvent::ReparentNotify { window: 77, parent: 1 }, ids(), 24, 4), TrayReaction::Reposition);
    assert!(!icons.contains(77));
    assert_eq!(icons.handle_event(TrayEvent::DestroyNotify { window: 88 }, ids(), 24, 4), TrayReaction::Reposition);
    assert_eq!(icons.handle_event(TrayEvent::DestroyNotify { window: 88 }, ids(), 24, 4), TrayReaction::Nothing);
    assert_eq!(icons.icon_count(), 0);
    assert_eq!(icons.tray_width(24, 4), None);
}

#[test]
fn dock_then_destroy_restores() {
    let mut icons = XEmbedIcons::new();
    icons.track_docked(1, 24);
    let before = icons.diagnostics(true, 5, 6);
    icons.track_docked(2, 24);
    icons.handle_event(TrayEvent::DestroyNotify { window: 2 }, ids(), 24, 4);
    assert_eq!(icons.diagnostics(true, 5, 6), before);
}

#[test]
fn xembed_diagnostics() {
    let mut icons = XEmbedIcons::new();
    icons.track_docked(77, 24);
    icons.handle_event(TrayEvent::UnmapNotify { window: 77 }, ids(), 24, 4);
    assert_eq!(
        icons.diagnostics(true, 5, 6),
        "XEmbed Tray Diagnostics:\n  Owner: true\n  Tray window: 5\n  Selection window: 6\n  Icons: 1\n  - Icon 77: 24x24, mapped=false\n"
    );
}

fn layout(id: i32, label: &str, visible: Option<bool>, children: Vec<MenuLayout>) -> MenuLayout {
    MenuLayout {
        id,
        label: Some(label.to_string()),
        icon_name: None,
        enabled: None,
        visible,
        item_type: None,
        toggle_type: None,
        toggle_state: None,
        children,
    }
}

#[test]
fn menu_tree_from_layout_keeps_visible_children_in_order() {
    let root = layout(
        0,
        "root",
        None,
        vec![
            layout(1, "_Open", None, vec![layout(11, "Deep", Some(true), vec![])]),
            layout(2, "Hidden", Some(false), vec![]),
            layout(3, "_Quit", Some(true), vec![]),
        ],
    );
    let m = menu_from_layout(root);
    assert_eq!(m.id, 0);
    assert_eq!(m.item_type, "standard");
    assert!(m.enabled && m.visible);
    let ids: Vec<i32> = m.children.iter().map(|c| c.id).collect();
    assert_eq!(ids, vec![1, 3]);
    assert_eq!(m.children[0].label, Some("Open".to_string()));
    assert_eq!(m.children[1].label, Some("Quit".to_string()));
    assert_eq!(m.children[0].children.len(), 1);
    assert_eq!(m.children[0].children[0].id, 11);
}

#[test]
fn menu_events() {
    let rects = vec![
        ItemRect { y: 4, height: 28, item_id: 1, has_submenu: false, enabled: true },
        ItemRect { y: 32, height: 28, item_id: 2, has_submenu: true, enabled: true },
    ];
    assert_eq!(menu_event(&rects, None, PopupEvent::FocusOut { ours: true }), (MenuAction::Dismissed, None, false));
    assert_eq!(menu_event(&rects, Some(0), PopupEvent::FocusOut { ours: false }), (MenuAction::Nothing, Some(0), false));
    assert_eq!(
        menu_event(&rects, None, PopupEvent::ButtonPress { ours: true, y: 10, button: 1 }),
        (MenuAction::ItemClicked(1), None, false)
    );
    assert_eq!(
        menu_event(&rects, None, PopupEvent::ButtonPress { ours: true, y: 40, button: 1 }),
        (MenuAction::SubmenuOpened(2), None, false)
    );
    assert_eq!(
        menu_event(&rects, None, PopupEvent::ButtonPress { ours: false, y: 10, button: 1 }),
        (MenuAction::Nothing, None, false)
    );
    assert_eq!(menu_event(&rects, None, PopupEvent::Motion { ours: true, y: 40 }), (MenuAction::Nothing, Some(1), true));
    assert_eq!(menu_event(&rects, Some(1), PopupEvent::Motion { ours: true, y: 40 }), (MenuAction::Nothing, Some(1), false));
    assert_eq!(menu_event(&rects, Some(1), PopupEvent::Leave { ours: true }), (MenuAction::Nothing, None, true));
    assert_eq!(menu_event(&rects, None, PopupEvent::Leave { ours: true }), (MenuAction::Nothing, None, false));
    assert_eq!(menu_event(&rects, Some(0), PopupEvent::KeyPress { ours: true, keycode: 9 }), (MenuAction::Dismissed, Some(0), false));
    assert_eq!(menu_event(&rects, Some(0), PopupEvent::KeyPress { ours: true, keycode: 36 }), (MenuAction::ItemClicked(1), Some(0), false));
    assert_eq!(menu_event(&rects, None, PopupEvent::Expose { ours: true }), (MenuAction::Nothing, None, true));
    assert_eq!(menu_event(&rects, None, PopupEvent::Other), (MenuAction::Nothing, None, false));
}

fn text(s: &str) -> DbusValue {
    DbusValue::Str(s.to_string())
}

fn child(id: i32, props: Vec<(&str, DbusValue)>, children: Vec<DbusValue>) -> DbusValue {
    DbusValue::Structure(vec![
        DbusValue::I32(id),
        DbusValue::Dict(props.into_iter().map(|(k, v)| (text(k), v)).collect()),
        DbusValue::Array(children),
    ])
}

#[test]
fn menu_from_dbus_layout() {
    let props = vec![("label".to_string(), text("_Root")), ("enabled".to_string(), text("yes"))];
    let children = vec![
        child(1, vec![("label", text("_Open")), ("toggle-state", DbusValue::I32(1))], vec![]),
        DbusValue::I32(7),
        DbusValue::Structure(vec![DbusValue::I32(8), DbusValue::Other]),
        child(2, vec![("visible", DbusValue::Bool(false))], vec![]),
        DbusValue::Variant(Box::new(child(3, vec![], vec![]))),
        child(4, vec![("label", DbusValue::I32(5)), ("type", text("separator"))], vec![child(41, vec![], vec![])]),
    ];
    let m = menu_from_dbus(0, &props, children);
    assert_eq!(m.label, Some("Root".to_string()));
    assert!(m.enabled);
    let ids: Vec<i32> = m.children.iter().map(|c| c.id).collect();
    assert_eq!(ids, vec![1, 4]);
    assert_eq!(m.children[0].label, Some("Open".to_string()));
    assert_eq!(m.children[0].toggle_state, 1);
    assert_eq!(m.children[1].label, None);
    assert_eq!(m.children[1].item_type, "separator");
    assert_eq!(m.children[1].children.len(), 1);
    assert_eq!(m.children[1].children[0].id, 41);
}

#[test]
fn layout_keeps_last_property() {
    let props = vec![("label".to_string(), text("a")), ("label".to_string(), text("b"))];
    let l = layout_from_dbus(3, &props, vec![]);
    assert_eq!(l.id, 3);
    assert_eq!(l.label, Some("b".to_string()));
    assert_eq!(l.enabled, None);
}

#[test]
fn menu_summary_has_one_line_per_item() {
    let mut root = MenuItem::default();
    let mut a = MenuItem::default();
    a.id = 1;
    a.toggle_type = Some("check\nmark".to_string());
    let mut b = MenuItem::default();
    b.id = 2;
    a.children.push(b);
    root.children.push(a);
    let text = menu_summary(&root, 0);
    assert_eq!(text.matches('\n').count(), 3);
    assert!(text.ends_with('\n'));
}
