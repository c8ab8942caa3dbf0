use cosmic_pie_menu::apps::{
    load_app_info, load_apps, load_dock_applets, parse_desktop_file, DesktopFile,
};

const FILES_DESKTOP: &str = "[Desktop Entry]\n\
Name=COSMIC Files\n\
Name[de]=COSMIC Dateien\n\
Exec=cosmic-files %U\n\
Icon=com.system76.CosmicFiles\n\
Type=Application\n\
\n\
[Desktop Action new-window]\n\
Name=New Window\n\
Exec=cosmic-files --new-window\n";

#[test]
fn test_load_app_info() {
    // Test with a common app
    if let Some(info) = load_app_info(
        "com.system76.CosmicFiles",
        "/usr/share/applications/com.system76.CosmicFiles.desktop",
        FILES_DESKTOP,
    ) {
        println!("App: {} ({:?})", info.name, info.icon);
    }
}

#[test]
fn load_app_info_fields() {
    let info = load_app_info(
        "com.system76.CosmicFiles",
        "/usr/share/applications/com.system76.CosmicFiles.desktop",
        FILES_DESKTOP,
    )
    .unwrap();
    assert_eq!(info.id, "com.system76.CosmicFiles");
    assert_eq!(info.name, "COSMIC Files");
    assert_eq!(info.icon.as_deref(), Some("com.system76.CosmicFiles"));
    assert_eq!(info.command.as_deref(), Some("cosmic-files"));
    assert_eq!(info.desktop_path, "/usr/share/applications/com.system76.CosmicFiles.desktop");
    assert_eq!(info.running_count, 0);
    assert!(!info.is_favorite);
}

#[test]
fn parse_trims_and_strips_field_codes() {
    let text = "  [Desktop Entry]  \r\n\tName= Web Browser \r\nExec=  firefox %u --new %F %c %k\r\nIcon=firefox";
    let (name, icon, exec) = parse_desktop_file(text).unwrap();
    assert_eq!(name, " Web Browser");
    assert_eq!(icon.as_deref(), Some("firefox"));
    assert_eq!(exec.as_deref(), Some("firefox  --new"));
}

#[test]
fn parse_needs_name_in_entry_group() {
    assert!(parse_desktop_file("").is_none());
    assert!(parse_desktop_file("Name=Outside\n[Desktop Entry]\nIcon=x\n").is_none());
    assert!(parse_desktop_file("[Other]\nName=Wrong\n").is_none());
    let (name, icon, exec) = parse_desktop_file("[Desktop Entry]\nName=First\nName=Second\n").unwrap();
    assert_eq!(name, "First");
    assert_eq!(icon, None);
    assert_eq!(exec, None);
}

#[test]
fn parse_keeps_last_icon_and_handles_percent_runs() {
    let text = "[Desktop Entry]\nName=A\nIcon=one\nIcon=two\nExec=run %%uu %x\n";
    let (_, icon, exec) = parse_desktop_file(text).unwrap();
    assert_eq!(icon.as_deref(), Some("two"));
    // Removing "%u" from "%%uu" leaves "%u", which later passes do not touch.
    assert_eq!(exec.as_deref(), Some("run %u %x"));
}

#[test]
fn favorites_in_order_skipping_unnamed() {
    let files = vec![
        DesktopFile {
            app_id: "b".to_string(),
            path: "/b.desktop".to_string(),
            content: "[Desktop Entry]\nName=B\n".to_string(),
        },
        DesktopFile {
            app_id: "x".to_string(),
            path: "/x.desktop".to_string(),
            content: "[Desktop Entry]\nIcon=x\n".to_string(),
        },
        DesktopFile {
            app_id: "a".to_string(),
            path: "/a.desktop".to_string(),
            content: "[Desktop Entry]\nName=A\n".to_string(),
        },
    ];
    let apps = load_apps(&files);
    assert_eq!(apps.len(), 2);
    assert_eq!(apps[0].id, "b");
    assert_eq!(apps[1].name, "A");
    assert!(apps.iter().all(|a| a.is_favorite));
}

#[test]
fn dock_applets_in_known_order() {
    let enabled = vec![
        "com.system76.CosmicPanelWorkspacesButton".to_string(),
        "com.system76.CosmicAppletTime".to_string(),
        "com.system76.CosmicPanelAppButton".to_string(),
    ];
    let apps = load_dock_applets(&enabled);
    assert_eq!(apps.len(), 2);
    assert_eq!(apps[0].id, "com.system76.CosmicPanelAppButton");
    assert_eq!(apps[0].name, "App Library");
    assert_eq!(apps[0].command.as_deref(), Some("cosmic-app-library"));
    assert_eq!(apps[0].icon.as_deref(), Some("com.system76.CosmicPanelAppButton"));
    assert_eq!(apps[1].name, "Workspaces");
    assert!(apps[1].is_favorite);
    assert_eq!(apps[1].desktop_path, "");
    assert!(load_dock_applets(&[]).is_empty());
}

use cosmic_pie_menu::apps::{
    desktop_file_matches, get_running_count, is_id_in_set, load_apps_with_running,
};
use cosmic_pie_menu::menu::circular_distance;

fn file(id: &str, name: &str) -> DesktopFile {
    DesktopFile {
        app_id: id.to_string(),
        path: format!("/usr/share/applications/{}.desktop", id),
        content: format!("[Desktop Entry]\nName={}\n", name),
    }
}

#[test]
fn desktop_names_match_ignoring_case() {
    assert!(desktop_file_matches("Slack", "com.slack.Slack.desktop"));
    assert!(desktop_file_matches("slack", "com.slack.SLACK.desktop"));
    assert!(desktop_file_matches("ORG.GNOME.NAUTILUS", "org.gnome.Nautilus.desktop"));
    assert!(desktop_file_matches("firefox", "firefox.desktop.desktop"));
    assert!(!desktop_file_matches("slack", "com.slack.Slack"));
    assert!(!desktop_file_matches("slack", "com.slack.slackware.desktop"));
}

#[test]
fn running_counts() {
    let running = vec![
        ("org.gnome.Nautilus".to_string(), 2),
        ("Firefox".to_string(), 3),
        ("code".to_string(), 1),
        ("firefox".to_string(), 7),
    ];
    // An exact name wins over an earlier loose one.
    assert_eq!(get_running_count("firefox", &running), 7);
    assert_eq!(get_running_count("FIREFOX", &running), 3);
    assert_eq!(get_running_count("nautilus", &running), 2);
    assert_eq!(get_running_count("com.visualstudio.Code", &running), 1);
    assert_eq!(get_running_count("gimp", &running), 0);
    assert_eq!(get_running_count("gimp", &Vec::new()), 0);
}

#[test]
fn seen_ids_ignore_case() {
    let seen = vec!["org.gnome.Nautilus".to_string(), "Firefox".to_string()];
    assert!(is_id_in_set("firefox", &seen));
    assert!(is_id_in_set("ORG.gnome.nautilus", &seen));
    assert!(!is_id_in_set("nautilus", &seen));
    assert!(!is_id_in_set("firefox", &Vec::new()));
}

#[test]
fn favorites_then_running_non_favorites() {
    let favorites = vec![file("firefox", "Firefox"), file("org.gnome.Nautilus", "Files")];
    let running = vec![
        ("Firefox".to_string(), 2),
        ("gimp".to_string(), 1),
        ("steam".to_string(), 4),
        ("org.gnome.Nautilus".to_string(), 1),
    ];
    let running_files = vec![file("gimp", "GIMP"), file("Firefox", "Firefox again")];
    let apps = load_apps_with_running(&favorites, &running, &running_files);
    assert_eq!(apps.len(), 3);
    assert_eq!(apps[0].id, "firefox");
    assert!(apps[0].is_favorite);
    assert_eq!(apps[0].running_count, 2);
    assert_eq!(apps[1].name, "Files");
    assert_eq!(apps[1].running_count, 1);
    assert_eq!(apps[2].id, "gimp");
    assert!(!apps[2].is_favorite);
    assert_eq!(apps[2].running_count, 1);
}

#[test]
fn ring_distances() {
    assert_eq!(circular_distance(0, 0, 0), 0);
    assert_eq!(circular_distance(0, 1, 8), 1);
    assert_eq!(circular_distance(0, 7, 8), 1);
    assert_eq!(circular_distance(2, 6, 8), 4);
    assert_eq!(circular_distance(6, 1, 8), 3);
}
