use niri_switch::icons::{
    candidates_for, data_uri, debug_icon_bases, debug_icon_line, debug_icon_search, desktop_dirs,
    desktop_entry_icon, desktop_file_names, desktop_icon, get_app_icon, icon_bases,
    icon_candidates, icon_mime, icon_probes, mime_for, IconFile,
};

fn strings(list: &[&str]) -> Vec<String> {
    list.iter().map(|s| s.to_string()).collect()
}

fn icon(path: &str, extension: Option<&str>, content: Result<&[u8], &str>) -> IconFile {
    IconFile {
        path: path.to_string(),
        extension: extension.map(|e| e.to_string()),
        content: content.map(|b| b.to_vec()).map_err(|e| e.to_string()),
    }
}

#[test]
fn mime_follows_the_extension() {
    assert_eq!(mime_for("svg"), "image/svg+xml");
    assert_eq!(mime_for("svgz"), "image/svg+xml");
    assert_eq!(mime_for("png"), "image/png");
    assert_eq!(mime_for("xpm"), "image/x-xpixmap");
    assert_eq!(mime_for("jpg"), "image/png");
    assert_eq!(mime_for(""), "image/png");
    assert_eq!(mime_for("SVG"), "image/png");
}

#[test]
fn icon_mime_lowers_the_extension_first() {
    assert_eq!(icon_mime(Some("SVG")), "image/svg+xml");
    assert_eq!(icon_mime(Some("SvgZ")), "image/svg+xml");
    assert_eq!(icon_mime(Some("XPM")), "image/x-xpixmap");
    assert_eq!(icon_mime(Some("PNG")), "image/png");
    assert_eq!(icon_mime(Some("ico")), "image/png");
    assert_eq!(icon_mime(None), "image/png");
}

#[test]
fn data_uri_has_the_standard_shape() {
    assert_eq!(data_uri("image/png", "AAEC"), "data:image/png;base64,AAEC");
    assert_eq!(data_uri("", ""), "data:;base64,");
}

#[test]
fn app_icon_is_a_base64_data_uri() {
    assert_eq!(
        get_app_icon("firefox", Some(icon("/x/firefox.png", Some("png"), Ok(&[0, 1, 2])))),
        Ok("data:image/png;base64,AAEC".to_string())
    );
    assert_eq!(
        get_app_icon("firefox", Some(icon("/x/firefox.SVG", Some("SVG"), Ok(b"<svg/>")))),
        Ok("data:image/svg+xml;base64,PHN2Zy8+".to_string())
    );
    assert_eq!(
        get_app_icon("x", Some(icon("/x/x", None, Ok(b"hi")))),
        Ok("data:image/png;base64,aGk=".to_string())
    );
    assert_eq!(
        get_app_icon("x", Some(icon("/x/x.xpm", Some("xpm"), Ok(b"h")))),
        Ok("data:image/x-xpixmap;base64,aA==".to_string())
    );
    assert_eq!(
        get_app_icon("x", Some(icon("/x/x.png", Some("png"), Ok(b"")))),
        Ok("data:image/png;base64,".to_string())
    );
    assert_eq!(
        get_app_icon("x", Some(icon("/x/x.png", Some("png"), Ok(&[0xfb, 0xff, 0xbe])))),
        Ok("data:image/png;base64,+/++".to_string())
    );
}

#[test]
fn missing_icon_is_reported_with_the_app_id() {
    assert_eq!(get_app_icon("org.example.App", None), Err("no icon found for org.example.App".to_string()));
}

#[test]
fn unreadable_icon_is_reported_with_path_and_reason() {
    assert_eq!(
        get_app_icon("a", Some(icon("/usr/share/pixmaps/a.png", Some("png"), Err("Permission denied (os error 13)")))),
        Err("failed to read icon /usr/share/pixmaps/a.png: Permission denied (os error 13)".to_string())
    );
}

#[test]
fn candidates_are_the_four_names_in_order() {
    assert_eq!(
        icon_candidates("org.gnome.Nautilus"),
        strings(&["org.gnome.nautilus", "nautilus", "nautilus", "nautilus"])
    );
    assert_eq!(
        icon_candidates("com.visualstudio.Code-Desktop"),
        strings(&["com.visualstudio.code-desktop", "code-desktop", "code", "code-desktop"])
    );
    assert_eq!(icon_candidates("Firefox-BIN"), strings(&["firefox-bin", "firefox-bin", "firefox-bin", "firefox"]));
    assert_eq!(icon_candidates(""), strings(&["", "", "", ""]));
    assert_eq!(icon_candidates("kitty."), strings(&["kitty.", "", "", ""]));
    assert_eq!(icon_candidates("ÄPP.Öl"), strings(&["äpp.öl", "öl", "öl", "öl"]));
}

#[test]
fn candidates_agree_with_the_standard_library() {
    for lower in ["org.mozilla.firefox", "a-bin-desktop", "x.y-desktop-desktop", ".", "..a", "plain"] {
        let last = lower.split('.').last().unwrap_or(lower).to_string();
        let expected = vec![
            lower.to_string(),
            last.clone(),
            last.replace("-desktop", ""),
            last.replace("-bin", ""),
        ];
        assert_eq!(candidates_for(lower), expected);
    }
}

#[test]
fn bases_are_listed_in_search_order() {
    assert_eq!(
        icon_bases("/home/u", "/usr/local/share:/usr/share"),
        strings(&[
            "/home/u/.local/share/icons",
            "/home/u/.icons",
            "/usr/local/share/icons",
            "/usr/share/icons",
            "/usr/share/pixmaps",
        ])
    );
    assert_eq!(
        icon_bases("", ""),
        strings(&["/.local/share/icons", "/.icons", "/icons", "/usr/share/pixmaps"])
    );
}

#[test]
fn desktop_dirs_are_listed_in_search_order() {
    assert_eq!(
        desktop_dirs("/home/u", "/a:/b:"),
        strings(&["/home/u/.local/share/applications", "/a/applications", "/b/applications", "/applications"])
    );
}

#[test]
fn desktop_file_names_are_the_name_and_its_lower_case() {
    assert_eq!(desktop_file_names("Code"), strings(&["Code.desktop", "code.desktop"]));
    assert_eq!(desktop_file_names("kitty"), strings(&["kitty.desktop", "kitty.desktop"]));
}

#[test]
fn probes_go_through_themes_sizes_and_formats() {
    let probes = icon_probes("kitty");
    assert_eq!(probes.len(), 147);
    assert_eq!(probes[0], strings(&["hicolor", "scalable/apps", "kitty.svg"]));
    assert_eq!(probes[1], strings(&["hicolor", "scalable/apps", "kitty.png"]));
    assert_eq!(probes[2], strings(&["hicolor", "scalable/apps", "kitty.xpm"]));
    assert_eq!(probes[3], strings(&["hicolor", "256x256/apps", "kitty.svg"]));
    assert_eq!(probes[23], strings(&["hicolor", "32x32/apps", "kitty.xpm"]));
    assert_eq!(probes[24], strings(&["breeze", "scalable/apps", "kitty.svg"]));
    assert_eq!(probes[143], strings(&["gnome", "32x32/apps", "kitty.xpm"]));
    assert_eq!(probes[144], strings(&["kitty.svg"]));
    assert_eq!(probes[145], strings(&["kitty.png"]));
    assert_eq!(probes[146], strings(&["kitty.xpm"]));
}

#[test]
fn probes_are_the_nested_loops_of_the_search() {
    let themes = ["hicolor", "breeze", "Adwaita", "AdwaitaLegacy", "Papirus", "gnome"];
    let sizes = [
        "scalable/apps",
        "256x256/apps",
        "256x256@2/apps",
        "128x128/apps",
        "128x128@2/apps",
        "64x64/apps",
        "48x48/apps",
        "32x32/apps",
    ];
    let extensions = ["svg", "png", "xpm"];
    let mut expected = Vec::new();
    for theme in themes {
        for size in sizes {
            for ext in extensions {
                expected.push(vec![theme.to_string(), size.to_string(), format!("a.b.{ext}")]);
            }
        }
    }
    for ext in extensions {
        expected.push(vec![format!("a.b.{ext}")]);
    }
    assert_eq!(icon_probes("a.b"), expected);
}

#[test]
fn desktop_icon_is_the_first_icon_line_with_a_value() {
    let entry = "[Desktop Entry]\nName=Kitty\nIcon=\nIcon=  kitty \nIcon=other\n";
    assert_eq!(desktop_icon(entry), Some("kitty".to_string()));
    assert_eq!(desktop_icon("Icon=a"), Some("a".to_string()));
    assert_eq!(desktop_icon("Icon=/usr/share/x.png\r\nExec=x\r\n"), Some("/usr/share/x.png".to_string()));
    assert_eq!(desktop_icon("Icon=a b\u{a0}\n"), Some("a b".to_string()));
}

#[test]
fn desktop_icon_is_none_without_a_usable_icon_line() {
    assert_eq!(desktop_icon(""), None);
    assert_eq!(desktop_icon("Name=x\nExec=y\n"), None);
    assert_eq!(desktop_icon("Icon=\nIcon=   \nIcon=\r\n"), None);
    assert_eq!(desktop_icon(" Icon=a\n"), None);
    assert_eq!(desktop_icon("icon=a\n"), None);
    assert_eq!(desktop_icon("XIcon=a\nIcon"), None);
}

#[test]
fn desktop_icon_agrees_with_the_standard_library() {
    let entries = [
        "[Desktop Entry]\nIcon=  x  \n",
        "Icon=\r\nIcon=y\r\n",
        "Icon=\rz\n",
        "a\n\nIcon=q",
        "Icon= \u{2003} \nIcon=w\n",
        "Icon=r\r",
    ];
    for entry in entries {
        let mut expected = None;
        for line in entry.lines() {
            if let Some(icon) = line.strip_prefix("Icon=") {
                let icon = icon.trim().to_string();
                if !icon.is_empty() {
                    expected = Some(icon);
                    break;
                }
            }
        }
        assert_eq!(desktop_icon(entry), expected);
    }
}

fn expected_entry_icon(content: &str, app_name: &str) -> Option<String> {
    let mut icon_val = None;
    let mut matches = false;
    for line in content.lines() {
        if let Some(v) = line.strip_prefix("Icon=") {
            icon_val = Some(v.trim().to_string());
        }
        if let Some(v) = line.strip_prefix("Exec=") {
            if v.to_lowercase().contains(app_name) {
                matches = true;
            }
        }
        if let Some(v) = line.strip_prefix("StartupWMClass=") {
            if v.to_lowercase() == app_name {
                matches = true;
            }
        }
    }
    if matches {
        icon_val
    } else {
        None
    }
}

#[test]
fn entry_icon_needs_a_matching_command_or_class() {
    let entry = "[Desktop Entry]\nName=Files\nExec=/usr/bin/Nautilus --new-window %U\nIcon=org.gnome.Nautilus\n";
    assert_eq!(desktop_entry_icon(entry, "nautilus"), Some("org.gnome.Nautilus".to_string()));
    assert_eq!(desktop_entry_icon(entry, "dolphin"), None);
    let entry = "Icon=code\nStartupWMClass=Code\n";
    assert_eq!(desktop_entry_icon(entry, "code"), Some("code".to_string()));
    assert_eq!(desktop_entry_icon(entry, "cod"), None);
    assert_eq!(desktop_entry_icon("Exec=code\n", "code"), None);
    assert_eq!(desktop_entry_icon("", "code"), None);
}

#[test]
fn entry_icon_is_what_the_last_icon_line_gives() {
    assert_eq!(desktop_entry_icon("Icon=a\nExec=app\nIcon= b \n", "app"), Some("b".to_string()));
    assert_eq!(desktop_entry_icon("Icon=a\nExec=app\nIcon=\n", "app"), Some(String::new()));
}

#[test]
fn entry_icon_agrees_with_the_standard_library() {
    let entries = [
        "Exec=Foo --bar\nIcon=foo\n",
        "Icon=foo\r\nStartupWMClass=Foo\r\n",
        "Icon=foo\nStartupWMClass=Foo \n",
        "Icon=foo\nStartupWMClass=Foo\r",
        "Icon=foo\nExec=\n",
        "Exec=FOO\nExec=bar",
        "StartupWMClass=foo\nIcon=x\nIcon=  y\u{3000}\n",
        "Icon=x\n\n\nExec=ÄFOOÖ\n",
        "no keys at all",
    ];
    for entry in entries {
        for app_name in ["foo", "", "bar", "äfooö", "foo "] {
            assert_eq!(desktop_entry_icon(entry, app_name), expected_entry_icon(entry, app_name));
        }
    }
}

#[test]
fn report_header_names_settings_and_candidates() {
    assert_eq!(
        debug_icon_search("org.gnome.Nautilus", "/home/u", "/usr/share"),
        strings(&["HOME=/home/u", "XDG_DATA_DIRS=/usr/share", "candidates: org.gnome.nautilus, nautilus"])
    );
}

#[test]
fn report_bases_include_pixmaps_of_each_data_dir() {
    assert_eq!(
        debug_icon_bases("/home/u", "/a:/b"),
        strings(&[
            "/home/u/.local/share/icons",
            "/home/u/.icons",
            "/a/icons",
            "/a/pixmaps",
            "/b/icons",
            "/b/pixmaps",
            "/usr/share/pixmaps",
        ])
    );
}

#[test]
fn report_shows_the_first_icon_line_as_it_is() {
    assert_eq!(debug_icon_line("Name=x\nIcon=  a \r\nIcon=b\n"), "Icon=  a ");
    assert_eq!(debug_icon_line("Icon="), "Icon=");
    assert_eq!(debug_icon_line("Name=x\n"), "Icon= NOT FOUND");
    assert_eq!(debug_icon_line(""), "Icon= NOT FOUND");
    for entry in ["a\nIcon=q\r", "Icon=\r\n", "x\r\nIcon= z\n"] {
        let expected = entry.lines().find(|l| l.starts_with("Icon=")).unwrap_or("Icon= NOT FOUND");
        assert_eq!(debug_icon_line(entry), expected);
    }
}
