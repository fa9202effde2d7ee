use unilii::theme_icons::{
    icon_file_kind, icon_name_variants, icon_search_roots, is_icon_path, path_join, theme_icon_candidates, IconAssetKind,
};

#[test]
fn search_roots_put_the_home_directories_first() {
    assert_eq!(
        icon_search_roots(Some("/home/ada")),
        vec![
            "/home/ada/.local/share/icons".to_string(),
            "/home/ada/.icons".to_string(),
            "/usr/share/icons".to_string(),
            "/usr/local/share/icons".to_string(),
            "/usr/share/pixmaps".to_string(),
        ]
    );
    assert_eq!(
        icon_search_roots(None),
        vec!["/usr/share/icons".to_string(), "/usr/local/share/icons".to_string(), "/usr/share/pixmaps".to_string()]
    );
}

#[test]
fn name_variants_drop_and_add_the_symbolic_suffix() {
    assert_eq!(
        icon_name_variants("audio-volume-high-symbolic"),
        vec![
            "audio-volume-high-symbolic".to_string(),
            "audio-volume-high".to_string(),
            "audio-volume-high-symbolic-symbolic".to_string(),
        ]
    );
    assert_eq!(
        icon_name_variants("nm-applet"),
        vec!["nm-applet".to_string(), "nm-applet".to_string(), "nm-applet-symbolic".to_string()]
    );
}

#[test]
fn path_join_follows_pathbuf_push() {
    assert_eq!(path_join("/usr/share", "icons"), "/usr/share/icons");
    assert_eq!(path_join("/usr/share/", "icons"), "/usr/share/icons");
    assert_eq!(path_join("/usr/share", "/etc/x.png"), "/etc/x.png");
    assert_eq!(path_join("", "icons"), "icons");
    for (base, part) in [("/usr/share", "icons"), ("/a/", "b/c"), ("", "x"), ("rel", "/abs")] {
        let expected = std::path::Path::new(base).join(part);
        assert_eq!(path_join(base, part), expected.to_str().unwrap());
    }
}

#[test]
fn candidates_try_the_root_then_every_theme_size_and_category() {
    let roots = vec!["/icons".to_string()];
    let c = theme_icon_candidates(&roots, "nm");
    assert_eq!(c.len(), 3 * (2 + 6 * 8 * 8 * 2));
    assert_eq!(c[0], "/icons/nm.png");
    assert_eq!(c[1], "/icons/nm.svg");
    assert_eq!(c[2], "/icons/Papirus-Dark/16x16/status/nm.png");
    assert_eq!(c[3], "/icons/Papirus-Dark/16x16/status/nm.svg");
    assert_eq!(c[4], "/icons/Papirus-Dark/16x16/apps/nm.png");
    assert_eq!(c[2 + 16], "/icons/Papirus-Dark/18x18/status/nm.png");
    assert_eq!(c[2 + 128], "/icons/Papirus/16x16/status/nm.png");
    assert_eq!(c[770], "/icons/nm.png");
    assert_eq!(c[2 * 770], "/icons/nm-symbolic.png");
    assert_eq!(c[c.len() - 1], "/icons/default/symbolic/mimetypes/nm-symbolic.svg");

    let two = theme_icon_candidates(&vec!["/a".to_string(), "/b".to_string()], "x");
    assert_eq!(two.len(), 2 * 3 * 770);
    assert_eq!(two[3 * 770], "/b/x.png");
}

#[test]
fn file_kind_goes_by_the_extension_without_case() {
    assert_eq!(icon_file_kind("/usr/share/pixmaps/a.PNG"), Some(IconAssetKind::Raster));
    assert_eq!(icon_file_kind("a.jpeg"), Some(IconAssetKind::Raster));
    assert_eq!(icon_file_kind("a.webp"), Some(IconAssetKind::Raster));
    assert_eq!(icon_file_kind("/x/y/icon.Svg"), Some(IconAssetKind::Svg));
    assert_eq!(icon_file_kind("a.txt"), None);
    assert_eq!(icon_file_kind("noext"), None);
    assert_eq!(icon_file_kind("/x/.png"), None);
}

#[test]
fn names_with_a_slash_or_dot_may_be_paths() {
    assert!(is_icon_path("/usr/share/pixmaps/a.png"));
    assert!(is_icon_path("icon.svg"));
    assert!(!is_icon_path("nm-applet"));
}
