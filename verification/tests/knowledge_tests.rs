use tkill_ai::knowledge::{app_knowledge, lookup_package, KnowledgeBase};

#[test]
fn russian_name_is_found() {
    assert_eq!(lookup_package("телеграм"), Some("telegram-desktop".to_string()));
    assert_eq!(lookup_package("браузер"), Some("firefox".to_string()));
    assert_eq!(lookup_package("файловый менеджер"), Some("thunar".to_string()));
}

#[test]
fn english_name_is_found() {
    assert_eq!(lookup_package("file manager"), Some("thunar".to_string()));
    assert_eq!(lookup_package("office"), Some("libreoffice-fresh".to_string()));
    assert_eq!(lookup_package("disk"), Some("gnome-disk-utility".to_string()));
}

#[test]
fn lookup_ignores_letter_case() {
    assert_eq!(lookup_package("Firefox"), Some("firefox".to_string()));
    assert_eq!(lookup_package("ТЕЛЕГРАМ"), Some("telegram-desktop".to_string()));
    assert_eq!(lookup_package("VSCode"), Some("visual-studio-code-bin".to_string()));
}

#[test]
fn numbered_entries_are_found() {
    assert_eq!(lookup_package("app_1"), Some("package-1".to_string()));
    assert_eq!(lookup_package("app_42"), Some("package-42".to_string()));
    assert_eq!(lookup_package("APP_100"), Some("package-100".to_string()));
    assert_eq!(lookup_package("app_101"), None);
    assert_eq!(lookup_package("app_0"), None);
}

#[test]
fn unknown_name_is_not_found() {
    assert_eq!(lookup_package("nonexistent-app"), None);
    assert_eq!(lookup_package(""), None);
    assert_eq!(lookup_package(" firefox"), None);
}

#[test]
fn repeated_entries_keep_one_package() {
    assert_eq!(lookup_package("discord"), Some("discord".to_string()));
    assert_eq!(lookup_package("git"), Some("git".to_string()));
    assert_eq!(lookup_package("steam"), Some("steam".to_string()));
}

#[test]
fn table_answers_like_lookup() {
    let kb = app_knowledge();
    assert_eq!(kb.get("gimp"), Some("gimp".to_string()));
    assert_eq!(kb.get("Gimp"), None);
    assert_eq!(kb.get("компас"), Some("libreoffice".to_string()));
}

#[test]
fn insert_then_get_gives_back_package() {
    let mut kb = KnowledgeBase::new();
    assert_eq!(kb.get("editor"), None);
    kb.insert("editor".to_string(), "gedit".to_string());
    kb.insert("terminal".to_string(), "alacritty".to_string());
    assert_eq!(kb.get("editor"), Some("gedit".to_string()));
    kb.insert("editor".to_string(), "kate".to_string());
    assert_eq!(kb.get("editor"), Some("kate".to_string()));
    assert_eq!(kb.get("terminal"), Some("alacritty".to_string()));
    assert_eq!(kb.get("browser"), None);
}

#[test]
fn table_lookup_ignores_letter_case() {
    let kb = app_knowledge();
    assert_eq!(kb.lookup("GIMP"), Some("gimp".to_string()));
    assert_eq!(kb.lookup("Блендер"), Some("blender".to_string()));
    assert_eq!(kb.lookup("App_7"), Some("package-7".to_string()));
    assert_eq!(kb.lookup("nothing"), None);
}
