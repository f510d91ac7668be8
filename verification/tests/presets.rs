use lumen_frame::persistence::presets::{builtin_preset_names, catalog_names};
use lumen_frame::config;
use lumen_frame::persistence::presets::{
    self, delete, file_name_for, is_builtin, list, save_target, toml_stem, PresetError,
    PresetFileEntry, PresetNameError,
};

#[test]
fn config_names_become_safe_file_names() {
    assert_eq!(config::file_name_for("我的风格").unwrap(), "我的风格.toml");
    assert_eq!(config::file_name_for("  dark  ").unwrap(), "dark.toml");

    let escaped = config::file_name_for("../etc/passwd").unwrap();
    assert!(!escaped.contains('/'), "{escaped}");
    assert!(!escaped.contains(".."), "{escaped}");
    assert!(escaped.ends_with(".toml"));

    assert!(config::file_name_for("   ").is_err());
    assert!(config::file_name_for("..").is_err());
}

#[test]
fn presets_names_become_safe_file_names() {
    assert_eq!(file_name_for("我的风格").unwrap(), "我的风格.toml");
    assert_eq!(file_name_for("  dark  ").unwrap(), "dark.toml");
    let escaped = file_name_for("../etc/passwd").unwrap();
    assert!(!escaped.contains('/'));
    assert!(!escaped.contains(".."));
    assert!(file_name_for("   ").is_err());
    assert!(file_name_for("..").is_err());
}

#[test]
fn file_names_replace_reserved_and_control_characters() {
    assert_eq!(file_name_for("a/b\\c:d*e?f\"g<h>i|j").unwrap(), "a_b_c_d_e_f_g_h_i_j.toml");
    assert_eq!(file_name_for("tab\there\u{7f}").unwrap(), "tab_here_.toml");
    assert_eq!(file_name_for("../etc/passwd").unwrap(), "_etc_passwd.toml");
    assert_eq!(file_name_for(" . name . ").unwrap(), "name.toml");
    assert_eq!(file_name_for("\u{3000}全角\u{3000}").unwrap(), "全角.toml");
}

#[test]
fn file_name_errors_name_their_cause() {
    assert_eq!(file_name_for(""), Err(PresetNameError::Empty));
    assert_eq!(file_name_for(" \t\n "), Err(PresetNameError::Empty));
    assert_eq!(file_name_for(". . ."), Err(PresetNameError::OnlyPunctuation));
    assert_eq!(file_name_for("."), Err(PresetNameError::OnlyPunctuation));
}

#[test]
fn builtin_presets_are_recognised_exactly() {
    assert!(is_builtin("16_9"));
    assert!(is_builtin("基础样式"));
    assert!(is_builtin("文字在上"));
    assert!(is_builtin("白色边框"));
    assert!(is_builtin("纯色背景_文字在下"));
    assert!(!is_builtin(" 16_9"));
    assert!(!is_builtin("16_"));
    assert!(!is_builtin(""));
}

#[test]
fn builtin_presets_cannot_be_deleted_or_overwritten() {
    assert_eq!(delete("16_9"), Err(PresetError::Builtin));
    assert_eq!(delete("mine").unwrap(), "mine.toml");
    assert_eq!(delete("  "), Err(PresetError::Name(PresetNameError::Empty)));
    assert!(matches!(save_target("  白色边框 "), Err(PresetError::Builtin)));
    let target = save_target("  my look ").unwrap();
    assert_eq!(target.file_name, "my look.toml");
    assert_eq!(target.name, "my look");
    assert!(matches!(save_target(".."), Err(PresetError::Name(PresetNameError::OnlyPunctuation))));
}

#[test]
fn preset_config_deletes_without_builtin_check() {
    assert_eq!(config::delete_preset("16_9").unwrap(), "16_9.toml");
    assert!(config::is_supported_format(config::PRESET_FORMAT_VERSION));
    assert!(!config::is_supported_format(config::PRESET_FORMAT_VERSION + 1));
}

#[test]
fn toml_stems_follow_path_extension_rules() {
    assert_eq!(toml_stem("look.toml").as_deref(), Some("look"));
    assert_eq!(toml_stem("a.b.toml").as_deref(), Some("a.b"));
    assert_eq!(toml_stem(".toml"), None);
    assert_eq!(toml_stem("look.txt"), None);
    assert_eq!(toml_stem("look.TOML"), None);
    assert_eq!(toml_stem("toml"), None);
}

fn entry(file_name: &str, recorded: Option<&str>) -> PresetFileEntry {
    PresetFileEntry {
        file_name: file_name.to_string(),
        recorded_name: recorded.map(str::to_string),
    }
}

#[test]
fn listing_sorts_names_and_skips_other_files() {
    let entries = vec![
        entry("zeta.toml", None),
        entry("notes.txt", Some("ignored")),
        entry("a_b.toml", Some("a/b")),
        entry("Beta.toml", None),
        entry(".toml", None),
        entry("中文.toml", None),
    ];
    let names = list(&entries);
    assert_eq!(names, vec!["Beta", "a/b", "zeta", "中文"]);
    assert_eq!(config::list_presets(&entries), names);
    assert!(presets::list(&Vec::new()).is_empty());
}

#[test]
fn catalog_lists_builtins_first_then_readable_saved_presets() {
    let listed = vec!["16_9".to_string(), "mine".to_string(), "broken".to_string(), "yours".to_string()];
    let readable = vec![true, true, false, true];
    let mut expected = builtin_preset_names();
    expected.push("mine".to_string());
    expected.push("yours".to_string());
    assert_eq!(catalog_names(&listed, &readable), expected);
    assert_eq!(
        builtin_preset_names(),
        vec!["16_9", "基础样式", "文字在上", "白色边框", "纯色背景_文字在下"]
    );
}
