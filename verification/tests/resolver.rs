use winpin::icon::{icon_from_bgra, get_icon_base64, get_png_base64, IconImage};
use winpin::lang::{
    is_simplified_chinese, is_traditional_chinese, order_translations, primary_lang, sub_lang,
    Translation,
};
use winpin::meta::{get_app_info, get_app_info_by_path, lnk_info_of, target_executable, LnkInfo};
use winpin::names::{get_app_names, AppNames, TranslationEntry};
use winpin::paths::{after_last_char, exe_stem, file_stem, path_kind, PathKind};
use winpin::WinError;

const ZH_CN: u16 = 0x0804;
const ZH_TW: u16 = 0x0404;
const EN_US: u16 = 0x0409;

fn tr(lang: u16) -> Translation {
    Translation { lang, codepage: 1200 }
}

fn entry(lang: u16, fd: Option<&str>, pn: Option<&str>) -> TranslationEntry {
    TranslationEntry {
        translation: tr(lang),
        file_description: fd.map(|s| s.to_string()),
        product_name: pn.map(|s| s.to_string()),
    }
}

fn rgba_icon(width: u32, height: u32) -> IconImage {
    IconImage {
        width,
        height,
        rgba: vec![0u8; (width * height * 4) as usize],
    }
}

#[test]
fn language_id_fields() {
    assert_eq!(primary_lang(ZH_CN), 0x04);
    assert_eq!(sub_lang(ZH_CN), 0x02);
    assert_eq!(primary_lang(ZH_TW), 0x04);
    assert_eq!(sub_lang(ZH_TW), 0x01);
    assert!(is_simplified_chinese(ZH_CN));
    assert!(!is_traditional_chinese(ZH_CN));
    assert!(is_traditional_chinese(ZH_TW));
    assert!(!is_simplified_chinese(ZH_TW));
    assert!(!is_simplified_chinese(EN_US));
    assert!(!is_traditional_chinese(EN_US));
}

#[test]
fn translation_tiers_reorder() {
    let input = vec![tr(EN_US), tr(ZH_TW), tr(ZH_CN)];
    let ordered = order_translations(&input);
    let langs: Vec<u16> = ordered.iter().map(|t| t.lang).collect();
    assert_eq!(langs, vec![ZH_CN, ZH_TW, EN_US]);
}

#[test]
fn translation_tiers_keep_relative_order() {
    let input = vec![tr(EN_US), tr(0x0804), tr(0x1004), tr(ZH_TW), tr(0x0407)];
    let ordered = order_translations(&input);
    let langs: Vec<u16> = ordered.iter().map(|t| t.lang).collect();
    // 0x1004 has sublanguage 4, so it is no simplified-Chinese locale and
    // stays among the others, behind 0x0409 as in the input.
    assert_eq!(langs, vec![0x0804, ZH_TW, EN_US, 0x1004, 0x0407]);
}

#[test]
fn names_prefer_simplified_chinese() {
    let entries = vec![
        entry(EN_US, Some("English"), Some("EnglishProduct")),
        entry(ZH_TW, Some("Traditional"), None),
        entry(ZH_CN, Some("Simplified"), None),
    ];
    let names = get_app_names(&entries);
    assert_eq!(names.file_description.as_deref(), Some("Simplified"));
    assert_eq!(names.product_name.as_deref(), Some("EnglishProduct"));
}

#[test]
fn names_higher_tier_value_never_overwritten() {
    let entries = vec![
        entry(ZH_CN, Some("First"), Some("P1")),
        entry(ZH_CN, Some("Second"), Some("P2")),
        entry(EN_US, Some("Lower"), Some("P3")),
    ];
    let names = get_app_names(&entries);
    assert_eq!(names.file_description.as_deref(), Some("First"));
    assert_eq!(names.product_name.as_deref(), Some("P1"));
}

#[test]
fn names_skip_empty_and_missing_values() {
    let entries = vec![
        entry(ZH_CN, Some(""), None),
        entry(ZH_TW, None, Some("")),
        entry(EN_US, Some("Fallback"), Some("Product")),
    ];
    let names = get_app_names(&entries);
    assert_eq!(names.file_description.as_deref(), Some("Fallback"));
    assert_eq!(names.product_name.as_deref(), Some("Product"));
}

#[test]
fn names_all_absent() {
    let entries = vec![entry(ZH_CN, None, None)];
    let names = get_app_names(&entries);
    assert!(names.file_description.is_none());
    assert!(names.product_name.is_none());
}

#[test]
fn after_last_char_cases() {
    assert_eq!(after_last_char("a\\b\\c.exe", '\\'), "c.exe");
    assert_eq!(after_last_char("no-sep", '\\'), "no-sep");
    assert_eq!(after_last_char("trailing\\", '\\'), "");
    assert_eq!(after_last_char("x.tar.gz", '.'), "gz");
}

#[test]
fn exe_stem_cases() {
    assert_eq!(exe_stem("C:\\Windows\\notepad.exe"), "notepad");
    assert_eq!(exe_stem("C:\\Apps\\Tool.EXE"), "Tool");
    assert_eq!(exe_stem("bare"), "bare");
    assert_eq!(exe_stem("C:\\a\\b.txt"), "b.txt");
}

#[test]
fn file_stem_cases() {
    assert_eq!(file_stem("C:\\d\\Note Pad.lnk"), "Note Pad");
    assert_eq!(file_stem("archive.tar.gz"), "archive.tar");
    assert_eq!(file_stem(".hidden"), ".hidden");
    assert_eq!(file_stem("plain"), "plain");
    assert_eq!(file_stem("C:\\a\\b"), "b");
}

#[test]
fn lnk_info_from_plain_values() {
    let info = lnk_info_of("C:\\d\\App.lnk", "C:\\x\\app.exe");
    assert_eq!(info.name, "App");
    assert_eq!(info.target_path.as_deref(), Some("C:\\x\\app.exe"));
    // An empty stored target means the shortcut points at nothing.
    let info = lnk_info_of("C:\\d\\App.lnk", "");
    assert_eq!(info.name, "App");
    assert!(info.target_path.is_none());
}

#[test]
fn path_kind_cases() {
    assert_eq!(path_kind("a.exe"), PathKind::Executable);
    assert_eq!(path_kind("A.EXE"), PathKind::Executable);
    assert_eq!(path_kind("a.lnk"), PathKind::Shortcut);
    assert_eq!(path_kind("A.LNK"), PathKind::Shortcut);
    assert_eq!(path_kind("a.txt"), PathKind::Unsupported);
    assert_eq!(path_kind("noext"), PathKind::Unsupported);
    assert_eq!(path_kind("dir.exe\\file"), PathKind::Unsupported);
}

#[test]
fn icon_swaps_bgra_to_rgba() {
    let bgra = vec![1u8, 2, 3, 4, 5, 6, 7, 8];
    let icon = icon_from_bgra(2, 1, bgra).unwrap();
    assert_eq!(icon.rgba, vec![3u8, 2, 1, 4, 7, 6, 5, 8]);
    assert_eq!(icon.width, 2);
    assert_eq!(icon.height, 1);
}

#[test]
fn icon_buffer_matches_dimensions() {
    for size in [16u32, 48, 256] {
        let bgra = vec![0u8; (size * size * 4) as usize];
        let icon = icon_from_bgra(size, size, bgra).unwrap();
        assert_eq!(icon.rgba.len() as u32, icon.width * icon.height * 4);
        assert_eq!(icon.width, size);
        assert_eq!(icon.height, size);
    }
}

#[test]
fn icon_rejects_bad_buffers() {
    assert!(matches!(icon_from_bgra(0, 4, vec![]), Err(WinError::IconError)));
    assert!(matches!(icon_from_bgra(4, 0, vec![]), Err(WinError::IconError)));
    assert!(matches!(icon_from_bgra(2, 2, vec![0u8; 15]), Err(WinError::IconError)));
    assert!(matches!(icon_from_bgra(1, 1, vec![0u8; 8]), Err(WinError::IconError)));
}

#[test]
fn raw_icon_base64_exact() {
    let icon = IconImage { width: 1, height: 1, rgba: vec![0, 0, 0, 255] };
    assert_eq!(get_icon_base64(&icon), "AAAA/w==");
    let icon2 = IconImage { width: 1, height: 1, rgba: vec![77, 97, 110, 1] };
    assert_eq!(get_icon_base64(&icon2), "TWFuAQ==");
}

#[test]
fn png_base64_round_trips() {
    let icon = IconImage { width: 2, height: 2, rgba: vec![
        255, 0, 0, 255, 0, 255, 0, 255, 0, 0, 255, 255, 9, 8, 7, 6,
    ] };
    let b64 = get_png_base64(&icon).unwrap();
    let png = base64::Engine::decode(&base64::engine::general_purpose::STANDARD, &b64).unwrap();
    let img = image::load_from_memory(&png).unwrap().to_rgba8();
    assert_eq!(img.width(), 2);
    assert_eq!(img.height(), 2);
    assert_eq!(img.into_raw(), icon.rgba);
}

#[test]
fn png_base64_rejects_malformed_icon() {
    let icon = IconImage { width: 3, height: 3, rgba: vec![0u8; 4] };
    assert!(matches!(get_png_base64(&icon), Err(WinError::IconError)));
}

#[test]
fn app_info_display_name_fallbacks() {
    let icon = || Some(rgba_icon(1, 1));
    let both = AppNames {
        file_description: Some("Editor".to_string()),
        product_name: Some("Suite".to_string()),
    };
    let meta = get_app_info("C:\\x\\edit.exe", icon(), &both).unwrap();
    assert_eq!(meta.display_name, "Editor");
    assert_eq!(meta.name, "edit");
    assert_eq!(meta.path, "C:\\x\\edit.exe");
    assert!(!meta.is_top_most);

    let only_product = AppNames {
        file_description: None,
        product_name: Some("Suite".to_string()),
    };
    let meta = get_app_info("C:\\x\\edit.exe", icon(), &only_product).unwrap();
    assert_eq!(meta.display_name, "Suite");

    let neither = AppNames { file_description: None, product_name: None };
    let meta = get_app_info("C:\\x\\edit.exe", icon(), &neither).unwrap();
    assert_eq!(meta.display_name, "edit");
}

#[test]
fn app_info_without_icon_fails() {
    let names = AppNames { file_description: None, product_name: None };
    let r = get_app_info("C:\\x\\edit.exe", None, &names);
    assert!(matches!(r, Err(WinError::IconError)));
}

#[test]
fn shortcut_to_notepad_resolves() {
    let lnk = Some(LnkInfo {
        name: "Notepad".to_string(),
        target_path: Some("C:\\Windows\\notepad.exe".to_string()),
    });
    let names = AppNames { file_description: None, product_name: None };
    let meta = get_app_info_by_path(
        "C:\\Users\\me\\Desktop\\Notepad.lnk",
        &lnk,
        Some(rgba_icon(1, 1)),
        &names,
    )
    .unwrap();
    assert_eq!(meta.name, "notepad");
    assert_eq!(meta.path, "C:\\Windows\\notepad.exe");
    assert_eq!(meta.display_name, "notepad");
}

#[test]
fn text_file_is_unsupported() {
    let names = AppNames { file_description: None, product_name: None };
    let r = get_app_info_by_path("C:\\notes\\todo.txt", &None, Some(rgba_icon(1, 1)), &names);
    assert!(matches!(r, Err(WinError::UnsupportedFileType)));
}

#[test]
fn shortcut_failures() {
    // Dereferencing failed altogether.
    assert!(matches!(
        target_executable("a.lnk", &None),
        Err(WinError::LinkError)
    ));
    // The shortcut stores no target.
    let empty = Some(LnkInfo { name: "x".to_string(), target_path: None });
    assert!(matches!(target_executable("a.lnk", &empty), Err(WinError::LinkError)));
    // The target is not an executable.
    let doc = Some(LnkInfo {
        name: "x".to_string(),
        target_path: Some("C:\\readme.txt".to_string()),
    });
    assert!(matches!(target_executable("a.lnk", &doc), Err(WinError::UnsupportedTarget)));
    // A direct executable ignores the shortcut argument.
    assert_eq!(target_executable("C:\\a.exe", &None).unwrap(), "C:\\a.exe");
}
