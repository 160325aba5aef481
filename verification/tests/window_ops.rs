use winpin::meta::AppMeta;
use winpin::settings::{AppExitType, AppSettings};
use winpin::topmost::{
    apply_plan, cancel_all_topmost, show_and_not_topmost, show_and_topmost, ModelWindow, TopAction,
};
use winpin::winlist::{
    enum_windows, is_window_topmost, passes_window_filter, WindowInfo, WindowProbe,
    WS_EX_TOOLWINDOW_BIT, WS_EX_TOPMOST_BIT, WS_VISIBLE_BIT,
};

fn meta(name: &str) -> AppMeta {
    AppMeta {
        name: name.to_string(),
        path: format!("C:\\bin\\{}.exe", name),
        icon_png: "icon".to_string(),
        display_name: name.to_string(),
        is_top_most: false,
    }
}

fn probe(hwnd: isize, title: Option<&str>, with_meta: bool) -> WindowProbe {
    WindowProbe {
        hwnd,
        visible: true,
        style: WS_VISIBLE_BIT,
        ex_style: 0,
        title: title.map(|t| t.to_string()),
        meta: if with_meta { Some(meta("app")) } else { None },
    }
}

#[test]
fn filter_bits() {
    assert!(passes_window_filter(true, WS_VISIBLE_BIT, 0, 7, None));
    assert!(!passes_window_filter(false, WS_VISIBLE_BIT, 0, 7, None));
    assert!(!passes_window_filter(true, 0, 0, 7, None));
    assert!(!passes_window_filter(true, WS_VISIBLE_BIT, WS_EX_TOOLWINDOW_BIT, 7, None));
    assert!(!passes_window_filter(true, WS_VISIBLE_BIT, 0, 7, Some(7)));
    assert!(passes_window_filter(true, WS_VISIBLE_BIT, 0, 7, Some(8)));
}

#[test]
fn topmost_bit_read() {
    assert!(is_window_topmost(WS_EX_TOPMOST_BIT));
    assert!(is_window_topmost(WS_EX_TOPMOST_BIT | WS_EX_TOOLWINDOW_BIT));
    assert!(!is_window_topmost(0));
    assert!(!is_window_topmost(WS_EX_TOOLWINDOW_BIT));
}

#[test]
fn enumeration_filters_and_keeps_order() {
    let mut hidden = probe(1, Some("hidden"), true);
    hidden.visible = false;
    let mut tool = probe(2, Some("tool"), true);
    tool.ex_style = WS_EX_TOOLWINDOW_BIT;
    let untitled = probe(3, None, true);
    let empty_title = probe(4, Some(""), true);
    let unresolved = probe(5, Some("lost"), false);
    let own = probe(6, Some("own window"), true);
    let first = probe(7, Some("first"), true);
    let mut second = probe(8, Some("second"), true);
    second.ex_style = WS_EX_TOPMOST_BIT;

    let probes = vec![hidden, first.clone(), tool, untitled, empty_title, unresolved, own,
        second.clone()];
    let list = enum_windows(&probes, Some(6));
    assert_eq!(list.len(), 2);
    assert_eq!(list[0].hwnd, 7);
    assert_eq!(list[0].title, "first");
    assert_eq!(list[0].name, "app");
    assert!(!list[0].is_top_most);
    assert_eq!(list[1].hwnd, 8);
    assert!(list[1].is_top_most);
    assert!(list.len() <= probes.len());
}

#[test]
fn enumeration_without_exclusion_lists_own_window() {
    let probes = vec![probe(6, Some("own window"), true)];
    let list = enum_windows(&probes, None);
    assert_eq!(list.len(), 1);
    assert_eq!(list[0].hwnd, 6);
}

#[test]
fn raise_plan_contents() {
    let plan = show_and_topmost(5, Some(9), true);
    assert_eq!(plan, vec![
        TopAction::Restore(5),
        TopAction::SetTopmost(5),
        TopAction::Show(5),
        TopAction::Foreground(5),
        TopAction::SetTopmost(9),
    ]);
    let plan = show_and_topmost(5, None, false);
    assert_eq!(plan, vec![
        TopAction::SetTopmost(5),
        TopAction::Show(5),
        TopAction::Foreground(5),
    ]);
    assert_eq!(show_and_not_topmost(5), vec![TopAction::SetNotTopmost(5)]);
}

#[test]
fn cancel_plan_contents() {
    let plan = cancel_all_topmost(&vec![3, 4, 3]);
    assert_eq!(plan, vec![
        TopAction::SetNotTopmost(3),
        TopAction::SetNotTopmost(4),
        TopAction::SetNotTopmost(3),
    ]);
    assert!(cancel_all_topmost(&vec![]).is_empty());
}

fn window(hwnd: isize, minimized: bool, topmost: bool) -> ModelWindow {
    ModelWindow { hwnd, minimized, topmost, visible: true }
}

#[test]
fn raise_then_lower_leaves_not_topmost() {
    let mut desktop = vec![window(5, true, false), window(9, false, true), window(2, false, false)];
    apply_plan(&mut desktop, &show_and_topmost(5, Some(9), true));
    assert!(desktop[0].topmost);
    assert!(!desktop[0].minimized);
    assert!(desktop[1].topmost);
    apply_plan(&mut desktop, &show_and_not_topmost(5));
    assert!(!desktop[0].topmost);
    assert!(desktop[1].topmost);
    assert_eq!(desktop[2], window(2, false, false));
}

#[test]
fn lower_leaves_visibility_untouched() {
    // Disabling always-on-top must not show a hidden window.
    let mut desktop = vec![ModelWindow { hwnd: 5, minimized: false, topmost: true, visible: false }];
    apply_plan(&mut desktop, &show_and_not_topmost(5));
    assert!(!desktop[0].topmost);
    assert!(!desktop[0].visible);
}

#[test]
fn lower_is_noop_when_not_topmost() {
    // On a window that is not topmost (hidden or not), disabling changes
    // nothing at all; a second disable in a row is a state-level no-op.
    let start = ModelWindow { hwnd: 4, minimized: true, topmost: false, visible: false };
    let mut desktop = vec![start];
    apply_plan(&mut desktop, &show_and_not_topmost(4));
    assert_eq!(desktop[0], start);
    let mut desktop = vec![ModelWindow { hwnd: 4, minimized: false, topmost: true, visible: true }];
    apply_plan(&mut desktop, &show_and_not_topmost(4));
    let after_first = desktop[0];
    apply_plan(&mut desktop, &show_and_not_topmost(4));
    assert_eq!(desktop[0], after_first);
}

#[test]
fn cancel_all_survives_stale_handle() {
    // Handle 1 no longer exists; handle 2 must still be lowered.
    let mut desktop = vec![window(2, false, true), window(3, false, true)];
    apply_plan(&mut desktop, &cancel_all_topmost(&vec![1, 2]));
    assert!(!desktop[0].topmost);
    assert!(desktop[1].topmost);
    assert_eq!(desktop.len(), 2);
}

#[test]
fn settings_default() {
    let s = AppSettings::default();
    assert!(!s.auto_start);
    assert_eq!(s.app_exit_type, AppExitType::Minimize);
}

#[test]
fn window_info_default_is_empty() {
    let w = WindowInfo::default();
    assert_eq!(w.hwnd, 0);
    assert!(w.title.is_empty());
    assert!(w.name.is_empty());
    assert!(w.display_name.is_empty());
    assert!(w.icon_png.is_empty());
    assert!(!w.is_top_most);
}
