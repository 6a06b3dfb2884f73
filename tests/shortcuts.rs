use client_core::bindings::{
    check_registration, handle_shortcut, shortcut_setting_key, ShortcutError, ShortcutResponse,
    ShortcutSignal, ShortcutTable, WindowOp,
};
use client_core::shortcut::{
    modifier_for_word, parse_shortcut, shortcut_to_string, KeyCombo, ModifierKind, ModifierSet,
    ShortcutActionType,
};

fn mods(control: bool, alt: bool, shift: bool, meta: bool) -> ModifierSet {
    ModifierSet { control, alt, shift, meta, super_key: false }
}

fn combo(m: ModifierSet, key: &str) -> KeyCombo {
    KeyCombo { modifiers: m, key: key.to_string() }
}

fn table(values: &[Option<&str>]) -> ShortcutTable {
    let v: Vec<Option<String>> = values.iter().map(|o| o.map(|s| s.to_string())).collect();
    ShortcutTable::from_settings(&v)
}

#[test]
fn action_types_by_slot() {
    assert_eq!(ShortcutActionType::from_key(1), Some(ShortcutActionType::Hide));
    assert_eq!(ShortcutActionType::from_key(2), Some(ShortcutActionType::HideOrShowApp));
    assert_eq!(ShortcutActionType::from_key(3), Some(ShortcutActionType::Reload));
    assert_eq!(ShortcutActionType::from_key(4), Some(ShortcutActionType::NewWorkflow));
    assert_eq!(ShortcutActionType::from_key(5), Some(ShortcutActionType::OpenSubWindow));
    assert_eq!(ShortcutActionType::from_key(0), None);
    assert_eq!(ShortcutActionType::from_key(6), None);
    assert_eq!(ShortcutActionType::from_key(-1), None);
}

#[test]
fn modifier_words() {
    assert_eq!(modifier_for_word("control"), Some(ModifierKind::Control));
    assert_eq!(modifier_for_word("meta"), Some(ModifierKind::Meta));
    assert_eq!(modifier_for_word("super"), Some(ModifierKind::Meta));
    assert_eq!(modifier_for_word("alt"), Some(ModifierKind::Alt));
    assert_eq!(modifier_for_word("shift"), Some(ModifierKind::Shift));
    assert_eq!(modifier_for_word("Control"), None);
    assert_eq!(modifier_for_word("ctrl"), None);
}

#[test]
fn parse_shortcut_with_modifiers() {
    let c = parse_shortcut("Control + Shift + KeyA").unwrap();
    assert_eq!(c.modifiers, mods(true, false, true, false));
    assert_eq!(c.key, "KeyA");
    let c = parse_shortcut("CONTROL + super + Alt + F5").unwrap();
    assert_eq!(c.modifiers, mods(true, true, false, true));
    assert_eq!(c.key, "F5");
}

#[test]
fn parse_shortcut_takes_canonical_key_names() {
    let c = parse_shortcut("Meta + OSLeft").unwrap();
    assert_eq!(c.key, "MetaLeft");
}

#[test]
fn parse_shortcut_refusals() {
    assert!(parse_shortcut("KeyA").is_none());
    assert!(parse_shortcut("").is_none());
    assert!(parse_shortcut("Control + NoSuchKey").is_none());
    assert!(parse_shortcut("Hyper + KeyA").is_none());
    assert!(parse_shortcut("Control+KeyA").is_none());
}

#[test]
fn parse_shortcut_skips_unknown_modifier_words() {
    let c = parse_shortcut("Hyper + Shift + Digit1").unwrap();
    assert_eq!(c.modifiers, mods(false, false, true, false));
    assert_eq!(c.key, "Digit1");
}

#[test]
fn shortcut_text() {
    assert_eq!(shortcut_to_string(mods(true, true, false, false), "KeyA"), "Control + Alt + KeyA");
    let all = ModifierSet { control: true, alt: true, shift: true, meta: true, super_key: true };
    assert_eq!(shortcut_to_string(all, "KeyZ"), "Control + SUPER + META + Alt + Shift + KeyZ");
    assert_eq!(shortcut_to_string(ModifierSet::empty(), "Space"), "Space");
}

#[test]
fn text_round_trip() {
    let text = shortcut_to_string(mods(true, false, true, false), "KeyQ");
    let c = parse_shortcut(&text).unwrap();
    assert_eq!(c.modifiers, mods(true, false, true, false));
    assert_eq!(c.key, "KeyQ");
}

#[test]
fn setting_keys() {
    assert_eq!(shortcut_setting_key(1), "shortcut_1");
    assert_eq!(shortcut_setting_key(5), "shortcut_5");
}

#[test]
fn table_from_settings() {
    let t = table(&[
        Some("Control + KeyA"),
        None,
        Some(""),
        Some("not a shortcut"),
        Some("Alt + F5"),
        Some("Shift + KeyQ"),
    ]);
    let all = t.shortcuts();
    assert_eq!(all.len(), 2);
    assert_eq!(all[0].key, "KeyA");
    assert_eq!(all[1].key, "F5");
    assert_eq!(t.action_for(&combo(mods(true, false, false, false), "KeyA")), Some(ShortcutActionType::Hide));
    assert_eq!(
        t.action_for(&combo(mods(false, true, false, false), "F5")),
        Some(ShortcutActionType::OpenSubWindow)
    );
    assert_eq!(t.action_for(&combo(mods(false, false, true, false), "KeyQ")), None);
}

#[test]
fn later_slot_overrides_earlier() {
    let t = table(&[Some("Control + KeyA"), None, Some("Control + KeyA")]);
    assert_eq!(t.shortcuts().len(), 2);
    assert_eq!(t.action_for(&combo(mods(true, false, false, false), "KeyA")), Some(ShortcutActionType::Reload));
}

#[test]
fn empty_settings_give_empty_table() {
    let t = table(&[]);
    assert!(t.shortcuts().is_empty());
    assert!(ShortcutTable::new().shortcuts().is_empty());
}

#[test]
fn registration_checks() {
    let t = table(&[Some("Control + KeyA"), Some("Alt + KeyB")]);
    match check_registration(&t, "Control + KeyA", Some(2)) {
        Err(e @ ShortcutError::InUse(_)) => assert_eq!(e.message(), "快捷键 'Control + KeyA' 已被使用"),
        other => panic!("unexpected {:?}", other),
    }
    match check_registration(&t, "Control + KeyA", None) {
        Err(ShortcutError::InUse(s)) => assert_eq!(s, "Control + KeyA"),
        other => panic!("unexpected {:?}", other),
    }
    let c = check_registration(&t, "Control + KeyA", Some(1)).unwrap();
    assert_eq!(c.key, "KeyA");
    let c = check_registration(&t, "Shift + KeyC", Some(3)).unwrap();
    assert_eq!(c.modifiers, mods(false, false, true, false));
    match check_registration(&t, "KeyC", Some(3)) {
        Err(e @ ShortcutError::InvalidFormat(_)) => assert_eq!(e.message(), "Invalid shortcut format: KeyC"),
        other => panic!("unexpected {:?}", other),
    }
}

#[test]
fn blur_keeps_show_hide_shortcut() {
    let t = table(&[Some("Control + KeyA"), Some("Control + KeyB"), Some("Control + KeyC")]);
    let released = t.shortcuts_to_release(&t.shortcuts());
    let keys: Vec<&str> = released.iter().map(|c| c.key.as_str()).collect();
    assert_eq!(keys, vec!["KeyA", "KeyC"]);
}

#[test]
fn blur_follows_the_overriding_slot() {
    // slot 2 shows or hides the app, but slot 3 rebinds the same combo
    let t = table(&[None, Some("Control + KeyB"), Some("Control + KeyB")]);
    assert_eq!(t.shortcuts_to_release(&t.shortcuts()).len(), 2);
}

#[test]
fn blur_releases_the_setup_list_against_the_current_table() {
    let at_setup = table(&[Some("Control + KeyA"), Some("Control + KeyB")]).shortcuts();
    // reloaded later: KeyA now shows or hides the application
    let now = table(&[None, Some("Control + KeyA")]);
    let released = now.shortcuts_to_release(&at_setup);
    let keys: Vec<&str> = released.iter().map(|c| c.key.as_str()).collect();
    assert_eq!(keys, vec!["KeyB"]);
}

#[test]
fn pressing_shortcuts() {
    let t = table(&[
        Some("Control + KeyA"),
        Some("Control + KeyB"),
        Some("Control + KeyC"),
        Some("Control + KeyD"),
        Some("Control + KeyE"),
    ]);
    let ctrl = mods(true, false, false, false);
    let keep = |signal| ShortcutResponse { window: WindowOp::Keep, signal };
    assert_eq!(handle_shortcut(false, &t, &combo(ctrl, "KeyA"), true, Some(true)), keep(None));
    assert_eq!(
        handle_shortcut(true, &t, &combo(ctrl, "KeyA"), true, Some(true)),
        ShortcutResponse { window: WindowOp::Close, signal: Some(ShortcutSignal::Hide) }
    );
    assert_eq!(handle_shortcut(true, &t, &combo(ctrl, "KeyA"), false, None), keep(None));
    assert_eq!(handle_shortcut(true, &t, &combo(ctrl, "KeyB"), true, Some(true)), keep(Some(ShortcutSignal::Hide)));
    assert_eq!(handle_shortcut(true, &t, &combo(ctrl, "KeyB"), true, None), keep(Some(ShortcutSignal::Hide)));
    assert_eq!(
        handle_shortcut(true, &t, &combo(ctrl, "KeyB"), true, Some(false)),
        ShortcutResponse { window: WindowOp::ShowAndFocus, signal: Some(ShortcutSignal::Show) }
    );
    assert_eq!(
        handle_shortcut(true, &t, &combo(ctrl, "KeyC"), true, Some(true)),
        ShortcutResponse { window: WindowOp::Reload, signal: Some(ShortcutSignal::Reload) }
    );
    assert_eq!(handle_shortcut(true, &t, &combo(ctrl, "KeyD"), false, None), keep(Some(ShortcutSignal::NewWorkflow)));
    assert_eq!(handle_shortcut(true, &t, &combo(ctrl, "KeyE"), false, None), keep(Some(ShortcutSignal::OpenSubWindow)));
    assert_eq!(handle_shortcut(true, &t, &combo(ctrl, "KeyF"), true, Some(true)), keep(Some(ShortcutSignal::Unmapped)));
}

#[test]
fn signal_names() {
    assert_eq!(ShortcutSignal::Hide.name().as_deref(), Some("hide"));
    assert_eq!(ShortcutSignal::Show.name().as_deref(), Some("show"));
    assert_eq!(ShortcutSignal::Reload.name().as_deref(), Some("reload"));
    assert_eq!(ShortcutSignal::NewWorkflow.name().as_deref(), Some("new_workflow"));
    assert_eq!(ShortcutSignal::OpenSubWindow.name().as_deref(), Some("open_subwindow"));
    assert_eq!(ShortcutSignal::Unmapped.name(), None);
}

#[test]
fn parse_shortcut_needs_the_key_last() {
    assert!(parse_shortcut("Control + KeyA + Shift").is_none());
    let c = parse_shortcut("control + control + KeyA").unwrap();
    assert_eq!(c.modifiers, mods(true, false, false, false));
}

#[test]
fn slots_past_the_last_are_not_read() {
    let t = table(&[None, None, None, None, None, Some("Control + KeyA"), Some("Alt + KeyB")]);
    assert!(t.shortcuts().is_empty());
}

#[test]
fn table_keeps_slot_order() {
    let t = table(&[Some("Shift + KeyZ"), Some("Alt + KeyY"), None, Some("Control + KeyX")]);
    let keys: Vec<String> = t.shortcuts().into_iter().map(|c| c.key).collect();
    assert_eq!(keys, vec!["KeyZ", "KeyY", "KeyX"]);
}
