use auto_input::app::{all_key_opts, find_key_opt, idle_key_label, shows_conflict};
use auto_input::hotkey::{
    key_options, vk_name, HotkeyDef, HotkeyEvent, HotkeyRegistry, RegisterRequest, HK_CLIPBOARD,
    HK_CUSTOM, MOD_ALT, MOD_CTRL, MOD_NOREPEAT, MOD_SHIFT, MOD_WIN,
};

#[test]
fn vk_name_names_function_letter_and_digit_keys() {
    assert_eq!(vk_name(0x70), "F1");
    assert_eq!(vk_name(0x7B), "F12");
    assert_eq!(vk_name(0x41), "A");
    assert_eq!(vk_name(0x5A), "Z");
    assert_eq!(vk_name(0x30), "0");
    assert_eq!(vk_name(0x39), "9");
}

#[test]
fn vk_name_of_unknown_code_is_question_mark() {
    assert_eq!(vk_name(0), "?");
    assert_eq!(vk_name(0x20), "?");
    assert_eq!(vk_name(0x7C), "?");
}

#[test]
fn key_table_lists_48_keys_in_picker_order() {
    let t = key_options();
    assert_eq!(t.len(), 48);
    assert_eq!(t[0], (0x70, "F1"));
    assert_eq!(t[11], (0x7B, "F12"));
    assert_eq!(t[12], (0x41, "A"));
    assert_eq!(t[37], (0x5A, "Z"));
    assert_eq!(t[38], (0x30, "0"));
    assert_eq!(t[47], (0x39, "9"));
}

#[test]
fn every_table_key_is_named_as_in_the_table() {
    for (vk, name) in key_options() {
        assert_eq!(vk_name(vk), name);
    }
}

#[test]
fn display_of_disabled_or_keyless_hotkey() {
    let off = HotkeyDef { enabled: false, modifiers: MOD_CTRL | MOD_ALT, vk: 0x70 };
    assert_eq!(off.display(), "(未启用)");
    let keyless = HotkeyDef { enabled: true, modifiers: MOD_CTRL, vk: 0 };
    assert_eq!(keyless.display(), "(未启用)");
}

#[test]
fn display_joins_modifiers_in_fixed_order() {
    let d = HotkeyDef { enabled: true, modifiers: MOD_CTRL | MOD_ALT, vk: 0x70 };
    assert_eq!(d.display(), "Ctrl+Alt+F1");
    let all = HotkeyDef { enabled: true, modifiers: MOD_WIN | MOD_SHIFT | MOD_ALT | MOD_CTRL, vk: 0x41 };
    assert_eq!(all.display(), "Ctrl+Alt+Shift+Win+A");
    let bare = HotkeyDef { enabled: true, modifiers: 0, vk: 0x35 };
    assert_eq!(bare.display(), "5");
    let odd = HotkeyDef { enabled: true, modifiers: MOD_SHIFT, vk: 0x99 };
    assert_eq!(odd.display(), "Shift+?");
}

#[test]
fn default_hotkey_def_is_off_and_empty() {
    let d = HotkeyDef::default();
    assert_eq!(d, HotkeyDef { enabled: false, modifiers: 0, vk: 0 });
}

#[test]
fn modifier_set_then_clear_restores_other_flags() {
    let mut d = HotkeyDef { enabled: true, modifiers: MOD_CTRL, vk: 0x41 };
    d.set_modifier(MOD_SHIFT, true);
    assert_eq!(d.modifiers, MOD_CTRL | MOD_SHIFT);
    assert!(d.has_modifier(MOD_SHIFT));
    d.set_modifier(MOD_SHIFT, false);
    assert_eq!(d.modifiers, MOD_CTRL);
    assert!(!d.has_modifier(MOD_SHIFT));
    assert!(d.enabled);
    assert_eq!(d.vk, 0x41);
}

#[test]
fn key_picker_starts_with_unset_choice() {
    let opts = all_key_opts();
    assert_eq!(opts.len(), 49);
    assert_eq!(opts[0].vk, 0);
    assert_eq!(opts[0].label(), "(未设置)");
    assert_eq!(opts[1].vk, 0x70);
    assert_eq!(opts[1].label(), "F1");
    assert_eq!(opts[48].label(), "9");
}

#[test]
fn find_key_opt_picks_choice_by_code() {
    let opts = all_key_opts();
    let k = find_key_opt(&opts, 0x42).unwrap();
    assert_eq!(k.name, "B");
    assert_eq!(find_key_opt(&opts, 0).unwrap().name, "(未设置)");
    assert!(find_key_opt(&opts, 0x1234).is_none());
}

#[test]
fn idle_key_label_and_conflict_warning() {
    let none = HotkeyDef { enabled: false, modifiers: 0, vk: 0 };
    assert_eq!(idle_key_label(&none), "(未设置)");
    let f2 = HotkeyDef { enabled: true, modifiers: MOD_CTRL, vk: 0x71 };
    assert_eq!(idle_key_label(&f2), "F2");
    assert!(shows_conflict(&f2, false));
    assert!(!shows_conflict(&f2, true));
    assert!(!shows_conflict(&HotkeyDef { enabled: false, ..f2 }, false));
    assert!(!shows_conflict(&HotkeyDef { vk: 0, ..f2 }, false));
}

#[test]
fn registry_registers_enabled_hotkey_without_repeat() {
    let mut reg = HotkeyRegistry::new();
    let def = HotkeyDef { enabled: true, modifiers: MOD_CTRL | MOD_ALT, vk: 0x70 };
    let plan = reg.begin_update(HK_CLIPBOARD, def);
    assert!(!plan.unregister);
    assert_eq!(
        plan.register,
        Some(RegisterRequest { id: HK_CLIPBOARD, modifiers: MOD_CTRL | MOD_ALT | MOD_NOREPEAT, vk: 0x70 })
    );
    assert_eq!(reg.finish_register(HK_CLIPBOARD, true), HotkeyEvent::RegisterOk(HK_CLIPBOARD));
    assert!(reg.is_registered(HK_CLIPBOARD));
    assert_eq!(reg.registered_ids(), vec![HK_CLIPBOARD]);
}

#[test]
fn registry_unregisters_before_reregistering_and_on_disable() {
    let mut reg = HotkeyRegistry::new();
    let def = HotkeyDef { enabled: true, modifiers: MOD_CTRL, vk: 0x41 };
    reg.begin_update(HK_CUSTOM, def);
    reg.finish_register(HK_CUSTOM, true);
    let plan = reg.begin_update(HK_CUSTOM, HotkeyDef { vk: 0x42, ..def });
    assert!(plan.unregister);
    assert!(plan.register.is_some());
    assert!(!reg.is_registered(HK_CUSTOM));
    assert_eq!(reg.finish_register(HK_CUSTOM, false), HotkeyEvent::RegisterFailed(HK_CUSTOM));
    assert!(!reg.is_registered(HK_CUSTOM));
    let off = reg.begin_update(HK_CUSTOM, HotkeyDef { enabled: false, ..def });
    assert!(!off.unregister);
    assert_eq!(off.register, None);
}

#[test]
fn registry_lists_each_registered_id_once() {
    let mut reg = HotkeyRegistry::new();
    let def = HotkeyDef { enabled: true, modifiers: MOD_CTRL, vk: 0x41 };
    reg.begin_update(HK_CLIPBOARD, def);
    reg.finish_register(HK_CLIPBOARD, true);
    reg.begin_update(HK_CUSTOM, def);
    reg.finish_register(HK_CUSTOM, true);
    reg.begin_update(HK_CUSTOM, def);
    reg.finish_register(HK_CUSTOM, true);
    let mut ids = reg.registered_ids();
    ids.sort();
    assert_eq!(ids, vec![HK_CLIPBOARD, HK_CUSTOM]);
}
