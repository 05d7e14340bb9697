use moli::keys::{
    Action, BindingResolver, KeyBindingConfig, KeyBindings, KeyCode, Modifiers, get_key_code_label,
    parse_binding, parse_function_key, parse_key_code, parse_modifier,
};

fn no_mods() -> Modifiers {
    Modifiers { ctrl: false, alt: false, shift: false, meta: false }
}

#[test]
fn modifiers_parse_in_any_case() {
    assert_eq!(parse_modifier("Ctrl").unwrap().ctrl, true);
    assert_eq!(parse_modifier("CONTROL").unwrap().ctrl, true);
    assert_eq!(parse_modifier("option").unwrap().alt, true);
    assert_eq!(parse_modifier("shift").unwrap().shift, true);
    assert_eq!(parse_modifier("cmd").unwrap().meta, true);
    assert_eq!(parse_modifier("Super").unwrap().meta, true);
    assert!(parse_modifier("hyper").is_none());
}

#[test]
fn key_codes_parse() {
    assert_eq!(parse_key_code("q"), Some(KeyCode::Char('q')));
    assert_eq!(parse_key_code(" q "), Some(KeyCode::Char('q')));
    assert_eq!(parse_key_code("Q"), Some(KeyCode::Char('Q')));
    assert_eq!(parse_key_code("Esc"), Some(KeyCode::Esc));
    assert_eq!(parse_key_code("escape"), Some(KeyCode::Esc));
    assert_eq!(parse_key_code("space"), Some(KeyCode::Char(' ')));
    assert_eq!(parse_key_code("Left"), Some(KeyCode::Left));
    assert_eq!(parse_key_code("page_up"), Some(KeyCode::PageUp));
    assert_eq!(parse_key_code("PageDown"), Some(KeyCode::PageDown));
    assert_eq!(parse_key_code("return"), Some(KeyCode::Enter));
    assert_eq!(parse_key_code("hello"), None);
    assert_eq!(parse_key_code(""), None);
    assert_eq!(parse_key_code("   "), None);
}

#[test]
fn function_keys_parse() {
    assert_eq!(parse_function_key("f5"), Some(KeyCode::F(5)));
    assert_eq!(parse_key_code("F12"), Some(KeyCode::F(12)));
    assert_eq!(parse_key_code("f255"), Some(KeyCode::F(255)));
    assert_eq!(parse_key_code("f256"), None);
    assert_eq!(parse_key_code("f005"), Some(KeyCode::F(5)));
    assert_eq!(parse_key_code("f"), Some(KeyCode::Char('f')));
    assert_eq!(parse_key_code("fx"), None);
}

#[test]
fn bindings_parse() {
    let b = parse_binding("g+d").unwrap();
    assert_eq!(b.sequence.len(), 2);
    assert_eq!(b.sequence[0].code, KeyCode::Char('g'));
    assert_eq!(b.sequence[0].modifiers, no_mods());
    assert_eq!(b.sequence[1].code, KeyCode::Char('d'));

    let c = parse_binding("Ctrl+x").unwrap();
    assert_eq!(c.sequence.len(), 1);
    assert_eq!(c.sequence[0].code, KeyCode::Char('x'));
    assert!(c.sequence[0].modifiers.ctrl);

    let d = parse_binding(" ctrl + shift + P ").unwrap();
    assert_eq!(d.sequence.len(), 1);
    assert!(d.sequence[0].modifiers.ctrl);
    assert!(d.sequence[0].modifiers.shift);
    assert_eq!(d.sequence[0].code, KeyCode::Char('P'));

    assert!(parse_binding("Ctrl+").is_none());
    assert!(parse_binding("").is_none());
    assert!(parse_binding("Ctrl+zzz").is_none());
}

#[test]
fn labels_read_back() {
    assert_eq!(get_key_code_label(KeyCode::Char(' ')), "Space");
    assert_eq!(get_key_code_label(KeyCode::Char('x')), "x");
    assert_eq!(get_key_code_label(KeyCode::F(5)), "F5");
    assert_eq!(get_key_code_label(KeyCode::F(12)), "F12");
    assert_eq!(get_key_code_label(KeyCode::F(255)), "F255");
    assert_eq!(get_key_code_label(KeyCode::Left), "←");
    assert_eq!(parse_binding("Ctrl+x").unwrap().label(), "Ctrl+x");
    assert_eq!(parse_binding("g+d").unwrap().label(), "g d");
    assert_eq!(parse_binding("shift+Tab").unwrap().label(), "Shift+Tab");
}

#[test]
fn default_bindings_and_labels() {
    let kb = KeyBindings::default();
    assert_eq!(kb.labels_for(Action::Quit), vec!["Esc", "q", "Q"]);
    assert_eq!(kb.labels_for(Action::PrevMonth), vec!["←"]);
    assert_eq!(kb.labels_for(Action::OpenJumpPrompt), vec!["g d"]);
}

#[test]
fn config_overrides_and_disables() {
    let config = KeyBindingConfig {
        quit: Some(vec!["x".to_string()]),
        move_left: Some(vec!["zzz".to_string()]),
        ..KeyBindingConfig::default()
    };
    let kb = KeyBindings::from_config(config);
    assert_eq!(kb.labels_for(Action::Quit), vec!["x"]);
    assert!(kb.labels_for(Action::MoveLeft).is_empty());
    assert_eq!(kb.labels_for(Action::MoveRight), vec!["l", "L"]);
}

#[test]
fn resolver_fires_single_key() {
    let kb = KeyBindings::default();
    let mut resolver = BindingResolver::default();
    let r = resolver.process(&kb, KeyCode::Char('q'), no_mods());
    assert_eq!(r, Some(Action::Quit));
    let r2 = resolver.process(&kb, KeyCode::Down, no_mods());
    assert_eq!(r2, Some(Action::NextYear));
}

#[test]
fn resolver_walks_sequences() {
    let kb = KeyBindings::default();
    let mut resolver = BindingResolver::default();
    assert_eq!(resolver.process(&kb, KeyCode::Char('g'), no_mods()), None);
    assert_eq!(
        resolver.process(&kb, KeyCode::Char('d'), no_mods()),
        Some(Action::OpenJumpPrompt)
    );
}

#[test]
fn resolver_drops_broken_sequences() {
    let kb = KeyBindings::default();
    let mut resolver = BindingResolver::default();
    assert_eq!(resolver.process(&kb, KeyCode::Char('g'), no_mods()), None);
    assert_eq!(resolver.process(&kb, KeyCode::Char('x'), no_mods()), None);
    assert_eq!(resolver.process(&kb, KeyCode::Char('d'), no_mods()), None);
}

#[test]
fn shift_is_ignored_for_plain_character_bindings() {
    let kb = KeyBindings::default();
    let shifted = Modifiers { ctrl: false, alt: false, shift: true, meta: false };
    let mut resolver = BindingResolver::default();
    assert_eq!(resolver.process(&kb, KeyCode::Char('Q'), shifted), Some(Action::Quit));
    let ctrl = Modifiers { ctrl: true, alt: false, shift: false, meta: false };
    assert_eq!(resolver.process(&kb, KeyCode::Char('q'), ctrl), None);
}

#[test]
fn shifted_binding_requires_shift() {
    let config = KeyBindingConfig {
        quit: Some(vec!["shift+q".to_string()]),
        ..KeyBindingConfig::default()
    };
    let kb = KeyBindings::from_config(config);
    let mut resolver = BindingResolver::default();
    assert_eq!(resolver.process(&kb, KeyCode::Char('q'), no_mods()), None);
    let shifted = Modifiers { ctrl: false, alt: false, shift: true, meta: false };
    assert_eq!(resolver.process(&kb, KeyCode::Char('q'), shifted), Some(Action::Quit));
}
