use satoshi_settlers::player_setup_scene::{
    acceptable_char, case_vkeyboard_label, clean_name, press_vkey, start_button_system,
    username_input, vkeyboard_system, CapitalizeToggle, Counter, KeyBoardButton, KeyInteraction,
    VkeyboardFrame, USERNAME_LENGTH,
};
use satoshi_settlers::ui::{ButtonInteraction, ButtonLook};
use satoshi_settlers::AppState;

const ACCEPTABLE_CHARS: &str = "abcdefghijklmnopqrstuvwxyzABCDEFGHIJKLMNOPQRSTUVWXYZ1234567890 ";

#[test]
fn acceptable_chars_match_the_name_alphabet() {
    for code in 0u32..0x3000 {
        if let Some(c) = char::from_u32(code) {
            assert_eq!(acceptable_char(c), ACCEPTABLE_CHARS.contains(c), "char {:?}", c);
        }
    }
}

#[test]
fn clean_name_keeps_a_clean_name() {
    assert_eq!(clean_name("Satoshi"), "Satoshi");
    assert_eq!(clean_name("Hal Finney 2009"), "Hal Finney 2009");
    assert_eq!(clean_name("a"), "a");
    assert_eq!(clean_name("abcdefghijklmnopqrstu"), "abcdefghijklmnopqrstu");
}

#[test]
fn clean_name_placeholders() {
    assert_eq!(clean_name("bad!name"), "Anon de ausu");
    assert_eq!(clean_name("日本"), "Anon de ausu");
    assert_eq!(clean_name(""), "Anon de umbra");
    assert_eq!(clean_name("abcdefghijklmnopqrstuv"), "Anon de longitudo");
    assert_eq!(clean_name("a  b"), "Anon de inanis");
    assert_eq!(clean_name(" ab"), "Anon de primis");
    assert_eq!(clean_name("ab "), "Anon de novissime");
    assert_eq!(clean_name(" "), "Anon de primis");
    assert_eq!(clean_name("  "), "Anon de inanis");
    // the character check comes first, the length check before the space checks
    assert_eq!(clean_name("  ?"), "Anon de ausu");
    assert_eq!(clean_name("a  bcdefghijklmnopqrstu"), "Anon de longitudo");
}

#[test]
fn clean_name_is_idempotent_on_examples() {
    for input in ["", "x!", " a", "a ", "a  b", "Satoshi", "abcdefghijklmnopqrstuvwxyz"] {
        let once = clean_name(input);
        assert_eq!(clean_name(once), once);
    }
}

fn name_of(chars: &str) -> Vec<char> {
    chars.chars().collect()
}

#[test]
fn typed_characters_are_filtered_and_counted() {
    let mut counter = Counter(0);
    let r = username_input(&mut counter, String::new(), &name_of("Sa!t o"));
    assert_eq!(r.name, "Sat o");
    assert!(r.start_visible);
    assert_eq!(counter.0, 1);
    let r = username_input(&mut counter, String::new(), &name_of("?#"));
    assert_eq!(r.name, "");
    assert!(!r.start_visible);
    assert_eq!(counter.0, 2);
}

#[test]
fn typed_characters_stop_at_the_length_limit() {
    let mut counter = Counter(5);
    let full = "abcdefghijklmnopqrstu".to_string();
    assert_eq!(full.len(), USERNAME_LENGTH);
    let r = username_input(&mut counter, full.clone(), &name_of("xyz"));
    assert_eq!(r.name, full);
    // the limit is looked at once per frame: a short name takes every character
    let r = username_input(&mut counter, "abcdefghijklmnopqrst".to_string(), &name_of("xyz"));
    assert_eq!(r.name, "abcdefghijklmnopqrstxyz");
    assert_eq!(counter.0, 7);
}

#[test]
fn vkey_typing_shift_and_backspace() {
    let mut name = String::new();
    let mut caps = CapitalizeToggle(false);
    press_vkey(&mut name, &mut caps, &KeyBoardButton('a'));
    assert_eq!(name, "a");
    press_vkey(&mut name, &mut caps, &KeyBoardButton('^'));
    assert!(caps.0);
    assert_eq!(name, "a");
    press_vkey(&mut name, &mut caps, &KeyBoardButton('b'));
    assert_eq!(name, "aB");
    press_vkey(&mut name, &mut caps, &KeyBoardButton('7'));
    assert_eq!(name, "aB7");
    press_vkey(&mut name, &mut caps, &KeyBoardButton('<'));
    assert_eq!(name, "aB");
    press_vkey(&mut name, &mut caps, &KeyBoardButton('^'));
    assert!(!caps.0);
    press_vkey(&mut name, &mut caps, &KeyBoardButton('<'));
    press_vkey(&mut name, &mut caps, &KeyBoardButton('<'));
    press_vkey(&mut name, &mut caps, &KeyBoardButton('<'));
    assert_eq!(name, "");
    press_vkey(&mut name, &mut caps, &KeyBoardButton('!'));
    assert_eq!(name, "");
}

#[test]
fn vkey_stops_at_the_length_limit() {
    let mut name = "abcdefghijklmnopqrst".to_string();
    let mut caps = CapitalizeToggle(false);
    press_vkey(&mut name, &mut caps, &KeyBoardButton('x'));
    assert_eq!(name.len(), USERNAME_LENGTH);
    press_vkey(&mut name, &mut caps, &KeyBoardButton('y'));
    assert_eq!(name, "abcdefghijklmnopqrstx");
}

fn click(c: char) -> KeyInteraction {
    KeyInteraction { interaction: ButtonInteraction::Clicked, key: KeyBoardButton(c) }
}

#[test]
fn vkeyboard_system_applies_clicks_in_order() {
    let mut caps = Some(CapitalizeToggle(false));
    let changed = vec![
        click('^'),
        click('c'),
        KeyInteraction { interaction: ButtonInteraction::Hovered, key: KeyBoardButton('q') },
        click('<'),
        click('<'),
        KeyInteraction { interaction: ButtonInteraction::Idle, key: KeyBoardButton('w') },
        click('^'),
        click('z'),
    ];
    match vkeyboard_system(Some("ab".to_string()), &mut caps, &changed) {
        VkeyboardFrame::Updated { name, looks } => {
            assert_eq!(name, "az");
            assert_eq!(
                looks,
                vec![
                    ButtonLook::Pressed,
                    ButtonLook::Pressed,
                    ButtonLook::Hovered,
                    ButtonLook::Pressed,
                    ButtonLook::Pressed,
                    ButtonLook::Normal,
                    ButtonLook::Pressed,
                    ButtonLook::Pressed,
                ]
            );
        }
        _ => panic!("expected an update"),
    }
    assert!(!caps.unwrap().0);
}

#[test]
fn vkeyboard_system_without_name_or_switch() {
    let mut caps = Some(CapitalizeToggle(true));
    assert!(matches!(vkeyboard_system(None, &mut caps, &vec![click('^')]), VkeyboardFrame::NoName));
    assert!(caps.unwrap().0);
    let mut none = None;
    // delete and unacceptable keys do not need the switch
    match vkeyboard_system(Some("ab".to_string()), &mut none, &vec![click('<'), click('!')]) {
        VkeyboardFrame::Updated { name, .. } => assert_eq!(name, "a"),
        _ => panic!("expected an update"),
    }
    // nor does a key when the name is full
    let full = "abcdefghijklmnopqrstu".to_string();
    match vkeyboard_system(Some(full.clone()), &mut none, &vec![click('x')]) {
        VkeyboardFrame::Updated { name, .. } => assert_eq!(name, full),
        _ => panic!("expected an update"),
    }
    assert!(matches!(
        vkeyboard_system(Some("ab".to_string()), &mut none, &vec![click('<'), click('x')]),
        VkeyboardFrame::MissingToggle
    ));
    assert!(matches!(
        vkeyboard_system(Some(String::new()), &mut none, &vec![click('^')]),
        VkeyboardFrame::MissingToggle
    ));
    assert!(none.is_none());
}

#[test]
fn key_labels_follow_the_switch() {
    assert_eq!(case_vkeyboard_label(&KeyBoardButton('q'), &CapitalizeToggle(true)), 'Q');
    assert_eq!(case_vkeyboard_label(&KeyBoardButton('q'), &CapitalizeToggle(false)), 'q');
    assert_eq!(case_vkeyboard_label(&KeyBoardButton('Q'), &CapitalizeToggle(false)), 'q');
    assert_eq!(case_vkeyboard_label(&KeyBoardButton('1'), &CapitalizeToggle(true)), '1');
}

#[test]
fn start_button_click_brings_in_the_player() {
    let r = start_button_system(ButtonInteraction::Clicked, "Satoshi");
    assert_eq!(r.label, "Start");
    assert_eq!(r.look, ButtonLook::Pressed);
    assert_eq!(r.next_state, Some(AppState::InGame));
    let p = r.new_player.expect("a player");
    assert_eq!(p.name.0, "Satoshi");
    assert_eq!(p.balance.0, 0);
    assert_eq!(p.health.0, 10);
    assert_eq!(p.location.0, 0);
    let r = start_button_system(ButtonInteraction::Clicked, " bad");
    assert_eq!(r.new_player.expect("a player").name.0, "Anon de primis");
}

#[test]
fn start_button_hover_and_idle() {
    let r = start_button_system(ButtonInteraction::Hovered, "x");
    assert_eq!(r.label, "Ready?");
    assert_eq!(r.look, ButtonLook::Hovered);
    assert!(r.new_player.is_none() && r.next_state.is_none());
    let r = start_button_system(ButtonInteraction::Idle, "x");
    assert_eq!(r.label, "Start");
    assert_eq!(r.look, ButtonLook::Normal);
    assert!(r.new_player.is_none() && r.next_state.is_none());
}

#[test]
fn many_clicks_keep_a_prefix_and_the_length() {
    let start = "Satoshi Nakamoto 2009";
    assert_eq!(start.len(), USERNAME_LENGTH);
    let mut caps = Some(CapitalizeToggle(false));
    let changed = vec![click('x'), click('<'), click('<'), click('^'), click('a'), click('b'), click('c')];
    match vkeyboard_system(Some(start.to_string()), &mut caps, &changed) {
        VkeyboardFrame::Updated { name, .. } => {
            assert_eq!(name, "Satoshi Nakamoto 20AB");
            assert!(name.len() <= USERNAME_LENGTH);
            assert!(name.starts_with("Satoshi Nakamoto 20"));
        }
        _ => panic!("expected an update"),
    }
    let mut caps = Some(CapitalizeToggle(false));
    let changed = vec![click('<'), click('<'), click('7'), click(' '), click('q'), click('r')];
    match vkeyboard_system(Some("éa".to_string()), &mut caps, &changed) {
        VkeyboardFrame::Updated { name, .. } => assert_eq!(name, "7 qr"),
        _ => panic!("expected an update"),
    }
}
