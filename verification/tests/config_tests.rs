use rust_transcriber::config::Config;
use rust_transcriber::config_gui::ConfigGui;
use rust_transcriber::config_gui::ConfigMessage;
use rust_transcriber::decimal::parse_u64;
use rust_transcriber::decimal::u64_to_string;
use rust_transcriber::hotkey::HotkeyEdge;
use rust_transcriber::hotkey::HotkeyEvent;
use rust_transcriber::hotkey::HotkeySignal;

#[test]
fn default_config_values() {
    let c = Config::default();
    assert_eq!(c.hotkey, "F7");
    assert_eq!(c.language, "en");
    assert_eq!(c.openai_api_key, "");
    assert_eq!(c.word_delay, 10);
    assert_eq!(c.key_event_delay, 10);
}

#[test]
fn load_keeps_stored_config() {
    let stored = Config {
        hotkey: "F9".to_string(),
        language: "de".to_string(),
        openai_api_key: "sk-x".to_string(),
        word_delay: 42,
        key_event_delay: 7,
    };
    let c = Config::load_or_default(Some(stored));
    assert_eq!(c.hotkey, "F9");
    assert_eq!(c.word_delay, 42);
    let d = Config::load_or_default(None);
    assert_eq!(d.hotkey, "F7");
}

#[test]
fn editor_shows_current_values() {
    let mut config = Config::default();
    config.word_delay = 250;
    let gui = ConfigGui::new(config);
    assert_eq!(gui.hotkey, "F7");
    assert_eq!(gui.word_delay, "250");
    assert_eq!(gui.key_event_delay, "10");
}

#[test]
fn field_edits_touch_only_their_field() {
    let mut gui = ConfigGui::new(Config::default());
    let save = gui.update(&ConfigMessage::HotkeyChanged("F9".to_string()));
    assert!(!save);
    assert_eq!(gui.hotkey, "F9");
    assert_eq!(gui.config.hotkey, "F7");
    let save = gui.update(&ConfigMessage::WordDelayChanged("123".to_string()));
    assert!(!save);
    assert_eq!(gui.word_delay, "123");
    assert_eq!(gui.config.word_delay, 10);
}

#[test]
fn save_commits_and_requests_persisting() {
    let mut gui = ConfigGui::new(Config::default());
    gui.update(&ConfigMessage::HotkeyChanged("F9".to_string()));
    gui.update(&ConfigMessage::OpenAIApiKeyChanged("sk-new".to_string()));
    gui.update(&ConfigMessage::WordDelayChanged("250".to_string()));
    gui.update(&ConfigMessage::KeyEventDelayChanged("junk".to_string()));
    let save = gui.update(&ConfigMessage::SaveConfig);
    assert!(save);
    assert_eq!(gui.config.hotkey, "F9");
    assert_eq!(gui.config.openai_api_key, "sk-new");
    assert_eq!(gui.config.word_delay, 250);
    // An unparsable delay keeps the previous value.
    assert_eq!(gui.config.key_event_delay, 10);
    assert_eq!(gui.config.language, "en");
}

#[test]
fn decimal_round_trip_and_bounds() {
    assert_eq!(u64_to_string(0), "0");
    assert_eq!(u64_to_string(1234), "1234");
    assert_eq!(u64_to_string(u64::MAX), "18446744073709551615");
    assert_eq!(parse_u64("0"), Some(0));
    assert_eq!(parse_u64("1234"), Some(1234));
    assert_eq!(parse_u64("18446744073709551615"), Some(u64::MAX));
    assert_eq!(parse_u64("18446744073709551616"), None);
    assert_eq!(parse_u64(""), None);
    assert_eq!(parse_u64("12a"), None);
    assert_eq!(parse_u64("-3"), None);
}

#[test]
fn signal_keeps_only_its_binding_in_order() {
    let mut signal = HotkeySignal::new(7);
    signal.offer(HotkeyEvent { edge: HotkeyEdge::Pressed, identity: 7 });
    signal.offer(HotkeyEvent { edge: HotkeyEdge::Pressed, identity: 9 });
    signal.offer(HotkeyEvent { edge: HotkeyEdge::Released, identity: 7 });
    let first = signal.poll().unwrap();
    assert_eq!(first.edge, HotkeyEdge::Pressed);
    let second = signal.poll().unwrap();
    assert_eq!(second.edge, HotkeyEdge::Released);
    assert!(signal.poll().is_none());
}
