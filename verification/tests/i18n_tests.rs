use replay_core::i18n::{I18n, Language};
use replay_core::text::replace_all;

fn table(entries: &[(&str, &str)]) -> Vec<(String, String)> {
    entries.iter().map(|(k, v)| (k.to_string(), v.to_string())).collect()
}

#[test]
fn language_codes() {
    assert_eq!(Language::English.code(), "en");
    assert_eq!(Language::Russian.code(), "ru");
    assert_eq!(Language::default(), Language::English);
}

#[test]
fn language_from_byte() {
    assert_eq!(Language::from(0u8), Language::English);
    assert_eq!(Language::from(1u8), Language::Russian);
    assert_eq!(Language::from(200u8), Language::English);
}

#[test]
fn missing_key_is_shown_as_itself() {
    let i18n = I18n::new();
    assert_eq!(i18n.tr("ui.load.title"), "ui.load.title");
    assert_eq!(i18n.try_tr("ui.load.title"), None);
}

#[test]
fn installed_translation_is_found() {
    let mut i18n = I18n::new();
    i18n.install_language(Language::English, table(&[("ui.load.title", "Load a replay")]));
    assert_eq!(i18n.tr("ui.load.title"), "Load a replay");
    assert_eq!(i18n.try_tr("ui.load.title"), Some("Load a replay".to_string()));
}

#[test]
fn active_language_answers_first_then_english() {
    let mut i18n = I18n::new();
    i18n.install_language(
        Language::English,
        table(&[("ui.menu.save", "Save"), ("ui.menu.exit", "Exit")]),
    );
    i18n.install_language(Language::Russian, table(&[("ui.menu.save", "Sohranit")]));
    i18n.set_language(Language::Russian);
    assert_eq!(i18n.language(), Language::Russian);
    assert_eq!(i18n.tr("ui.menu.save"), "Sohranit");
    // The active table lacks the key: English answers.
    assert_eq!(i18n.tr("ui.menu.exit"), "Exit");
    // Nobody has it: the key itself is shown.
    assert_eq!(i18n.tr("ui.menu.cancel"), "ui.menu.cancel");
}

#[test]
fn switching_back_restores_the_english_answers() {
    let mut i18n = I18n::new();
    i18n.install_language(Language::English, table(&[("ui.menu.save", "Save")]));
    i18n.install_language(Language::Russian, table(&[("ui.menu.save", "Sohranit")]));
    i18n.set_language(Language::Russian);
    assert_eq!(i18n.tr("ui.menu.save"), "Sohranit");
    i18n.set_language(Language::English);
    assert_eq!(i18n.tr("ui.menu.save"), "Save");
}

#[test]
fn arguments_are_substituted_into_the_template() {
    let mut i18n = I18n::new();
    i18n.install_language(
        Language::English,
        table(&[("ui.load.loading_replay", "Loading replay: {done} / {total} ticks")]),
    );
    let shown = i18n.tr_args(
        "ui.load.loading_replay",
        &[("done", "100".to_string()), ("total", "1000".to_string())],
    );
    assert_eq!(shown, "Loading replay: 100 / 1000 ticks");
}

#[test]
fn repeated_placeholders_are_all_substituted() {
    let mut i18n = I18n::new();
    i18n.install_language(Language::English, table(&[("echo", "{x} and {x} and {y}")]));
    let shown = i18n.tr_args("echo", &[("x", "a".to_string()), ("y", "b".to_string())]);
    assert_eq!(shown, "a and a and b");
}

#[test]
fn untranslated_template_still_substitutes() {
    let i18n = I18n::new();
    let shown = i18n.tr_args("{value} ms", &[("value", "16".to_string())]);
    assert_eq!(shown, "16 ms");
}

#[test]
fn replace_all_rewrites_left_to_right_without_overlap() {
    assert_eq!(replace_all("aaa", "aa", "b"), "ba");
    assert_eq!(replace_all("hello", "l", "L"), "heLLo");
    assert_eq!(replace_all("nothing here", "xyz", "!"), "nothing here");
    assert_eq!(replace_all("", "x", "y"), "");
    assert_eq!(replace_all("abab", "ab", "ab!"), "ab!ab!");
}

#[test]
fn proto_label_prefers_the_translation() {
    let mut i18n = I18n::new();
    i18n.install_language(Language::English, table(&[("proto.goods.wheat", "Wheat")]));
    assert_eq!(i18n.proto_label("goods", "wheat", "wheat-fallback"), "Wheat");
    assert_eq!(i18n.proto_label("goods", "iron", "iron-fallback"), "iron-fallback");
}

#[test]
fn json_table_installs_and_translates() {
    let mut i18n = I18n::new();
    let text = r#"{"ui.network.title": "Network", "ui.network.name": "Name"}"#;
    assert!(i18n.install_language_from_json(Language::English, text));
    assert_eq!(i18n.tr("ui.network.title"), "Network");
    assert_eq!(i18n.tr("ui.network.name"), "Name");
}

#[test]
fn broken_json_installs_nothing() {
    let mut i18n = I18n::new();
    i18n.install_language(Language::English, table(&[("kept", "Kept")]));
    assert!(!i18n.install_language_from_json(Language::English, "{not json"));
    assert_eq!(i18n.tr("kept"), "Kept");
    assert!(!i18n.install_language_from_json(Language::English, r#"{"n": 3}"#));
    assert_eq!(i18n.tr("kept"), "Kept");
}
