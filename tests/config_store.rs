use simple_cli_news::config::{record_to_save, repair_choice, NewsConfig, RepairChoice};

#[test]
fn default_record_fields() {
    let c = NewsConfig::default_record();
    assert_eq!(c.apikey, "");
    assert_eq!(c.language, "en");
}

#[test]
fn save_then_read_back_both_fields() {
    let current = Some(NewsConfig::new("old".to_string(), "de".to_string()));
    let c = record_to_save(current, Some("K".to_string()), Some("L".to_string()));
    assert_eq!(c.apikey, "K");
    assert_eq!(c.language, "L");
    let c = record_to_save(None, Some("K2".to_string()), Some("fr".to_string()));
    assert_eq!(c.apikey, "K2");
    assert_eq!(c.language, "fr");
}

#[test]
fn save_keeps_unsupplied_fields() {
    let current = Some(NewsConfig::new("old".to_string(), "de".to_string()));
    let c = record_to_save(current, None, Some("it".to_string()));
    assert_eq!(c.apikey, "old");
    assert_eq!(c.language, "it");
    let c = record_to_save(None, Some("new".to_string()), None);
    assert_eq!(c.apikey, "new");
    assert_eq!(c.language, "en");
}

#[test]
fn with_updates_replaces_given_fields() {
    let c = NewsConfig::new("a".to_string(), "b".to_string()).with_updates(Some("c".to_string()), None);
    assert_eq!(c.apikey, "c");
    assert_eq!(c.language, "b");
}

#[test]
fn corrupt_file_reset_on_one() {
    assert_eq!(repair_choice("1"), RepairChoice::Reset);
    assert_eq!(repair_choice("1\n"), RepairChoice::Reset);
    let c = record_to_save(None, None, None);
    assert_eq!(c.apikey, "");
    assert_eq!(c.language, "en");
}

#[test]
fn corrupt_file_reset_on_empty() {
    assert_eq!(repair_choice(""), RepairChoice::Reset);
    assert_eq!(repair_choice("\n"), RepairChoice::Reset);
}

#[test]
fn corrupt_file_abort_on_two() {
    assert_eq!(repair_choice("2\n"), RepairChoice::Abort);
    assert_eq!(repair_choice("2"), RepairChoice::Abort);
}

#[test]
fn corrupt_file_asks_again() {
    assert_eq!(repair_choice("3\n"), RepairChoice::Ask);
    assert_eq!(repair_choice("12"), RepairChoice::Ask);
    assert_eq!(repair_choice("yes\n"), RepairChoice::Ask);
    assert_eq!(repair_choice(" 1"), RepairChoice::Ask);
}
