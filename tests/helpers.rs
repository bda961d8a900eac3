use perseus::cmd::{exit_code_of, stage_exit_code};
use perseus::i18n::{localized_url, split_translation_id};

#[test]
fn splits_plain_and_compound_ids() {
    assert_eq!(split_translation_id(&"greeting".to_string()), ("greeting".to_string(), None));
    assert_eq!(
        split_translation_id(&"menu.title".to_string()),
        ("menu".to_string(), Some("title".to_string()))
    );
    assert_eq!(
        split_translation_id(&"a.b.c".to_string()),
        ("a".to_string(), Some("b".to_string()))
    );
    assert_eq!(split_translation_id(&"a.".to_string()), ("a".to_string(), Some("".to_string())));
    assert_eq!(split_translation_id(&".x".to_string()), ("".to_string(), Some("x".to_string())));
    assert_eq!(split_translation_id(&"".to_string()), ("".to_string(), None));
}

#[test]
fn localizes_urls() {
    assert_eq!(localized_url(&"en-US".to_string(), &"/about".to_string()), "/en-US/about");
    assert_eq!(localized_url(&"fr".to_string(), &"".to_string()), "/fr");
}

#[test]
fn exit_codes() {
    assert_eq!(exit_code_of(Some(3), false), 3);
    assert_eq!(exit_code_of(Some(0), true), 0);
    assert_eq!(exit_code_of(None, true), 0);
    assert_eq!(exit_code_of(None, false), 1);
    assert_eq!(stage_exit_code(&vec![]), 0);
    assert_eq!(stage_exit_code(&vec![0, 0]), 0);
    assert_eq!(stage_exit_code(&vec![0, 127]), 1);
}
