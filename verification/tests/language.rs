use libtranslate::Language;

#[test]
fn codes_of_some_languages() {
    assert_eq!(Language::Auto.abbreviation(), Some("auto"));
    assert_eq!(Language::English.abbreviation(), Some("en"));
    assert_eq!(Language::SimpleChinese.abbreviation(), Some("zh-CN"));
    assert_eq!(Language::TraditionalChinese.abbreviation(), Some("zh-TW"));
    assert_eq!(Language::Zulu.abbreviation(), Some("zu"));
    assert_eq!(Language::Hebrew.abbreviation(), Some("he"));
}

#[test]
fn languages_of_some_codes() {
    assert_eq!(Language::from("auto"), Some(Language::Auto));
    assert_eq!(Language::from("en"), Some(Language::English));
    assert_eq!(Language::from("zh-CN"), Some(Language::SimpleChinese));
    assert_eq!(Language::from("zh-TW"), Some(Language::TraditionalChinese));
    assert_eq!(Language::from("af"), Some(Language::Afrikaans));
    assert_eq!(Language::from("zu"), Some(Language::Zulu));
}

#[test]
fn unknown_codes_have_no_language() {
    assert_eq!(Language::from(""), None);
    assert_eq!(Language::from("EN"), None);
    assert_eq!(Language::from("en "), None);
    assert_eq!(Language::from("zh"), None);
    assert_eq!(Language::from("zh-cn"), None);
    assert_eq!(Language::from("english"), None);
    assert_eq!(Language::from("xx"), None);
}

#[test]
fn every_two_letter_code_names_at_most_its_own_language() {
    let mut known = 0;
    for first in b'a'..=b'z' {
        for second in b'a'..=b'z' {
            let code = String::from_utf8(vec![first, second]).unwrap();
            if let Some(language) = Language::from(&code) {
                assert_eq!(language.abbreviation(), Some(code.as_str()));
                known += 1;
            }
        }
    }
    assert_eq!(known, 100);
}
