use libtranslate::api::check_status;
use libtranslate::catalog::{default_backend, ServiceKind};
use libtranslate::google::{
    read_container, read_dictionary, read_error_page, read_extensions, read_groups, Backend,
};
use libtranslate::html::{Element, FirstChild};
use libtranslate::json::{parse_json, Json};
use libtranslate::{Error, Language, Translation};

const MOBILE_PAGE: &str = "<html><head><style></style></head><body><div class=\"header\"><div class=\"logo-image\"></div><div class=\"logo-text\">Translate</div></div><div class=\"languages-container\"><div class=\"sl-and-tl\"><a href=\"./m?sl=auto&amp;tl=zh-CN&amp;q=Hello%20world%21&amp;mui=sl&amp;hl=en\">Detect language</a> → <a href=\"./m?sl=auto&amp;tl=zh-CN&amp;q=Hello%20world%21&amp;mui=tl&amp;hl=en\">Chinese (Simplified)</a></div></div><div class=\"input-container\"><form action=\"/m\"><input type=\"hidden\" name=\"sl\" value=\"auto\"><input type=\"hidden\" name=\"tl\" value=\"zh-CN\"><input type=\"hidden\" name=\"hl\" value=\"en\"><input type=\"text\" aria-label=\"Source text\" name=\"q\" class=\"input-field\" maxlength=\"2048\" value=\"Hello world!\"><div class=\"translate-button-container\"><input type=\"submit\" value=\"Translate\" class=\"translate-button\"></div></form></div><div class=\"result-container\">你好世界！</div><div class=\"links-container\"><ul><li><a href=\"https://www.google.com/m?hl=en\">Google home</a></li></ul></div></body></html>";

fn text(value: &str) -> Json {
    Json::Text(value.to_string())
}

fn list(items: Vec<Json>) -> Json {
    Json::List(items)
}

fn parts(translation: &Translation) -> (Option<Language>, Language, &str) {
    (translation.source(), translation.target(), translation.result())
}

fn unexpected_message(backend: &str, format: &str, body: &str) -> String {
    format!(
        "[{}]nexpected error occurred, please report this to the developer, {}: {}",
        backend, format, body
    )
}

#[test]
fn addresses_hold_the_codes_and_the_text() {
    assert_eq!(
        Backend::MobileGoogleTranslate.url(Language::Auto, Language::SimpleChinese, "Hello world!"),
        "https://translate.google.com/m?hl=en&sl=auto&tl=zh-CN&q=Hello world!"
    );
    assert_eq!(
        Backend::GoogleDictionaryChromeExtension.url(Language::English, Language::French, "a&b"),
        "https://clients5.google.com/translate_a/t?client=dict-chrome-ex&sl=en&tl=fr&q=a&b"
    );
    assert_eq!(
        Backend::GoogleTranslateExtensions.url(Language::Auto, Language::English, ""),
        "https://translate.googleapis.com/translate_a/single?client=gtx&dt=t&sl=auto&tl=en&q="
    );
}

#[test]
fn backends_have_their_names() {
    assert_eq!(Backend::MobileGoogleTranslate.name(), "google.API_MobileGoogleTranslate");
    assert_eq!(
        Backend::GoogleDictionaryChromeExtension.name(),
        "google.API_GoogleDictionaryChromeExtension"
    );
    assert_eq!(Backend::GoogleTranslateExtensions.name(), "google.API_GoogleTranslateExtensions");
}

#[test]
fn the_catalog_names_its_backends() {
    assert_eq!(
        default_backend(ServiceKind::Translator, "google.API_MobileGoogleTranslate"),
        Some(Backend::MobileGoogleTranslate)
    );
    assert_eq!(default_backend(ServiceKind::Detector, "google.API_MobileGoogleTranslate"), None);
    for kind in [ServiceKind::Detector, ServiceKind::Translator] {
        assert_eq!(
            default_backend(kind, "google.API_GoogleDictionaryChromeExtension"),
            Some(Backend::GoogleTranslateExtensions)
        );
        assert_eq!(
            default_backend(kind, "google.API_GoogleTranslateExtensions"),
            Some(Backend::GoogleDictionaryChromeExtension)
        );
        assert_eq!(default_backend(kind, "unknown-name"), None);
    }
}

#[test]
fn the_dictionary_answer_is_read() {
    let translation = Backend::GoogleDictionaryChromeExtension
        .decode("[[\"你好世界！\",\"en\"]]", Language::SimpleChinese)
        .unwrap();
    assert_eq!(
        parts(&translation),
        (Some(Language::English), Language::SimpleChinese, "你好世界！")
    );
}

#[test]
fn the_dictionary_answer_may_name_an_unknown_language() {
    let translation = Backend::GoogleDictionaryChromeExtension
        .decode("[[\"hello\",\"tlh\"]]", Language::English)
        .unwrap();
    assert_eq!(parts(&translation), (None, Language::English, "hello"));
}

#[test]
fn an_empty_dictionary_answer_is_an_empty_result() {
    assert!(matches!(
        Backend::GoogleDictionaryChromeExtension.decode("[[\"\", \"en\"]]", Language::English),
        Err(Error::ReturnedEmptyResult)
    ));
}

#[test]
fn a_dictionary_answer_of_another_shape_is_unexpected() {
    for body in ["{\"a\":1}", "[]", "[1]", "[[1,\"en\"]]", "[[\"a\"]]", "[[\"a\",2]]", "\"a\"", "null"] {
        match Backend::GoogleDictionaryChromeExtension.decode(body, Language::English) {
            Err(Error::UnexpectedResult(message)) => assert_eq!(
                message,
                unexpected_message("google.API_GoogleDictionaryChromeExtension", "JSON", body)
            ),
            other => panic!("{}: {:?}", body, other),
        }
    }
}

#[test]
fn text_that_is_no_json_is_a_parsing_error() {
    for body in ["", "not json", "[[\"a\",\"en\"]", "[1,]"] {
        let expected = serde_json::from_str::<serde_json::Value>(body).unwrap_err().to_string();
        match Backend::GoogleDictionaryChromeExtension.decode(body, Language::English) {
            Err(Error::JSONParsingError(message)) => assert_eq!(message, expected),
            other => panic!("{}: {:?}", body, other),
        }
        match Backend::GoogleTranslateExtensions.decode(body, Language::English) {
            Err(Error::JSONParsingError(message)) => assert_eq!(message, expected),
            other => panic!("{}: {:?}", body, other),
        }
    }
}

#[test]
fn the_extensions_answer_is_read() {
    let body = "[[[\"你好\",\"Hello\",null,null,10],[\"世界！\",\" world!\",null,null,3]],null,\"en\",null,null,null,1,[],[[\"en\"],null,[1],[\"en\"]]]";
    let translation =
        Backend::GoogleTranslateExtensions.decode(body, Language::SimpleChinese).unwrap();
    assert_eq!(
        parts(&translation),
        (Some(Language::English), Language::SimpleChinese, "你好世界！")
    );
}

#[test]
fn an_extensions_answer_without_sentences_is_an_empty_result() {
    let body = "[null,null,\"en\",null,null,null,0,[],[[\"en\"],null,[0],[\"en\"]]]";
    assert!(matches!(
        Backend::GoogleTranslateExtensions.decode(body, Language::English),
        Err(Error::ReturnedEmptyResult)
    ));
    let body = "[[[\"\",\"\"]],null,\"en\",null,null,null,0,[],[[\"en\"],null,[0],[\"en\"]]]";
    assert!(matches!(
        Backend::GoogleTranslateExtensions.decode(body, Language::English),
        Err(Error::ReturnedEmptyResult)
    ));
    assert!(matches!(
        Backend::GoogleTranslateExtensions.decode("{}", Language::English),
        Err(Error::ReturnedEmptyResult)
    ));
}

#[test]
fn an_extensions_answer_of_another_shape_is_unexpected() {
    let bodies = [
        // No sentence at all.
        "[[],null,\"en\",null,null,null,0,[],[[\"en\"]]]",
        // The first sentence is no array.
        "[[\"a\"],null,\"en\",null,null,null,0,[],[[\"en\"]]]",
        // Nothing at the ninth place.
        "[[[\"a\"]],null,\"en\"]",
        // The ninth place does not begin with an array.
        "[[[\"a\"]],null,\"en\",null,null,null,0,[],[\"en\"]]",
        // The code is no string.
        "[[[\"a\"]],null,\"en\",null,null,null,0,[],[[7]]]",
        // A later sentence is no array.
        "[[[\"a\"],\"b\"],null,\"en\",null,null,null,0,[],[[\"en\"]]]",
        // A later sentence does not begin with a string.
        "[[[\"a\"],[null]],null,\"en\",null,null,null,0,[],[[\"en\"]]]",
    ];
    for body in bodies {
        match Backend::GoogleTranslateExtensions.decode(body, Language::English) {
            Err(Error::UnexpectedResult(message)) => assert_eq!(
                message,
                unexpected_message("google.API_GoogleTranslateExtensions", "JSON", body)
            ),
            other => panic!("{}: {:?}", body, other),
        }
    }
}

#[test]
fn answers_are_read_from_values_too() {
    let json = list(vec![list(vec![text("bonjour"), text("en")])]);
    let translation = read_dictionary(&json, "", Language::French).unwrap();
    assert_eq!(parts(&translation), (Some(Language::English), Language::French, "bonjour"));

    let json = list(vec![
        list(vec![list(vec![text("bon")]), list(vec![text("jour"), Json::Null])]),
        Json::Null,
        Json::Bool(true),
        Json::Number,
        Json::Object,
        Json::Null,
        Json::Null,
        Json::Null,
        list(vec![list(vec![text("en")])]),
    ]);
    let translation = read_extensions(&json, "", Language::French).unwrap();
    assert_eq!(parts(&translation), (Some(Language::English), Language::French, "bonjour"));
    assert!(matches!(
        read_extensions(&Json::Null, "", Language::French),
        Err(Error::ReturnedEmptyResult)
    ));
    assert!(matches!(
        read_dictionary(&Json::Null, "x", Language::French),
        Err(Error::UnexpectedResult(_))
    ));
}

#[test]
fn json_values_give_their_parts() {
    let json = list(vec![text("a"), list(vec![])]);
    assert!(json.is_array());
    assert!(!json.is_string());
    assert_eq!(json.at(0).as_str(), Some("a"));
    assert!(json.at(1).is_array());
    assert!(matches!(json.at(2), Json::Null));
    assert!(matches!(json.at(0).at(0), Json::Null));
    assert_eq!(json.as_array().unwrap().len(), 2);
    assert!(text("a").as_array().is_none());
    assert!(json.as_str().is_none());
}

#[test]
fn the_mobile_page_is_read() {
    let translation =
        Backend::MobileGoogleTranslate.decode(MOBILE_PAGE, Language::SimpleChinese).unwrap();
    assert_eq!(parts(&translation), (None, Language::SimpleChinese, "你好世界！"));
}

#[test]
fn a_mobile_page_with_an_empty_container_is_an_empty_result() {
    let body = "<html><body><div class=\"result-container\"></div></body></html>";
    assert!(matches!(
        Backend::MobileGoogleTranslate.decode(body, Language::English),
        Err(Error::ReturnedEmptyResult)
    ));
}

#[test]
fn a_mobile_page_without_the_container_is_a_parsing_error() {
    for body in ["", "<html><body><div class=\"other\">x</div></body></html>", "plain"] {
        match Backend::MobileGoogleTranslate.decode(body, Language::English) {
            Err(Error::HTMLParsingError(message)) => {
                assert_eq!(message, "no <div class=\"result-container\"> element")
            }
            other => panic!("{}: {:?}", body, other),
        }
    }
}

#[test]
fn a_mobile_page_that_reports_an_error_gives_the_status() {
    let body = "<html><body><div class=\"result-container\"><b>x</b></div><div id=\"other\">y</div><div id=\"af-error-page2\"><title>Error 400 (Bad Request)!!1</title></div></body></html>";
    match Backend::MobileGoogleTranslate.decode(body, Language::English) {
        Err(Error::Status(status)) => assert_eq!(status, "400 Bad Request"),
        other => panic!("{:?}", other),
    }
}

#[test]
fn a_mobile_page_of_another_shape_is_unexpected() {
    let bodies = [
        "<html><body><div class=\"result-container\"><b>x</b></div></body></html>",
        "<html><body><div class=\"result-container\"><b>x</b></div><div id=\"af-error-page2\">no title</div></body></html>",
    ];
    for body in bodies {
        match Backend::MobileGoogleTranslate.decode(body, Language::English) {
            Err(Error::UnexpectedResult(message)) => assert_eq!(
                message,
                unexpected_message("google.API_MobileGoogleTranslate", "HTML", body)
            ),
            other => panic!("{}: {:?}", body, other),
        }
    }
}

fn container(first_child: FirstChild) -> Element {
    Element { attribute: None, html: String::new(), first_child }
}

#[test]
fn the_first_container_settles_most_answers() {
    assert!(read_container(Ok(vec![container(FirstChild::Other)]), Language::English).is_none());
    assert!(matches!(
        read_container(Ok(vec![container(FirstChild::Nothing)]), Language::English),
        Some(Err(Error::ReturnedEmptyResult))
    ));
    match read_container(Ok(vec![]), Language::English) {
        Some(Err(Error::HTMLParsingError(message))) => {
            assert_eq!(message, "no <div class=\"result-container\"> element")
        }
        other => panic!("{:?}", other),
    }
    match read_container(Err("bad selector".to_string()), Language::English) {
        Some(Err(Error::HTMLParsingError(message))) => assert_eq!(message, "bad selector"),
        other => panic!("{:?}", other),
    }
    let found = vec![
        container(FirstChild::Text("hallo".to_string())),
        container(FirstChild::Text("welt".to_string())),
    ];
    match read_container(Ok(found), Language::German) {
        Some(Ok(translation)) => assert_eq!(parts(&translation), (None, Language::German, "hallo")),
        other => panic!("{:?}", other),
    }
}

#[test]
fn only_the_first_container_of_a_page_counts() {
    let body = "<html><body><div class=\"result-container\">eins</div><div class=\"result-container\">zwei</div></body></html>";
    let translation = Backend::MobileGoogleTranslate.decode(body, Language::German).unwrap();
    assert_eq!(parts(&translation), (None, Language::German, "eins"));
    let body = "<html><body><div class=\"result-container\"></div><div class=\"result-container\">zwei</div></body></html>";
    assert!(matches!(
        Backend::MobileGoogleTranslate.decode(body, Language::German),
        Err(Error::ReturnedEmptyResult)
    ));
}

#[test]
fn the_first_error_page_with_a_title_counts() {
    let body = "<html><body><div class=\"result-container\"><i>x</i></div><div id=\"af-error-page2\">none</div><div id=\"af-error-page2\"><title>Error 429 (Too Many Requests)!!1</title></div><div id=\"af-error-page2\"><title>Error 500 (Oops)!!1</title></div></body></html>";
    match Backend::MobileGoogleTranslate.decode(body, Language::English) {
        Err(Error::Status(status)) => assert_eq!(status, "429 Too Many Requests"),
        other => panic!("{:?}", other),
    }
}

#[test]
fn the_groups_of_an_error_title_give_the_status() {
    assert!(read_groups(Ok(None)).is_none());
    let groups = vec![
        Some("<title>Error 404 (Not Found)!!1</title>".to_string()),
        Some("404".to_string()),
        Some("Not Found".to_string()),
    ];
    match read_groups(Ok(Some(groups))) {
        Some(Error::Status(status)) => assert_eq!(status, "404 Not Found"),
        other => panic!("{:?}", other),
    }
    assert!(matches!(read_groups(Err("bad pattern".to_string())), Some(Error::System)));
    assert!(matches!(read_groups(Ok(Some(vec![]))), Some(Error::System)));
    assert!(matches!(
        read_groups(Ok(Some(vec![Some("a".to_string()), None, Some("b".to_string())]))),
        Some(Error::System)
    ));
    assert!(matches!(
        read_groups(Ok(Some(vec![Some("a".to_string()), Some("b".to_string())]))),
        Some(Error::System)
    ));
}

#[test]
fn a_status_below_400_is_read() {
    assert!(matches!(check_status(200, "200 OK".to_string()), Ok(())));
    assert!(matches!(check_status(0, String::new()), Ok(())));
    assert!(matches!(check_status(399, "399".to_string()), Ok(())));
    match check_status(400, "400 Bad Request".to_string()) {
        Err(Error::Status(status)) => assert_eq!(status, "400 Bad Request"),
        other => panic!("{:?}", other),
    }
    match check_status(404, "404 Not Found".to_string()) {
        Err(Error::Status(status)) => assert_eq!(status, "404 Not Found"),
        other => panic!("{:?}", other),
    }
    assert!(matches!(check_status(u16::MAX, String::new()), Err(Error::Status(_))));
}

#[test]
fn a_translation_keeps_its_parts() {
    let translation = Translation::new(Some(Language::Thai), Language::Lao, "x".to_string());
    assert_eq!(parts(&translation), (Some(Language::Thai), Language::Lao, "x"));
}

#[test]
fn json_is_read_variant_by_variant() {
    let items = match parse_json("[1,true,null,\"x\",[[\"y\"],-2.5e3],{\"b\":[1],\"a\":2}]").unwrap() {
        Json::List(items) => items,
        other => panic!("{:?}", other),
    };
    assert_eq!(items.len(), 6);
    assert!(matches!(&items[0], Json::Number));
    assert!(matches!(&items[1], Json::Bool(true)));
    assert!(matches!(&items[2], Json::Null));
    assert!(matches!(&items[3], Json::Text(text) if text == "x"));
    match &items[4] {
        Json::List(inner) => {
            assert_eq!(inner.len(), 2);
            assert_eq!(inner[0].at(0).as_str(), Some("y"));
            assert!(matches!(&inner[1], Json::Number));
        }
        other => panic!("{:?}", other),
    }
    assert!(matches!(&items[5], Json::Object));
    assert!(matches!(parse_json("false"), Ok(Json::Bool(false))));
    assert!(matches!(parse_json("{}"), Ok(Json::Object)));
    assert!(matches!(parse_json("\"\""), Ok(Json::Text(text)) if text.is_empty()));
}

#[test]
fn text_that_is_no_json_gives_the_message() {
    match parse_json("{") {
        Err(message) => assert_eq!(
            message,
            serde_json::from_str::<serde_json::Value>("{").unwrap_err().to_string()
        ),
        other => panic!("{:?}", other),
    }
}

#[test]
fn detection_asks_for_english_and_reads_the_source() {
    assert_eq!(
        Backend::GoogleTranslateExtensions.detection_url("Bonjour"),
        "https://translate.googleapis.com/translate_a/single?client=gtx&dt=t&sl=auto&tl=en&q=Bonjour"
    );
    assert_eq!(
        Backend::GoogleDictionaryChromeExtension.detection_url("Bonjour"),
        Backend::GoogleDictionaryChromeExtension.url(Language::Auto, Language::English, "Bonjour")
    );
    assert!(matches!(
        Backend::GoogleDictionaryChromeExtension.detect("[[\"Hello\",\"fr\"]]"),
        Ok(Some(Language::French))
    ));
    assert!(matches!(
        Backend::GoogleDictionaryChromeExtension.detect("[[\"Hello\",\"tlh\"]]"),
        Ok(None)
    ));
    assert!(matches!(
        Backend::GoogleDictionaryChromeExtension.detect("[[\"\",\"fr\"]]"),
        Err(Error::ReturnedEmptyResult)
    ));
    assert!(matches!(
        Backend::GoogleTranslateExtensions.detect("nothing"),
        Err(Error::JSONParsingError(_))
    ));
    // The mobile page names no language.
    assert!(matches!(Backend::MobileGoogleTranslate.detect(MOBILE_PAGE), Ok(None)));
}

#[test]
fn a_page_without_an_error_report_is_unexpected() {
    let divs = vec![
        Element {
            attribute: Some("main".to_string()),
            html: "<div id=\"main\"><title>Error 400 (Bad Request)!!1</title></div>".to_string(),
            first_child: FirstChild::Other,
        },
        Element { attribute: None, html: "<div></div>".to_string(), first_child: FirstChild::Nothing },
    ];
    match read_error_page(&divs, "the page") {
        Error::UnexpectedResult(message) => assert_eq!(
            message,
            unexpected_message("google.API_MobileGoogleTranslate", "HTML", "the page")
        ),
        other => panic!("{:?}", other),
    }
    assert!(matches!(read_error_page(&vec![], ""), Error::UnexpectedResult(_)));
    let divs = vec![Element {
        attribute: Some("af-error-page2".to_string()),
        html: "<div id=\"af-error-page2\"><title>Error 503 (Service Unavailable)!!1</title></div>"
            .to_string(),
        first_child: FirstChild::Other,
    }];
    match read_error_page(&divs, "the page") {
        Error::Status(status) => assert_eq!(status, "503 Service Unavailable"),
        other => panic!("{:?}", other),
    }
}
