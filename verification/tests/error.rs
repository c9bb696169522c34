use libtranslate::Error;

#[test]
fn test_error_type() {
    let errors = vec![
        Error::System,
        Error::NoDetectorRegistrationService,
        Error::NoTranslatorRegistrationService,
        Error::InvalidServiceName,
        Error::NoTargetLanguage,
        Error::TargetLanguageIsAuto,
        Error::TargetEqualToSource,
        Error::NoAvailableService(1_500_000_000),
        Error::LengthLimit(5001),
        Error::UnexpectedResult("odd".to_string()),
        Error::ReturnedEmptyResult,
        Error::ReqwestError("timed out".to_string()),
        Error::HTMLParsingError("no element".to_string()),
        Error::JSONParsingError("eof".to_string()),
        Error::Status("404 Not Found".to_string()),
    ];
    for error in &errors {
        let copy = error.clone();
        assert_eq!(format!("{:?}", copy), format!("{:?}", error));
    }
    assert!(matches!(errors[7].clone(), Error::NoAvailableService(1_500_000_000)));
    assert!(matches!(errors[8].clone(), Error::LengthLimit(5001)));
    match errors[14].clone() {
        Error::Status(text) => assert_eq!(text, "404 Not Found"),
        other => panic!("{:?}", other),
    }
}
