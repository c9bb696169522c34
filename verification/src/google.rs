//! The Google backends: the address that each is asked at, and the reading
//! of what each answers.

use vstd::prelude::*;
use vstd::string::StringExecFns;
use crate::api::Translation;
use crate::error::Error;
use crate::html::{
    captures, captures_of, elements, elements_of, elements_view, groups_view, Element,
    ElementView, FirstChild, FirstChildView,
};
use crate::json::{json_of, parse_json, Json, JsonView};
use crate::language::Language;
use crate::text::same_text;

verus! {

/// A way of asking Google for a translation.
#[derive(PartialEq, Eq, Structural, Debug, Clone, Copy)]
pub enum Backend {
    /// The mobile web page of Google Translate, which answers with an HTML
    /// page that holds the translated text.
    MobileGoogleTranslate,
    /// The interface of the Google Dictionary browser extension, which
    /// answers with the translated text and the language of the source as
    /// JSON.
    GoogleDictionaryChromeExtension,
    /// The interface of the Google Translate browser extensions, which
    /// answers with the sentences of the translated text and the language of
    /// the source as JSON.
    GoogleTranslateExtensions,
}

/// What an answer says.
pub enum Reading {
    /// The text in the target language, and the language of the source
    /// where the backend names one that the library knows.
    Translated { source: Option<Language>, text: Seq<char> },
    /// The backend had nothing to say.
    Empty,
    /// The answer has not the shape that the backend is known to use.
    Unexpected,
    /// The answer is no JSON; the message says why.
    BadJson(Seq<char>),
    /// The page cannot be searched, or lacks the element that holds the
    /// result; the message says which.
    BadHtml(Seq<char>),
    /// The backend reports an error by its status.
    Status(Seq<char>),
    /// The pattern for error pages did not do its work.
    Fault,
}

/// Whether the result tells what the reading says: the translation with its
/// parts, or the error with its message. `notice` is the message for an
/// answer of unexpected shape.
pub open spec fn delivers(
    result: Result<Translation, Error>,
    reading: Reading,
    target: Language,
    notice: Seq<char>,
) -> bool {
    match reading {
        Reading::Translated { source, text } => result matches Ok(translation)
            && translation.spec_source() == source && translation.spec_target() == target
            && translation.spec_result() == text,
        Reading::Empty => result matches Err(Error::ReturnedEmptyResult),
        Reading::Unexpected => result matches Err(Error::UnexpectedResult(message)) && message@
            == notice,
        Reading::BadJson(fault) => result matches Err(Error::JSONParsingError(message))
            && message@ == fault,
        Reading::BadHtml(fault) => result matches Err(Error::HTMLParsingError(message))
            && message@ == fault,
        Reading::Status(status) => result matches Err(Error::Status(message)) && message@
            == status,
        Reading::Fault => result matches Err(Error::System),
    }
}

/// The message for an answer of unexpected shape: where it was met, in
/// square brackets, a request to report it, and the answer itself.
pub open spec fn notice(place: Seq<char>, format: Seq<char>, body: Seq<char>) -> Seq<char> {
    "["@ + place + "]nexpected error occurred, please report this to the developer, "@ + format
        + ": "@ + body
}

/// What an answer of the dictionary extension's interface says. The
/// answer is an array that holds, first, an array of the translated text and
/// the code of the source language.
pub open spec fn dictionary_reading(json: JsonView) -> Reading {
    let pair = json.at(0);
    if !(pair is List) || !(pair.at(0) is Text) || !(pair.at(1) is Text) {
        Reading::Unexpected
    } else if pair.at(0)->Text_0.len() == 0 {
        Reading::Empty
    } else {
        Reading::Translated {
            source: Language::with_code(pair.at(1)->Text_0),
            text: pair.at(0)->Text_0,
        }
    }
}

/// Whether each of the sentences is an array that begins with a string.
pub open spec fn sentences_in_shape(sentences: Seq<JsonView>) -> bool {
    forall|at: int| 0 <= at < sentences.len() ==> (#[trigger] sentences[at]).at(0) is Text
}

/// The sentences put together: the first element of each, in order.
pub open spec fn joined(sentences: Seq<JsonView>) -> Seq<char>
    decreases sentences.len(),
{
    if sentences.len() == 0 {
        Seq::empty()
    } else {
        joined(sentences.drop_last()) + sentences.last().at(0)->Text_0
    }
}

/// What an answer of the translate extensions' interface says. The answer
/// is an array that holds, first, an array of sentences, each an array that
/// begins with the translated sentence; and at its ninth place an array that
/// begins with an array that begins with the code of the source language.
pub open spec fn extensions_reading(json: JsonView) -> Reading {
    let sentences = json.at(0);
    let code = json.at(8).at(0).at(0);
    if !(sentences is List) {
        Reading::Empty
    } else if !(sentences.at(0) is List) || !(json.at(8) is List) || !(json.at(8).at(0) is List)
        || !(code is Text) {
        Reading::Unexpected
    } else if !sentences_in_shape(sentences.items()) {
        Reading::Unexpected
    } else if joined(sentences.items()).len() == 0 {
        Reading::Empty
    } else {
        Reading::Translated {
            source: Language::with_code(code->Text_0),
            text: joined(sentences.items()),
        }
    }
}

/// What the result containers of the mobile page say, where that settles
/// it: the first one holds the text, and nothing after it. `None` where the
/// page must be searched for an error report.
pub open spec fn container_reading(found: Result<Seq<ElementView>, Seq<char>>) -> Option<Reading> {
    match found {
        Err(fault) => Some(Reading::BadHtml(fault)),
        Ok(containers) => if containers.len() == 0 {
            Some(Reading::BadHtml("no <div class=\"result-container\"> element"@))
        } else {
            match containers[0].first_child {
                FirstChildView::Nothing => Some(Reading::Empty),
                FirstChildView::Text(text) => Some(Reading::Translated { source: None, text }),
                FirstChildView::Other => None,
            }
        },
    }
}

/// What the groups of the pattern for error pages say, where it matched:
/// the status is the number and the words, with a space between. `None`
/// where it did not match.
pub open spec fn groups_reading(found: Result<Option<Seq<Option<Seq<char>>>>, Seq<char>>) -> Option<
    Reading,
> {
    match found {
        Err(_) => Some(Reading::Fault),
        Ok(None) => None,
        Ok(Some(groups)) => if groups.len() >= 3 && groups[1].is_some() && groups[2].is_some() {
            Some(Reading::Status(groups[1].unwrap() + " "@ + groups[2].unwrap()))
        } else {
            Some(Reading::Fault)
        },
    }
}

/// What the `div` elements of a page say about an error: the first one
/// with the id of an error page whose markup holds an error title decides.
pub open spec fn error_page_reading(divs: Seq<ElementView>) -> Reading
    decreases divs.len(),
{
    if divs.len() == 0 {
        Reading::Unexpected
    } else if divs[0].attribute == Some("af-error-page2"@) {
        match groups_reading(
            captures_of("<title>Error (\\d+) \\((.*)\\)!!.*</title>"@, divs[0].html),
        ) {
            Some(reading) => reading,
            None => error_page_reading(divs.drop_first()),
        }
    } else {
        error_page_reading(divs.drop_first())
    }
}

/// What an answer of the mobile page says.
pub open spec fn mobile_reading(body: Seq<char>) -> Reading {
    match container_reading(elements_of(body, "div.result-container"@, "id"@)) {
        Some(reading) => reading,
        None => match elements_of(body, "div"@, "id"@) {
            Err(fault) => Reading::BadHtml(fault),
            Ok(divs) => error_page_reading(divs),
        },
    }
}

/// The error for an answer of unexpected shape.
fn unexpected(place: &str, format: &str, body: &str) -> (error: Error)
    ensures
        error matches Error::UnexpectedResult(message) && message@ == notice(
            place@,
            format@,
            body@,
        ),
{
    let mut message = "[".to_owned();
    message.append(place);
    message.append("]nexpected error occurred, please report this to the developer, ");
    message.append(format);
    message.append(": ");
    message.append(body);
    Error::UnexpectedResult(message)
}

/// Reads an answer of the dictionary extension's interface; `body` is the
/// text that `json` was read from.
pub fn read_dictionary(json: &Json, body: &str, target: Language) -> (result: Result<
    Translation,
    Error,
>)
    ensures
        delivers(
            result,
            dictionary_reading(json@),
            target,
            Backend::GoogleDictionaryChromeExtension.notice_of(body@),
        ),
{
    let pair = json.at(0);
    if !pair.is_array() {
        return Err(unexpected("google.API_GoogleDictionaryChromeExtension", "JSON", body));
    }
    let text = match pair.at(0).as_str() {
        Some(text) => text,
        None => {
            return Err(unexpected("google.API_GoogleDictionaryChromeExtension", "JSON", body));
        },
    };
    let code = match pair.at(1).as_str() {
        Some(code) => code,
        None => {
            return Err(unexpected("google.API_GoogleDictionaryChromeExtension", "JSON", body));
        },
    };
    if text.is_empty() {
        return Err(Error::ReturnedEmptyResult);
    }
    Ok(Translation::new(Language::from(code), target, text.to_owned()))
}

/// Reads an answer of the translate extensions' interface; `body` is the
/// text that `json` was read from.
pub fn read_extensions(json: &Json, body: &str, target: Language) -> (result: Result<
    Translation,
    Error,
>)
    ensures
        delivers(
            result,
            extensions_reading(json@),
            target,
            Backend::GoogleTranslateExtensions.notice_of(body@),
        ),
{
    let sentences = match json.at(0).as_array() {
        Some(sentences) => sentences,
        None => {
            return Err(Error::ReturnedEmptyResult);
        },
    };
    if !json.at(0).at(0).is_array() || !json.at(8).is_array() || !json.at(8).at(0).is_array() {
        return Err(unexpected("google.API_GoogleTranslateExtensions", "JSON", body));
    }
    let code = match json.at(8).at(0).at(0).as_str() {
        Some(code) => code,
        None => {
            return Err(unexpected("google.API_GoogleTranslateExtensions", "JSON", body));
        },
    };
    let ghost all = json@.at(0).items();
    let mut text = String::new();
    let mut at: usize = 0;
    while at < sentences.len()
        invariant
            at <= sentences.len(),
            all == json@.at(0).items(),
            json@.at(0) is List,
            json@.at(0).at(0) is List,
            json@.at(8) is List,
            json@.at(8).at(0) is List,
            json@.at(8).at(0).at(0) == JsonView::Text(code@),
            all.len() == sentences.len(),
            forall|seen: int| 0 <= seen < sentences.len() ==> (#[trigger] sentences[seen])@ == all[seen],
            sentences_in_shape(all.take(at as int)),
            text@ == joined(all.take(at as int)),
        decreases sentences.len() - at,
    {
        let ghost seen = all.take(at + 1);
        proof {
            assert(seen.drop_last() =~= all.take(at as int));
        }
        match sentences[at].at(0).as_str() {
            Some(sentence) => {
                text.append(sentence);
            },
            None => {
                return Err(unexpected("google.API_GoogleTranslateExtensions", "JSON", body));
            },
        }
        at += 1;
    }
    proof {
        assert(all.take(at as int) =~= all);
    }
    if text.as_str().is_empty() {
        return Err(Error::ReturnedEmptyResult);
    }
    Ok(Translation::new(Language::from(code), target, text))
}

/// Reads the result containers of the mobile page, where they settle the
/// answer; `None` where the page must be searched for an error report.
pub fn read_container(found: Result<Vec<Element>, String>, target: Language) -> (result: Option<
    Result<Translation, Error>,
>)
    ensures
        match container_reading(
            match found {
                Ok(containers) => Ok(elements_view(containers@)),
                Err(fault) => Err(fault@),
            },
        ) {
            Some(reading) => result matches Some(settled) && delivers(
                settled,
                reading,
                target,
                Seq::empty(),
            ),
            None => result.is_none(),
        },
{
    match found {
        Err(fault) => Some(Err(Error::HTMLParsingError(fault))),
        Ok(containers) => {
            if containers.len() == 0 {
                return Some(
                    Err(
                        Error::HTMLParsingError(
                            "no <div class=\"result-container\"> element".to_owned(),
                        ),
                    ),
                );
            }
            match &containers[0].first_child {
                FirstChild::Nothing => Some(Err(Error::ReturnedEmptyResult)),
                FirstChild::Text(text) => Some(Ok(Translation::new(None, target, text.clone()))),
                FirstChild::Other => None,
            }
        },
    }
}

/// Reads the groups that the pattern for error pages found: the error that
/// the page reports, or `None` where the pattern did not match.
pub fn read_groups(found: Result<Option<Vec<Option<String>>>, String>) -> (error: Option<Error>)
    ensures
        match groups_reading(
            match found {
                Ok(Some(groups)) => Ok(Some(groups_view(groups@))),
                Ok(None) => Ok(None),
                Err(fault) => Err(fault@),
            },
        ) {
            Some(reading) => error matches Some(error) && delivers(
                Err(error),
                reading,
                Language::Auto,
                Seq::empty(),
            ),
            None => error.is_none(),
        },
{
    match found {
        Err(_) => Some(Error::System),
        Ok(None) => None,
        Ok(Some(groups)) => {
            if groups.len() < 3 {
                return Some(Error::System);
            }
            match (&groups[1], &groups[2]) {
                (Some(number), Some(words)) => {
                    let mut status = number.clone();
                    status.append(" ");
                    status.append(words.as_str());
                    Some(Error::Status(status))
                },
                _ => Some(Error::System),
            }
        },
    }
}

/// Searches the `div` elements of a page for an error report.
pub fn read_error_page(divs: &Vec<Element>, body: &str) -> (error: Error)
    ensures
        delivers(
            Err(error),
            error_page_reading(elements_view(divs@)),
            Language::Auto,
            Backend::MobileGoogleTranslate.notice_of(body@),
        ),
{
    let ghost all = elements_view(divs@);
    let mut at: usize = 0;
    proof {
        assert(all.skip(0) =~= all);
    }
    while at < divs.len()
        invariant
            at <= divs.len(),
            all == elements_view(divs@),
            error_page_reading(all) == error_page_reading(all.skip(at as int)),
        decreases divs.len() - at,
    {
        proof {
            assert(all.skip(at as int).drop_first() =~= all.skip(at + 1));
            assert(all.skip(at as int)[0] == divs@[at as int]@);
        }
        let marked = match &divs[at].attribute {
            Some(id) => same_text(id.as_str(), "af-error-page2"),
            None => false,
        };
        if marked {
            let found = captures("<title>Error (\\d+) \\((.*)\\)!!.*</title>", divs[at].html.as_str());
            match read_groups(found) {
                Some(error) => {
                    return error;
                },
                None => {},
            }
        }
        at += 1;
    }
    unexpected("google.API_MobileGoogleTranslate", "HTML", body)
}

impl Backend {
    /// The name under which the backend is known.
    pub open spec fn spec_name(self) -> Seq<char> {
        match self {
            Backend::MobileGoogleTranslate => "google.API_MobileGoogleTranslate"@,
            Backend::GoogleDictionaryChromeExtension => "google.API_GoogleDictionaryChromeExtension"@,
            Backend::GoogleTranslateExtensions => "google.API_GoogleTranslateExtensions"@,
        }
    }

    /// The address of the backend, up to the code of the source language.
    pub open spec fn endpoint(self) -> Seq<char> {
        match self {
            Backend::MobileGoogleTranslate => "https://translate.google.com/m?hl=en&sl="@,
            Backend::GoogleDictionaryChromeExtension => "https://clients5.google.com/translate_a/t?client=dict-chrome-ex&sl="@,
            Backend::GoogleTranslateExtensions => "https://translate.googleapis.com/translate_a/single?client=gtx&dt=t&sl="@,
        }
    }

    /// The address at which the backend is asked for the text in the target
    /// language: the endpoint, the codes of the two languages, and the text
    /// as it is.
    pub open spec fn url_of(self, source: Language, target: Language, text: Seq<char>) -> Seq<char> {
        self.endpoint() + source.code() + "&tl="@ + target.code() + "&q="@ + text
    }

    /// The message for an answer of unexpected shape.
    pub open spec fn notice_of(self, body: Seq<char>) -> Seq<char> {
        notice(
            self.spec_name(),
            if self == Backend::MobileGoogleTranslate {
                "HTML"@
            } else {
                "JSON"@
            },
            body,
        )
    }

    /// What the answer of the backend says.
    pub open spec fn reading(self, body: Seq<char>) -> Reading {
        match self {
            Backend::MobileGoogleTranslate => mobile_reading(body),
            Backend::GoogleDictionaryChromeExtension => match json_of(body) {
                Ok(json) => dictionary_reading(json),
                Err(fault) => Reading::BadJson(fault),
            },
            Backend::GoogleTranslateExtensions => match json_of(body) {
                Ok(json) => extensions_reading(json),
                Err(fault) => Reading::BadJson(fault),
            },
        }
    }

    /// The name under which the backend is known.
    pub fn name(self) -> (name: &'static str)
        ensures
            name@ == self.spec_name(),
    {
        match self {
            Backend::MobileGoogleTranslate => "google.API_MobileGoogleTranslate",
            Backend::GoogleDictionaryChromeExtension => "google.API_GoogleDictionaryChromeExtension",
            Backend::GoogleTranslateExtensions => "google.API_GoogleTranslateExtensions",
        }
    }

    /// The address at which the backend is asked for the text in the target
    /// language.
    pub fn url(self, source: Language, target: Language, text: &str) -> (url: String)
        ensures
            url@ == self.url_of(source, target, text@),
    {
        let mut url = match self {
            Backend::MobileGoogleTranslate => "https://translate.google.com/m?hl=en&sl=".to_owned(),
            Backend::GoogleDictionaryChromeExtension => "https://clients5.google.com/translate_a/t?client=dict-chrome-ex&sl=".to_owned(),
            Backend::GoogleTranslateExtensions => "https://translate.googleapis.com/translate_a/single?client=gtx&dt=t&sl=".to_owned(),
        };
        url.append(source.abbreviation().unwrap());
        url.append("&tl=");
        url.append(target.abbreviation().unwrap());
        url.append("&q=");
        url.append(text);
        url
    }

    /// The address at which the backend is asked to recognise the language
    /// of the text: it is asked for the text in English, from whatever
    /// language the text is in.
    pub fn detection_url(self, text: &str) -> (url: String)
        ensures
            url@ == self.url_of(Language::Auto, Language::English, text@),
    {
        self.url(Language::Auto, Language::English, text)
    }

    /// Reads the answer of the backend to a request to recognise the
    /// language: the language that the backend reports for the source, if the
    /// library knows it.
    pub fn detect(self, body: &str) -> (result: Result<Option<Language>, Error>)
        ensures
            match result {
                Ok(found) => self.reading(body@) matches Reading::Translated { source, .. }
                    && found == source,
                Err(error) => !(self.reading(body@) is Translated) && delivers(
                    Err(error),
                    self.reading(body@),
                    Language::English,
                    self.notice_of(body@),
                ),
            },
    {
        match self.decode(body, Language::English) {
            Ok(translation) => Ok(translation.source()),
            Err(error) => Err(error),
        }
    }

    /// Reads the answer of the backend to a request for the target
    /// language.
    pub fn decode(self, body: &str, target: Language) -> (result: Result<Translation, Error>)
        ensures
            delivers(result, self.reading(body@), target, self.notice_of(body@)),
    {
        match self {
            Backend::MobileGoogleTranslate => {
                let found = elements(body, "div.result-container", "id");
                match read_container(found, target) {
                    Some(settled) => settled,
                    None => match elements(body, "div", "id") {
                        Err(fault) => Err(Error::HTMLParsingError(fault)),
                        Ok(divs) => Err(read_error_page(&divs, body)),
                    },
                }
            },
            Backend::GoogleDictionaryChromeExtension => match parse_json(body) {
                Ok(json) => read_dictionary(&json, body, target),
                Err(fault) => Err(Error::JSONParsingError(fault)),
            },
            Backend::GoogleTranslateExtensions => match parse_json(body) {
                Ok(json) => read_extensions(&json, body, target),
                Err(fault) => Err(Error::JSONParsingError(fault)),
            },
        }
    }
}

} // verus!
