//! The catalogs: which backends exist for each kind of service, and the
//! weight that each has by default.

use vstd::prelude::*;
use crate::google::Backend;
use crate::selection::{holds_name, Weighted};
use crate::text::same_text;

verus! {

/// The two kinds of service that backends offer.
#[derive(PartialEq, Eq, Structural, Debug, Clone, Copy)]
pub enum ServiceKind {
    /// Recognising the language of a text.
    Detector,
    /// Translating a text.
    Translator,
}

/// The default weight of each backend of the given kind, by name.
pub open spec fn catalog(kind: ServiceKind) -> Map<Seq<char>, nat> {
    match kind {
        ServiceKind::Detector => map![
            "google.API_GoogleDictionaryChromeExtension"@ => 100_000nat,
            "google.API_GoogleTranslateExtensions"@ => 100_000nat,
        ],
        ServiceKind::Translator => map![
            "google.API_MobileGoogleTranslate"@ => 20_000nat,
            "google.API_GoogleDictionaryChromeExtension"@ => 100_000nat,
            "google.API_GoogleTranslateExtensions"@ => 100_000nat,
        ],
    }
}

/// The three backend names differ from each other.
proof fn lemma_names_differ()
    ensures
        "google.API_MobileGoogleTranslate"@ != "google.API_GoogleDictionaryChromeExtension"@,
        "google.API_MobileGoogleTranslate"@ != "google.API_GoogleTranslateExtensions"@,
        "google.API_GoogleDictionaryChromeExtension"@ != "google.API_GoogleTranslateExtensions"@,
{
    reveal_strlit("google.API_MobileGoogleTranslate");
    reveal_strlit("google.API_GoogleDictionaryChromeExtension");
    reveal_strlit("google.API_GoogleTranslateExtensions");
    assert("google.API_GoogleDictionaryChromeExtension"@[17] == 'D');
    assert("google.API_GoogleTranslateExtensions"@[17] == 'T');
}

/// The default weight of the named backend, if the catalog of the given
/// kind has a backend of that name.
pub fn default_weight(kind: ServiceKind, name: &str) -> (weight: Option<u64>)
    ensures
        match weight {
            Some(found) => catalog(kind).contains_key(name@) && catalog(kind)[name@] == found,
            None => !catalog(kind).contains_key(name@),
        },
{
    proof {
        lemma_names_differ();
    }
    if same_text(name, "google.API_GoogleDictionaryChromeExtension") {
        Some(100_000)
    } else if same_text(name, "google.API_GoogleTranslateExtensions") {
        Some(100_000)
    } else if same_text(name, "google.API_MobileGoogleTranslate") {
        match kind {
            ServiceKind::Detector => None,
            ServiceKind::Translator => Some(20_000),
        }
    } else {
        None
    }
}

/// The backend that answers under each name of the catalog of the given
/// kind. The two extension interfaces answer under each other's names.
pub open spec fn implementations(kind: ServiceKind) -> Map<Seq<char>, Backend> {
    match kind {
        ServiceKind::Detector => map![
            "google.API_GoogleDictionaryChromeExtension"@ => Backend::GoogleTranslateExtensions,
            "google.API_GoogleTranslateExtensions"@ => Backend::GoogleDictionaryChromeExtension,
        ],
        ServiceKind::Translator => map![
            "google.API_MobileGoogleTranslate"@ => Backend::MobileGoogleTranslate,
            "google.API_GoogleDictionaryChromeExtension"@ => Backend::GoogleTranslateExtensions,
            "google.API_GoogleTranslateExtensions"@ => Backend::GoogleDictionaryChromeExtension,
        ],
    }
}

/// The backend that answers under the given name, if the catalog of the
/// given kind has that name.
pub fn default_backend(kind: ServiceKind, name: &str) -> (backend: Option<Backend>)
    ensures
        backend.is_some() == catalog(kind).contains_key(name@),
        match backend {
            Some(found) => implementations(kind).contains_key(name@) && implementations(
                kind,
            )[name@] == found,
            None => !implementations(kind).contains_key(name@),
        },
{
    proof {
        lemma_names_differ();
    }
    if same_text(name, "google.API_GoogleDictionaryChromeExtension") {
        Some(Backend::GoogleTranslateExtensions)
    } else if same_text(name, "google.API_GoogleTranslateExtensions") {
        Some(Backend::GoogleDictionaryChromeExtension)
    } else if same_text(name, "google.API_MobileGoogleTranslate") {
        match kind {
            ServiceKind::Detector => None,
            ServiceKind::Translator => Some(Backend::MobileGoogleTranslate),
        }
    } else {
        None
    }
}

/// The whole catalog of the given kind: each backend once, with its
/// default weight.
pub fn default_api(kind: ServiceKind) -> (entries: Vec<Weighted>)
    ensures
        entries.len() == if kind == ServiceKind::Detector {
            2int
        } else {
            3int
        },
        forall|one: int, other: int|
            0 <= one < other < entries.len() ==> entries[one].name@ != entries[other].name@,
        forall|at: int|
            0 <= at < entries.len() ==> catalog(kind).contains_key(#[trigger] entries[at].name@)
                && catalog(kind)[entries[at].name@] == entries[at].weight,
        forall|name: Seq<char>| catalog(kind).contains_key(name) ==> holds_name(entries@, name),
{
    proof {
        lemma_names_differ();
    }
    let mut entries: Vec<Weighted> = Vec::new();
    match kind {
        ServiceKind::Detector => {},
        ServiceKind::Translator => {
            entries.push(
                Weighted { name: "google.API_MobileGoogleTranslate".to_owned(), weight: 20_000 },
            );
        },
    }
    entries.push(
        Weighted { name: "google.API_GoogleDictionaryChromeExtension".to_owned(), weight: 100_000 },
    );
    entries.push(
        Weighted { name: "google.API_GoogleTranslateExtensions".to_owned(), weight: 100_000 },
    );
    proof {
        let last = entries.len() - 1;
        assert(entries[last].name@ == "google.API_GoogleTranslateExtensions"@);
        assert(entries[last - 1].name@ == "google.API_GoogleDictionaryChromeExtension"@);
        if kind == ServiceKind::Translator {
            assert(entries[0].name@ == "google.API_MobileGoogleTranslate"@);
        }
    }
    entries
}

} // verus!
