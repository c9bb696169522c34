//! What a backend answers.

use vstd::prelude::*;
use crate::error::Error;
use crate::language::Language;

verus! {

/// A text in the target language, with that language and, where the
/// backend told it, the language of the source text.
#[derive(Debug)]
pub struct Translation {
    source: Option<Language>,
    target: Language,
    result: String,
}

impl Translation {
    /// The language that the backend reports for the source text.
    pub closed spec fn spec_source(&self) -> Option<Language> {
        self.source
    }

    /// The language of the translated text.
    pub closed spec fn spec_target(&self) -> Language {
        self.target
    }

    /// The translated text.
    pub closed spec fn spec_result(&self) -> Seq<char> {
        self.result@
    }

    /// A translation with the given parts.
    pub fn new(source: Option<Language>, target: Language, result: String) -> (translation: Self)
        ensures
            translation.spec_source() == source,
            translation.spec_target() == target,
            translation.spec_result() == result@,
    {
        Translation { source, target, result }
    }

    /// The language that the backend reports for the source text.
    #[verifier::when_used_as_spec(spec_source)]
    pub fn source(&self) -> (source: Option<Language>)
        ensures
            source == self.spec_source(),
    {
        self.source
    }

    /// The language of the translated text.
    #[verifier::when_used_as_spec(spec_target)]
    pub fn target(&self) -> (target: Language)
        ensures
            target == self.spec_target(),
    {
        self.target
    }

    /// The translated text.
    pub fn result(&self) -> (result: &str)
        ensures
            result@ == self.spec_result(),
    {
        self.result.as_str()
    }
}

/// Whether an answer with the given status code is to be read: a code
/// below 400 is; any other is an error that carries the status line.
pub fn check_status(code: u16, status: String) -> (checked: Result<(), Error>)
    ensures
        checked == if code < 400 {
            Ok::<(), Error>(())
        } else {
            Err::<(), Error>(Error::Status(status))
        },
{
    if code < 400 {
        Ok(())
    } else {
        Err(Error::Status(status))
    }
}

} // verus!
