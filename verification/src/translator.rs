//! Configuration: which backends a detector or a translator uses, and how
//! long a request may take.

use vstd::prelude::*;
use crate::catalog::{catalog, ServiceKind};
use crate::dispatcher::{listed, registrations, Dispatcher};
use crate::error::Error;
use crate::language::Language;

verus! {

/// The timeout of a request unless another is set: thirty seconds, in
/// nanoseconds.
pub const DEFAULT_TIMEOUT: u64 = 30_000_000_000;

/// Which backends take part.
#[derive(Debug)]
pub enum Strategy {
    /// Every backend of the catalog.
    Default,
    /// The one named backend.
    Single(String),
    /// The named backends.
    Mix(Vec<String>),
}

/// What is to be translated.
#[derive(Debug)]
pub enum TranslatorType {
    /// A text.
    Text,
    /// A file of text.
    NormalFile,
    /// A file of subtitles.
    SubTitleFile,
}

/// The settings that a builder collects.
#[derive(Debug)]
pub struct Config {
    /// Which backends take part.
    pub strategy: Strategy,
    /// How long a request may take, in nanoseconds.
    pub timeout: u64,
}

/// The names that a strategy asks for, of the given kind of service.
pub open spec fn requested(kind: ServiceKind, strategy: Strategy) -> Set<Seq<char>> {
    match strategy {
        Strategy::Default => catalog(kind).dom(),
        Strategy::Single(name) => set![name@],
        Strategy::Mix(names) => listed(names@),
    }
}

/// Whether a dispatcher can be made for the strategy: it names at least one
/// backend, and the catalog of the given kind knows each name.
pub open spec fn feasible(kind: ServiceKind, strategy: Strategy) -> bool {
    match strategy {
        Strategy::Default => true,
        Strategy::Single(name) => catalog(kind).contains_key(name@),
        Strategy::Mix(names) => names.len() > 0 && forall|at: int|
            0 <= at < names.len() ==> catalog(kind).contains_key(#[trigger] names[at]@),
    }
}

/// The dispatcher that the strategy asks for: over the whole catalog of the
/// given kind, over one named backend, or over the named backends. An empty
/// list is refused, and so is a name that the catalog does not know.
pub fn dispatcher_for(kind: ServiceKind, strategy: &Strategy) -> (built: Result<Dispatcher, Error>)
    ensures
        built.is_ok() == feasible(kind, *strategy),
        match built {
            Ok(dispatcher) => dispatcher.wf() && dispatcher@ == registrations(
                kind,
                requested(kind, *strategy),
            ),
            Err(error) => error == if strategy matches Strategy::Mix(names) && names.len() == 0 {
                Error::NoTranslatorRegistrationService
            } else {
                Error::InvalidServiceName
            },
        },
{
    match strategy {
        Strategy::Default => Dispatcher::default(kind),
        Strategy::Single(name) => {
            let mut apis: Vec<String> = Vec::new();
            apis.push(name.clone());
            let built = Dispatcher::new(kind, apis);
            proof {
                assert(apis@[0]@ == name@);
            }
            built
        },
        Strategy::Mix(names) => {
            let mut apis: Vec<String> = Vec::new();
            let mut at: usize = 0;
            while at < names.len()
                invariant
                    at <= names.len(),
                    apis.len() == at,
                    forall|seen: int| 0 <= seen < at ==> #[trigger] apis[seen]@ == names[seen]@,
                decreases names.len() - at,
            {
                apis.push(names[at].clone());
                at += 1;
            }
            let built = Dispatcher::new(kind, apis);
            proof {
                assert forall|name: Seq<char>| listed(apis@).contains(name) <==> listed(
                    names@,
                ).contains(name) by {
                    if listed(names@).contains(name) {
                        let seen = choose|seen: int|
                            0 <= seen < names@.len() && #[trigger] names@[seen]@ == name;
                        assert(apis@[seen]@ == name);
                    }
                }
                if built.is_ok() {
                    assert forall|seen: int| 0 <= seen < names.len() implies catalog(
                        kind,
                    ).contains_key(#[trigger] names[seen]@) by {
                        assert(catalog(kind).contains_key(apis[seen]@));
                    }
                }
            }
            built
        },
    }
}

/// Whether the pair of languages can be asked for: the target must be a
/// language in its own right, other than the source.
pub fn check_languages(source: Language, target: Language) -> (checked: Result<(), Error>)
    ensures
        checked == if target == Language::Auto {
            Err::<(), Error>(Error::TargetLanguageIsAuto)
        } else if target == source {
            Err::<(), Error>(Error::TargetEqualToSource)
        } else {
            Ok::<(), Error>(())
        },
{
    if target == Language::Auto {
        return Err(Error::TargetLanguageIsAuto);
    }
    if target == source {
        return Err(Error::TargetEqualToSource);
    }
    Ok(())
}

/// Collects the settings of a detector.
#[derive(Debug)]
pub struct DetectorBuilder {
    config: Config,
}

impl View for DetectorBuilder {
    type V = Config;

    closed spec fn view(&self) -> Config {
        self.config
    }
}

impl DetectorBuilder {
    /// A builder with the default settings.
    pub fn new() -> (builder: Self)
        ensures
            builder@ == (Config { strategy: Strategy::Default, timeout: DEFAULT_TIMEOUT }),
    {
        DetectorBuilder::default()
    }

    /// A builder with every backend of the catalog and the default timeout.
    pub fn default() -> (builder: Self)
        ensures
            builder@ == (Config { strategy: Strategy::Default, timeout: DEFAULT_TIMEOUT }),
    {
        DetectorBuilder { config: Config { strategy: Strategy::Default, timeout: DEFAULT_TIMEOUT } }
    }

    /// The same settings with the given strategy.
    pub fn strategy(self, strategy: Strategy) -> (builder: Self)
        ensures
            builder@ == (Config { strategy, timeout: self@.timeout }),
    {
        DetectorBuilder { config: Config { strategy, timeout: self.config.timeout } }
    }

    /// The same settings with the given timeout, in nanoseconds.
    pub fn timeout(self, timeout: u64) -> (builder: Self)
        ensures
            builder@ == (Config { strategy: self@.strategy, timeout }),
    {
        DetectorBuilder { config: Config { strategy: self.config.strategy, timeout } }
    }

    /// The settings collected so far.
    pub fn config(&self) -> (config: &Config)
        ensures
            *config == self@,
    {
        &self.config
    }

    /// The dispatcher over the detection backends that the strategy asks
    /// for.
    pub fn dispatcher(&self) -> (built: Result<Dispatcher, Error>)
        ensures
            built.is_ok() == feasible(ServiceKind::Detector, self@.strategy),
            match built {
                Ok(dispatcher) => dispatcher.wf() && dispatcher@ == registrations(
                    ServiceKind::Detector,
                    requested(ServiceKind::Detector, self@.strategy),
                ),
                Err(error) => error == if self@.strategy matches Strategy::Mix(names)
                    && names.len() == 0 {
                    Error::NoTranslatorRegistrationService
                } else {
                    Error::InvalidServiceName
                },
            },
    {
        dispatcher_for(ServiceKind::Detector, &self.config.strategy)
    }
}

/// Collects the settings of a translator.
#[derive(Debug)]
pub struct TranslatorBuilder {
    config: Config,
}

impl View for TranslatorBuilder {
    type V = Config;

    closed spec fn view(&self) -> Config {
        self.config
    }
}

impl TranslatorBuilder {
    /// A builder with the default settings.
    pub fn new() -> (builder: Self)
        ensures
            builder@ == (Config { strategy: Strategy::Default, timeout: DEFAULT_TIMEOUT }),
    {
        TranslatorBuilder::default()
    }

    /// A builder with every backend of the catalog and the default timeout.
    pub fn default() -> (builder: Self)
        ensures
            builder@ == (Config { strategy: Strategy::Default, timeout: DEFAULT_TIMEOUT }),
    {
        TranslatorBuilder {
            config: Config { strategy: Strategy::Default, timeout: DEFAULT_TIMEOUT },
        }
    }

    /// The same settings with the given strategy.
    pub fn strategy(self, strategy: Strategy) -> (builder: Self)
        ensures
            builder@ == (Config { strategy, timeout: self@.timeout }),
    {
        TranslatorBuilder { config: Config { strategy, timeout: self.config.timeout } }
    }

    /// The same settings with the given timeout, in nanoseconds.
    pub fn timeout(self, timeout: u64) -> (builder: Self)
        ensures
            builder@ == (Config { strategy: self@.strategy, timeout }),
    {
        TranslatorBuilder { config: Config { strategy: self.config.strategy, timeout } }
    }

    /// The settings collected so far.
    pub fn config(&self) -> (config: &Config)
        ensures
            *config == self@,
    {
        &self.config
    }

    /// The dispatcher over the translation backends that the strategy asks
    /// for.
    pub fn dispatcher(&self) -> (built: Result<Dispatcher, Error>)
        ensures
            built.is_ok() == feasible(ServiceKind::Translator, self@.strategy),
            match built {
                Ok(dispatcher) => dispatcher.wf() && dispatcher@ == registrations(
                    ServiceKind::Translator,
                    requested(ServiceKind::Translator, self@.strategy),
                ),
                Err(error) => error == if self@.strategy matches Strategy::Mix(names)
                    && names.len() == 0 {
                    Error::NoTranslatorRegistrationService
                } else {
                    Error::InvalidServiceName
                },
            },
    {
        dispatcher_for(ServiceKind::Translator, &self.config.strategy)
    }
}

} // verus!
