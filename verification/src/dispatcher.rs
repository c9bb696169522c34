//! The dispatcher: a registry of named backends with their health, the
//! weight policy, the recording of outcomes, and the selection of a backend
//! for each attempt of a call.

use vstd::prelude::*;
use crate::catalog::{catalog, default_api, default_weight, ServiceKind};
use crate::error::Error;
use crate::health::{
    after_call, effective_weight, fresh, lemma_policy_weight_is_effective_weight,
    lemma_rated_weight_is_bounded, lemma_transitions_keep_well_formed, longest_delay,
    policy_weight, registered, well_formed, BackendState, HealthState, Status, BLOCK_CEILING,
    CEILING_BLOCK_DELAY, DEBOUNCE_WINDOW, FIRST_BLOCK_DELAY, LAST_INSTANT, RATED_SAMPLE,
    RETRY_ATTEMPTS, RETRY_DELAY, SECOND_BLOCK_DELAY, THIRD_BLOCK_DELAY, TRUSTED_SUCCESS_RUN,
};
use crate::selection::{
    draw_up_to, exclude, holds_name, pick, select, total_weight, weigh, without, Weighted,
};
use crate::text::same_text;

verus! {

/// Where a backend stands in its failure streak. Instants are nanoseconds
/// on the caller's monotonic clock.
#[derive(PartialEq, Eq, Structural, Debug, Clone, Copy)]
pub enum ServiceStatus {
    /// Eligible, and not known to be failing.
    Ready,
    /// Failing: the escalations left before the backend is blocked, and the
    /// instant up to which it is excluded.
    Retry(u32, u64),
    /// Blocked: the level, and the instant up to which it is excluded.
    Blocking(u32, u64),
}

impl View for ServiceStatus {
    type V = Status;

    open spec fn view(&self) -> Status {
        match *self {
            ServiceStatus::Ready => Status::Ready,
            ServiceStatus::Retry(attempts_left, retry_after) => Status::Retrying {
                attempts_left: attempts_left as nat,
                retry_after: retry_after as int,
            },
            ServiceStatus::Blocking(level, blocked_until) => Status::Blocked {
                level: level as nat,
                blocked_until: blocked_until as int,
            },
        }
    }
}

/// One registered backend: its weight from the catalog and its health.
#[derive(Debug)]
pub struct Service {
    status: ServiceStatus,
    last_error: Option<Error>,
    last_error_time: Option<u64>,
    init_weight: u64,
    succ_req_times: u64,
    total_req_times: u64,
    consecutive_succ_req_times: u64,
}

impl View for Service {
    type V = BackendState;

    closed spec fn view(&self) -> BackendState {
        BackendState {
            static_weight: self.init_weight as nat,
            health: HealthState {
                status: self.status@,
                last_error: self.last_error,
                last_error_time: match self.last_error_time {
                    Some(began) => Some(began as int),
                    None => None,
                },
                total_calls: self.total_req_times as nat,
                successful_calls: self.succ_req_times as nat,
                consecutive_successes: self.consecutive_succ_req_times as nat,
            },
        }
    }
}

impl Service {
    /// Whether the record is one that the transitions can reach.
    pub open spec fn wf(&self) -> bool {
        well_formed(self@.health)
    }

    /// A backend of the given weight that has not been called yet.
    pub fn new(weight: u64) -> (service: Service)
        ensures
            service@ == registered(weight as nat),
            service.wf(),
    {
        Service {
            status: ServiceStatus::Ready,
            last_error: None,
            last_error_time: None,
            init_weight: weight,
            succ_req_times: 0,
            total_req_times: 0,
            consecutive_succ_req_times: 0,
        }
    }

    /// Where the backend stands in its failure streak.
    pub fn status(&self) -> (status: ServiceStatus)
        ensures
            status@ == self@.health.status,
    {
        self.status
    }

    /// The failure of the last call, if the last call failed.
    pub fn last_error(&self) -> (error: &Option<Error>)
        ensures
            *error == self@.health.last_error,
    {
        &self.last_error
    }

    /// When the current failure streak began.
    pub fn last_error_time(&self) -> (began: Option<u64>)
        ensures
            match began {
                Some(instant) => self@.health.last_error_time == Some(instant as int),
                None => self@.health.last_error_time.is_none(),
            },
    {
        self.last_error_time
    }

    /// The weight from the catalog.
    pub fn init_weight(&self) -> (weight: u64)
        ensures
            weight == self@.static_weight,
    {
        self.init_weight
    }

    /// The calls that succeeded.
    pub fn succ_req_times(&self) -> (count: u64)
        ensures
            count == self@.health.successful_calls,
    {
        self.succ_req_times
    }

    /// All calls made.
    pub fn total_req_times(&self) -> (count: u64)
        ensures
            count == self@.health.total_calls,
    {
        self.total_req_times
    }

    /// The successes since the last failure.
    pub fn consecutive_succ_req_times(&self) -> (count: u64)
        ensures
            count == self@.health.consecutive_successes,
    {
        self.consecutive_succ_req_times
    }
}

/// A backend under the name it was registered with.
#[derive(Debug)]
struct Entry {
    name: String,
    service: Service,
}

/// A registry of backends by name. Each name is registered once; a backend
/// stays registered for as long as the dispatcher lives.
#[derive(Debug)]
pub struct Dispatcher {
    registry: Vec<Entry>,
}

impl View for Dispatcher {
    type V = Map<Seq<char>, BackendState>;

    /// The registry as a map from each registered name to its backend.
    open spec fn view(&self) -> Map<Seq<char>, BackendState> {
        Map::new(
            |name: Seq<char>| self.names().contains(name),
            |name: Seq<char>| self.states()[self.names().index_of(name)],
        )
    }
}

/// The registry that holds a fresh backend for each requested name, with
/// its default weight from the catalog of the given kind.
pub open spec fn registrations(kind: ServiceKind, requested: Set<Seq<char>>) -> Map<
    Seq<char>,
    BackendState,
> {
    Map::new(
        |name: Seq<char>| requested.contains(name),
        |name: Seq<char>| registered(catalog(kind)[name]),
    )
}

/// Whether one of the first `upto` entries has the given name and makes the
/// given backend when registered.
spec fn registers(entries: Seq<Weighted>, upto: int, name: Seq<char>, state: BackendState) -> bool {
    exists|seen: int|
        0 <= seen < upto && #[trigger] entries[seen].name@ == name && state == registered(
            entries[seen].weight as nat,
        )
}

/// The names that a list of strings holds.
pub open spec fn listed(names: Seq<String>) -> Set<Seq<char>> {
    Set::new(|name: Seq<char>| exists|at: int| 0 <= at < names.len() && #[trigger] names[at]@ == name)
}

impl Dispatcher {
    /// The registered names, in the order of registration.
    pub closed spec fn names(&self) -> Seq<Seq<char>> {
        Seq::new(self.registry@.len(), |at: int| self.registry@[at].name@)
    }

    /// The registered backends, in the order of registration.
    pub closed spec fn states(&self) -> Seq<BackendState> {
        Seq::new(self.registry@.len(), |at: int| self.registry@[at].service@)
    }

    /// Whether the registry is in order: a backend for every name, no name
    /// twice, and every health record well formed.
    pub open spec fn wf(&self) -> bool {
        &&& self.names().len() == self.states().len()
        &&& self.names().no_duplicates()
        &&& forall|at: int|
            0 <= at < self.states().len() ==> well_formed((#[trigger] self.states()[at]).health)
    }

    /// With no name twice, the map holds each backend under its name.
    pub proof fn lemma_view(&self)
        requires
            self.wf(),
        ensures
            forall|at: int|
                0 <= at < self.names().len() ==> self@.contains_key(#[trigger] self.names()[at])
                    && self@[self.names()[at]] == self.states()[at],
            forall|name: Seq<char>|
                self@.contains_key(name) ==> 0 <= self.names().index_of(name) < self.names().len()
                    && self.names()[self.names().index_of(name)] == name,
    {
        assert forall|at: int| 0 <= at < self.names().len() implies self@.contains_key(
            #[trigger] self.names()[at],
        ) && self@[self.names()[at]] == self.states()[at] by {
            assert(self.names().contains(self.names()[at]));
        }
    }

    /// The place of the named backend in the registry.
    fn position(&self, name: &str) -> (place: Option<usize>)
        ensures
            match place {
                Some(at) => at < self.names().len() && self.names()[at as int] == name@,
                None => !self.names().contains(name@),
            },
    {
        let mut at: usize = 0;
        while at < self.registry.len()
            invariant
                at <= self.registry.len(),
                forall|seen: int| 0 <= seen < at ==> self.names()[seen] != name@,
            decreases self.registry.len() - at,
        {
            if same_text(self.registry[at].name.as_str(), name) {
                return Some(at);
            }
            at += 1;
        }
        None
    }

    /// A registry with a fresh backend for each name among the entries, of
    /// the weight that an entry of that name gives.
    fn register(entries: &Vec<Weighted>) -> (dispatcher: Dispatcher)
        ensures
            dispatcher.wf(),
            forall|name: Seq<char>| dispatcher@.contains_key(name) <==> holds_name(entries@, name),
            forall|name: Seq<char>| #[trigger]
                dispatcher@.contains_key(name) ==> registers(
                    entries@,
                    entries.len() as int,
                    name,
                    dispatcher@[name],
                ),
    {
        let mut dispatcher = Dispatcher { registry: Vec::new() };
        let mut at: usize = 0;
        while at < entries.len()
            invariant
                at <= entries.len(),
                dispatcher.wf(),
                forall|seen: int|
                    0 <= seen < at ==> dispatcher.names().contains(#[trigger] entries[seen].name@),
                forall|place: int|
                    0 <= place < dispatcher.names().len() ==> registers(
                        entries@,
                        at as int,
                        #[trigger] dispatcher.names()[place],
                        dispatcher.states()[place],
                    ),
            decreases entries.len() - at,
        {
            let ghost before = dispatcher;
            if dispatcher.position(entries[at].name.as_str()).is_none() {
                let service = Service::new(entries[at].weight);
                dispatcher.registry.push(Entry { name: entries[at].name.clone(), service });
                proof {
                    let count = before.names().len() as int;
                    assert(dispatcher.names() =~= before.names().push(entries[at as int].name@));
                    assert(dispatcher.states() =~= before.states().push(
                        registered(entries[at as int].weight as nat),
                    ));
                    lemma_transitions_keep_well_formed(fresh(), Error::System, 0);
                    assert(registers(
                        entries@,
                        at + 1,
                        dispatcher.names()[count],
                        dispatcher.states()[count],
                    ));
                }
            }
            proof {
                assert forall|seen: int| 0 <= seen < at + 1 implies dispatcher.names().contains(
                    #[trigger] entries[seen].name@,
                ) by {
                    if seen < at {
                        let place = before.names().index_of(entries[seen].name@);
                        assert(dispatcher.names()[place] == entries[seen].name@);
                    }
                }
                assert forall|place: int| 0 <= place < dispatcher.names().len() implies registers(
                    entries@,
                    at + 1,
                    #[trigger] dispatcher.names()[place],
                    dispatcher.states()[place],
                ) by {
                    if place < before.names().len() {
                        assert(registers(
                            entries@,
                            at as int,
                            before.names()[place],
                            before.states()[place],
                        ));
                    }
                }
            }
            at += 1;
        }
        proof {
            dispatcher.lemma_view();
            assert forall|name: Seq<char>| dispatcher@.contains_key(name) <==> holds_name(
                entries@,
                name,
            ) by {
                if dispatcher@.contains_key(name) {
                    let place = dispatcher.names().index_of(name);
                    assert(registers(
                        entries@,
                        at as int,
                        dispatcher.names()[place],
                        dispatcher.states()[place],
                    ));
                }
                if holds_name(entries@, name) {
                    let seen = choose|seen: int|
                        0 <= seen < entries@.len() && #[trigger] entries@[seen].name@ == name;
                    assert(dispatcher.names().contains(entries[seen].name@));
                }
            }
            assert forall|name: Seq<char>| #[trigger]
                dispatcher@.contains_key(name) implies registers(
                entries@,
                entries.len() as int,
                name,
                dispatcher@[name],
            ) by {
                let place = dispatcher.names().index_of(name);
                assert(registers(
                    entries@,
                    at as int,
                    dispatcher.names()[place],
                    dispatcher.states()[place],
                ));
            }
        }
        dispatcher
    }

    /// A dispatcher over the named backends of the given kind. The list
    /// must not be empty, and the catalog must know every name; a name may
    /// occur more than once and is registered once.
    pub fn new(kind: ServiceKind, apis: Vec<String>) -> (built: Result<Dispatcher, Error>)
        ensures
            match built {
                Ok(dispatcher) => {
                    &&& apis.len() > 0
                    &&& forall|at: int|
                        0 <= at < apis.len() ==> catalog(kind).contains_key(#[trigger] apis[at]@)
                    &&& dispatcher.wf()
                    &&& dispatcher@ == registrations(kind, listed(apis@))
                },
                Err(error) => if apis.len() == 0 {
                    error == Error::NoTranslatorRegistrationService
                } else {
                    &&& error == Error::InvalidServiceName
                    &&& exists|at: int|
                        0 <= at < apis.len() && !catalog(kind).contains_key(#[trigger] apis[at]@)
                },
            },
    {
        if apis.len() == 0 {
            return Err(Error::NoTranslatorRegistrationService);
        }
        let mut entries: Vec<Weighted> = Vec::new();
        let mut at: usize = 0;
        while at < apis.len()
            invariant
                at <= apis.len(),
                entries.len() == at,
                forall|seen: int|
                    0 <= seen < at ==> catalog(kind).contains_key(#[trigger] apis[seen]@),
                forall|seen: int|
                    0 <= seen < at ==> (#[trigger] entries[seen]).name@ == apis[seen]@
                        && entries[seen].weight == catalog(kind)[apis[seen]@],
            decreases apis.len() - at,
        {
            match default_weight(kind, apis[at].as_str()) {
                Some(weight) => {
                    entries.push(Weighted { name: apis[at].clone(), weight });
                },
                None => {
                    return Err(Error::InvalidServiceName);
                },
            }
            at += 1;
        }
        let dispatcher = Dispatcher::register(&entries);
        proof {
            assert forall|name: Seq<char>| holds_name(entries@, name) <==> listed(apis@).contains(
                name,
            ) by {
                if holds_name(entries@, name) {
                    let seen = choose|seen: int|
                        0 <= seen < entries@.len() && #[trigger] entries@[seen].name@ == name;
                    assert(apis@[seen]@ == name);
                }
                if listed(apis@).contains(name) {
                    let seen = choose|seen: int|
                        0 <= seen < apis@.len() && #[trigger] apis@[seen]@ == name;
                    assert(entries@[seen].name@ == name);
                }
            }
            assert forall|name: Seq<char>| #[trigger]
                dispatcher@.contains_key(name) implies dispatcher@[name] == registered(
                catalog(kind)[name],
            ) by {
                assert(registers(entries@, entries.len() as int, name, dispatcher@[name]));
            }
            assert forall|name: Seq<char>|
                dispatcher@.dom().contains(name) <==> #[trigger] registrations(
                    kind,
                    listed(apis@),
                ).dom().contains(name) by {
                assert(holds_name(entries@, name) <==> listed(apis@).contains(name));
            }
        }
        Ok(dispatcher)
    }

    /// A dispatcher over the whole catalog of the given kind.
    pub fn default(kind: ServiceKind) -> (built: Result<Dispatcher, Error>)
        ensures
            built.is_ok(),
            built.unwrap().wf(),
            built.unwrap()@ == registrations(kind, catalog(kind).dom()),
    {
        let entries = default_api(kind);
        let dispatcher = Dispatcher::register(&entries);
        proof {
            assert forall|name: Seq<char>| holds_name(entries@, name) implies catalog(
                kind,
            ).contains_key(name) by {
                let seen = choose|seen: int|
                    0 <= seen < entries@.len() && #[trigger] entries@[seen].name@ == name;
                assert(catalog(kind).contains_key(entries@[seen].name@));
            }
            assert forall|name: Seq<char>| #[trigger]
                dispatcher@.contains_key(name) implies dispatcher@[name] == registered(
                catalog(kind)[name],
            ) by {
                assert(registers(entries@, entries.len() as int, name, dispatcher@[name]));
            }
            assert forall|name: Seq<char>|
                dispatcher@.dom().contains(name) <==> #[trigger] registrations(
                    kind,
                    catalog(kind).dom(),
                ).dom().contains(name) by {
                assert(holds_name(entries@, name) <==> catalog(kind).contains_key(name));
            }
        }
        Ok(dispatcher)
    }

    /// The routing weight of a backend at `now`: nothing while it backs off,
    /// its static weight otherwise. The success rate is consulted on a large
    /// enough sample, and can only raise the weight, which it never does.
    pub fn calc_weight(&self, service: &Service, now: u64) -> (weight: u64)
        requires
            service.wf(),
        ensures
            weight == effective_weight(service@.health, service@.static_weight, now as int),
            weight == policy_weight(service@.health, service@.static_weight, now as int),
    {
        proof {
            lemma_policy_weight_is_effective_weight(
                service@.health,
                service@.static_weight,
                now as int,
            );
        }
        match service.status {
            ServiceStatus::Retry(_, next) => {
                if now < next {
                    return 0;
                }
            },
            ServiceStatus::Blocking(_, end) => {
                if now < end {
                    return 0;
                }
            },
            ServiceStatus::Ready => {},
        }
        if service.consecutive_succ_req_times > TRUSTED_SUCCESS_RUN {
            return service.init_weight;
        }
        if service.total_req_times < RATED_SAMPLE {
            return service.init_weight;
        }
        let total: u128 = service.total_req_times as u128;
        assert(service.succ_req_times * service.init_weight
            <= 0xffff_ffff_ffff_ffff * 0xffff_ffff_ffff_ffff) by (nonlinear_arith)
            requires
                service.succ_req_times <= 0xffff_ffff_ffff_ffff,
                service.init_weight <= 0xffff_ffff_ffff_ffff,
        ;
        let product: u128 = service.succ_req_times as u128 * service.init_weight as u128;
        let quotient: u128 = product / total;
        let rest: u128 = product % total;
        let rated: u128 = if 2 * rest >= total {
            quotient + 1
        } else {
            quotient
        };
        proof {
            lemma_rated_weight_is_bounded(
                service@.health.successful_calls,
                service@.health.total_calls,
                service@.static_weight,
            );
        }
        if rated > service.init_weight as u128 {
            rated as u64
        } else {
            service.init_weight
        }
    }

    /// Records the outcome of a call to the backend, observed at `now`. A
    /// success resets the record. A failure is kept as the last error and,
    /// once the streak is older than the debounce window, escalates the
    /// status by one step.
    pub fn handle_result<R>(service: &mut Service, result: &Result<R, Error>, now: u64)
        requires
            old(service).wf(),
            old(service)@.health.total_calls < u64::MAX,
            result.is_err() ==> now <= LAST_INSTANT,
        ensures
            final(service).wf(),
            final(service)@.static_weight == old(service)@.static_weight,
            final(service)@.health == after_call(old(service)@.health, *result, now as int),
    {
        match result {
            Ok(_) => {
                service.last_error = None;
                service.last_error_time = None;
                service.succ_req_times += 1;
                service.total_req_times += 1;
                service.consecutive_succ_req_times += 1;
                service.status = ServiceStatus::Ready;
            },
            Err(e) => {
                let began = match service.last_error_time {
                    Some(began) => began,
                    None => now,
                };
                service.last_error = Some(e.clone());
                service.last_error_time = Some(began);
                service.total_req_times += 1;
                service.consecutive_succ_req_times = 0;
                if now > began && now - began > DEBOUNCE_WINDOW {
                    service.status = match service.status {
                        ServiceStatus::Ready => ServiceStatus::Retry(
                            RETRY_ATTEMPTS,
                            now + RETRY_DELAY,
                        ),
                        ServiceStatus::Retry(n, _) => if n > 1 {
                            ServiceStatus::Retry(n - 1, now + RETRY_DELAY)
                        } else if n == 1 {
                            ServiceStatus::Blocking(1, now + FIRST_BLOCK_DELAY)
                        } else {
                            ServiceStatus::Blocking(BLOCK_CEILING, now + CEILING_BLOCK_DELAY)
                        },
                        ServiceStatus::Blocking(level, _) => if level == 1 {
                            ServiceStatus::Blocking(2, now + SECOND_BLOCK_DELAY)
                        } else if level == 2 {
                            ServiceStatus::Blocking(3, now + THIRD_BLOCK_DELAY)
                        } else {
                            ServiceStatus::Blocking(BLOCK_CEILING, now + CEILING_BLOCK_DELAY)
                        },
                    };
                }
            },
        }
    }
    /// The longest time from `now` until the backoff window of a registered
    /// backend has passed; zero where none is backing off.
    pub fn calc_max_delay(&self, now: u64) -> (delay: u64)
        ensures
            delay == longest_delay(self.states(), now as int),
    {
        let mut delay: u64 = 0;
        let mut at: usize = 0;
        while at < self.registry.len()
            invariant
                at <= self.registry.len(),
                self.states().len() == self.registry.len(),
                delay == longest_delay(self.states().take(at as int), now as int),
            decreases self.registry.len() - at,
        {
            let own: u64 = match self.registry[at].service.status {
                ServiceStatus::Retry(_, next) => if now < next {
                    next - now
                } else {
                    0
                },
                ServiceStatus::Blocking(_, end) => if now < end {
                    end - now
                } else {
                    0
                },
                ServiceStatus::Ready => 0,
            };
            proof {
                let seen = self.states().take(at + 1);
                assert(seen.drop_last() =~= self.states().take(at as int));
            }
            if own > delay {
                delay = own;
            }
            at += 1;
        }
        proof {
            assert(self.states().take(at as int) =~= self.states());
        }
        delay
    }

    /// The pool of a new call: every registered backend, in the order of
    /// registration, with its routing weight at `now`.
    pub fn candidates(&self, now: u64) -> (pool: Vec<Weighted>)
        requires
            self.wf(),
        ensures
            pool.len() == self.names().len(),
            forall|at: int|
                0 <= at < pool.len() ==> (#[trigger] pool[at]).name@ == self.names()[at]
                    && pool[at].weight == effective_weight(
                    self.states()[at].health,
                    self.states()[at].static_weight,
                    now as int,
                ),
            forall|name: Seq<char>| holds_name(pool@, name) <==> self@.contains_key(name),
    {
        let mut pool: Vec<Weighted> = Vec::new();
        let mut at: usize = 0;
        while at < self.registry.len()
            invariant
                at <= self.registry.len(),
                self.wf(),
                self.names().len() == self.registry.len(),
                pool.len() == at,
                forall|seen: int|
                    0 <= seen < at ==> (#[trigger] pool[seen]).name@ == self.names()[seen]
                        && pool[seen].weight == effective_weight(
                        self.states()[seen].health,
                        self.states()[seen].static_weight,
                        now as int,
                    ),
            decreases self.registry.len() - at,
        {
            assert(self.states()[at as int] == self.registry@[at as int].service@);
            let weight = self.calc_weight(&self.registry[at].service, now);
            pool.push(Weighted { name: self.registry[at].name.clone(), weight });
            at += 1;
        }
        proof {
            self.lemma_view();
            assert forall|name: Seq<char>| holds_name(pool@, name) <==> self@.contains_key(
                name,
            ) by {
                if holds_name(pool@, name) {
                    let at = choose|at: int| 0 <= at < pool@.len() && #[trigger] pool@[at].name@ == name;
                    assert(self.names()[at] == name);
                }
                if self@.contains_key(name) {
                    assert(pool@[self.names().index_of(name)].name@ == name);
                }
            }
        }
        pool
    }

    /// Chooses the backend for the next attempt of a call from the pool
    /// that is left. Where the pool has no weight, no backend is available,
    /// and the error carries the longest remaining backoff window of all
    /// registered backends. Else a number is drawn from one to the total
    /// weight, and the candidate that the draw selects is named.
    pub fn dispatch(&self, services: &Vec<Weighted>, now: u64) -> (chosen: Result<String, Error>)
        ensures
            match chosen {
                Ok(name) => holds_name(services@, name@) && exists|draw: int|
                    1 <= draw <= total_weight(services@) && name@ == services@[#[trigger] pick(
                        services@,
                        draw,
                    )].name@,
                Err(error) => total_weight(services@) == 0 && error == Error::NoAvailableService(
                    longest_delay(self.states(), now as int) as u64,
                ),
            },
    {
        let total = weigh(services);
        if total == 0 {
            return Err(Error::NoAvailableService(self.calc_max_delay(now)));
        }
        let draw = draw_up_to(total);
        let at = select(services, draw);
        assert(services@[at as int].name@ == services@[pick(services@, draw as int)].name@);
        Ok(services[at].name.clone())
    }

    /// Records the outcome of an attempt on the named backend, observed at
    /// `now`, and says whether the call is over. After a success it is. After
    /// a failure the backend leaves the pool of this call, so that it is not
    /// tried again; it stays registered.
    pub fn record<R>(
        &mut self,
        services: &mut Vec<Weighted>,
        name: &str,
        result: &Result<R, Error>,
        now: u64,
    ) -> (done: bool)
        requires
            old(self).wf(),
            old(self)@.contains_key(name@),
            old(self)@[name@].health.total_calls < u64::MAX,
            result.is_err() ==> now <= LAST_INSTANT,
        ensures
            final(self).wf(),
            final(self).names() == old(self).names(),
            final(self)@ == old(self)@.insert(
                name@,
                (BackendState {
                    static_weight: old(self)@[name@].static_weight,
                    health: after_call(old(self)@[name@].health, *result, now as int),
                }),
            ),
            done == result.is_ok(),
            final(services)@ == if done {
                old(services)@
            } else {
                without(old(services)@, name@)
            },
    {
        proof {
            self.lemma_view();
        }
        let ghost before = *self;
        let place = self.position(name);
        let at = place.unwrap();
        Dispatcher::handle_result(&mut self.registry[at].service, result, now);
        proof {
            assert(self.names() =~= before.names());
            assert(self.states() =~= before.states().update(at as int, self.states()[at as int]));
            self.lemma_view();
        }
        match result {
            Ok(_) => true,
            Err(_) => {
                exclude(services, name);
                false
            },
        }
    }

    /// The registered names, in the order of registration.
    pub fn apis(&self) -> (apis: Vec<String>)
        ensures
            apis.len() == self.names().len(),
            forall|at: int| 0 <= at < apis.len() ==> (#[trigger] apis[at])@ == self.names()[at],
    {
        let mut apis: Vec<String> = Vec::new();
        let mut at: usize = 0;
        while at < self.registry.len()
            invariant
                at <= self.registry.len(),
                self.names().len() == self.registry.len(),
                apis.len() == at,
                forall|seen: int| 0 <= seen < at ==> (#[trigger] apis[seen])@ == self.names()[seen],
            decreases self.registry.len() - at,
        {
            apis.push(self.registry[at].name.clone());
            at += 1;
        }
        apis
    }

    /// The named backend, if it is registered.
    pub fn service(&self, api: &str) -> (found: Option<&Service>)
        requires
            self.wf(),
        ensures
            match found {
                Some(service) => self@.contains_key(api@) && service@ == self@[api@]
                    && service.wf(),
                None => !self@.contains_key(api@),
            },
    {
        proof {
            self.lemma_view();
        }
        match self.position(api) {
            Some(at) => {
                Some(&self.registry[at].service)
            },
            None => None,
        }
    }

    /// The failure of the last call to the named backend; nothing if the
    /// backend is not registered, or if its last call succeeded or it has not
    /// been called.
    pub fn last_error(&self, api: &str) -> (error: &Option<Error>)
        requires
            self.wf(),
        ensures
            *error == if self@.contains_key(api@) {
                self@[api@].health.last_error
            } else {
                None
            },
    {
        match self.service(api) {
            Some(service) => service.last_error(),
            None => &None,
        }
    }
}

} // verus!
