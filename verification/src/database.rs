//! The operations of the directory, each as a state machine between its
//! requests. The lookup of a person by identifier and the sign-up of a new
//! person go through the cache; the search and the count go straight to the
//! record store.
//!
//! A machine never talks to the cache or the record store. It hands out the
//! request to send, and is resumed with the reply. The record store is the
//! sole authority: the cache only ever spares a request to it.

use crate::cache::{
    get_person, hyphenated, id_key, CacheProbe, CacheProbeView, SetCommand, SetCommandView,
};
use crate::controllers::{
    people_views, tech_texts, NewPerson, NewPersonView, Person, PersonName, PersonNick,
    PersonView, Tech,
};
use crate::error_handler::{DBError, DatabaseError};
use vstd::prelude::*;

verus! {

/// What an operation asks of the world around it.
#[derive(Debug)]
pub enum Request {
    /// Whether the cache is connected.
    CacheLiveness,
    /// What the cache holds under a key.
    CacheGet { key: String },
    /// The person that the record store holds under an identifier.
    StoreFind { id: u128 },
    /// That the record store take a new person in, and answer with the
    /// person that it holds from then on.
    StoreInsert { row: Person },
    /// The people in the record store that match a text, `limit` of them at
    /// most.
    StoreSearch { query: String, limit: u32 },
    /// The number of people in the record store.
    StoreCount,
}

/// What a [`Request`] holds.
pub enum RequestView {
    CacheLiveness,
    CacheGet { key: Seq<char> },
    StoreFind { id: u128 },
    StoreInsert { row: PersonView },
    StoreSearch { query: Seq<char>, limit: u32 },
    StoreCount,
}

impl View for Request {
    type V = RequestView;

    open spec fn view(&self) -> RequestView {
        match self {
            Request::CacheLiveness => RequestView::CacheLiveness,
            Request::CacheGet { key } => RequestView::CacheGet { key: key@ },
            Request::StoreFind { id } => RequestView::StoreFind { id: *id },
            Request::StoreInsert { row } => RequestView::StoreInsert { row: row@ },
            Request::StoreSearch { query, limit } => RequestView::StoreSearch {
                query: query@,
                limit: *limit,
            },
            Request::StoreCount => RequestView::StoreCount,
        }
    }
}

/// The reply to a [`Request`], variant by variant.
#[derive(Debug)]
pub enum Event {
    /// The answer of the liveness check.
    CacheLiveness(DBError<bool>),
    /// What the lookup in the cache came back with.
    CacheGet(CacheProbe),
    /// The person found, nobody, or the failure of the record store.
    StoreFind(DBError<Option<Person>>),
    /// The person as stored, or the failure of the record store.
    StoreInsert(DBError<Person>),
    /// The people found, or the failure of the record store.
    StoreSearch(DBError<Vec<Person>>),
    /// The number of people, or the failure of the record store.
    StoreCount(DBError<i64>),
}

/// What an [`Event`] holds.
pub enum EventView {
    CacheLiveness(DBError<bool>),
    CacheGet(CacheProbeView),
    StoreFind(Result<Option<PersonView>, DatabaseError>),
    StoreInsert(Result<PersonView, DatabaseError>),
    StoreSearch(Result<Seq<PersonView>, DatabaseError>),
    StoreCount(DBError<i64>),
}

/// What the outcome of a lookup holds.
pub open spec fn lookup_view(outcome: DBError<Option<Person>>) -> Result<
    Option<PersonView>,
    DatabaseError,
> {
    match outcome {
        Ok(Some(person)) => Ok(Some(person@)),
        Ok(None) => Ok(None),
        Err(failure) => Err(failure),
    }
}

/// What the outcome of a sign-up holds.
pub open spec fn creation_view(outcome: DBError<Person>) -> Result<PersonView, DatabaseError> {
    match outcome {
        Ok(person) => Ok(person@),
        Err(failure) => Err(failure),
    }
}

/// What the outcome of a search holds.
pub open spec fn search_view(outcome: DBError<Vec<Person>>) -> Result<
    Seq<PersonView>,
    DatabaseError,
> {
    match outcome {
        Ok(people) => Ok(people_views(people@)),
        Err(failure) => Err(failure),
    }
}

/// What an optional write to the cache holds.
pub open spec fn populate_view(populate: Option<SetCommand>) -> Option<SetCommandView> {
    match populate {
        Some(command) => Some(command@),
        None => None,
    }
}

impl View for Event {
    type V = EventView;

    open spec fn view(&self) -> EventView {
        match self {
            Event::CacheLiveness(alive) => EventView::CacheLiveness(*alive),
            Event::CacheGet(probe) => EventView::CacheGet(probe@),
            Event::StoreFind(reply) => EventView::StoreFind(lookup_view(*reply)),
            Event::StoreInsert(reply) => EventView::StoreInsert(creation_view(*reply)),
            Event::StoreSearch(reply) => EventView::StoreSearch(search_view(*reply)),
            Event::StoreCount(reply) => EventView::StoreCount(*reply),
        }
    }
}

/// Whether the answer of the liveness check lets the cache be asked. A
/// failed check is no failure of the operation: the cache is passed over.
pub open spec fn cache_usable(alive: DBError<bool>) -> bool {
    alive == Ok::<bool, DatabaseError>(true)
}

/// A lookup by identifier, waiting for the reply to the request it sent.
#[derive(Debug, Clone, Copy, PartialEq, Eq, Structural)]
pub enum FindPerson {
    /// Waiting to hear whether the cache is connected.
    Liveness { id: u128 },
    /// Waiting for what the cache holds under the identifier's key.
    Cache { id: u128 },
    /// Waiting for the record store.
    Store { id: u128 },
}

/// Where a lookup stands after a step: with a request to send, or done.
#[derive(Debug)]
pub enum FindStep {
    /// `request` is to be sent, and its reply handed to `state`.
    Ask { state: FindPerson, request: Request },
    /// The lookup is over. `outcome` goes to the caller at once; `populate`,
    /// if any, is carried out apart from it.
    Done { outcome: DBError<Option<Person>>, populate: Option<SetCommand> },
}

/// What a [`FindStep`] holds. The request of `Ask` is left out: it is
/// [`FindPerson::request`] of the state.
pub enum FindStepView {
    Ask(FindPerson),
    Done { outcome: Result<Option<PersonView>, DatabaseError>, populate: Option<SetCommandView> },
}

impl View for FindStep {
    type V = FindStepView;

    open spec fn view(&self) -> FindStepView {
        match self {
            FindStep::Ask { state, request } => FindStepView::Ask(*state),
            FindStep::Done { outcome, populate } => FindStepView::Done {
                outcome: lookup_view(*outcome),
                populate: populate_view(*populate),
            },
        }
    }
}

impl FindStep {
    /// The request that is handed out is the one the state waits for.
    pub open spec fn consistent(self) -> bool {
        self matches FindStep::Ask { state, request } ==> request@ == state.request()
    }
}

impl FindPerson {
    /// The request whose reply this state waits for.
    pub open spec fn request(self) -> RequestView {
        match self {
            FindPerson::Liveness { id } => RequestView::CacheLiveness,
            FindPerson::Cache { id } => RequestView::CacheGet { key: id_key(id) },
            FindPerson::Store { id } => RequestView::StoreFind { id },
        }
    }

    /// How a lookup of `id` begins: by asking whether the cache is connected.
    pub open spec fn begin(id: u128) -> FindStepView {
        FindStepView::Ask(FindPerson::Liveness { id })
    }

    /// The step that `event` leads to.
    ///
    /// A cache that is not connected is passed over. A person found in the
    /// cache is the answer, and the record store is not asked. Anything else
    /// in the cache is a miss, and the record store is asked. What the record
    /// store says is the answer; a person it found is also written to the
    /// cache under the identifier's key. An event that is no reply to the
    /// pending request changes nothing.
    pub open spec fn next(self, event: EventView) -> FindStepView {
        match (self, event) {
            (FindPerson::Liveness { id }, EventView::CacheLiveness(alive)) => {
                if cache_usable(alive) {
                    FindStepView::Ask(FindPerson::Cache { id })
                } else {
                    FindStepView::Ask(FindPerson::Store { id })
                }
            },
            (FindPerson::Cache { id }, EventView::CacheGet(probe)) => {
                match probe.person() {
                    Some(person) => FindStepView::Done {
                        outcome: Ok(Some(person)),
                        populate: None,
                    },
                    None => FindStepView::Ask(FindPerson::Store { id }),
                }
            },
            (FindPerson::Store { id }, EventView::StoreFind(reply)) => {
                match reply {
                    Ok(Some(person)) => FindStepView::Done {
                        outcome: Ok(Some(person)),
                        populate: Some(SetCommandView::populate(id_key(id), person)),
                    },
                    Ok(None) => FindStepView::Done { outcome: Ok(None), populate: None },
                    Err(failure) => FindStepView::Done { outcome: Err(failure), populate: None },
                }
            },
            _ => FindStepView::Ask(self),
        }
    }

    /// The step that sends this state's request.
    fn ask(self) -> (r: FindStep)
        ensures
            r@ == FindStepView::Ask(self),
            r.consistent(),
    {
        let request = match self {
            FindPerson::Liveness { id } => Request::CacheLiveness,
            FindPerson::Cache { id } => Request::CacheGet { key: hyphenated(id) },
            FindPerson::Store { id } => Request::StoreFind { id },
        };
        FindStep::Ask { state: self, request }
    }

    /// Begins the lookup of the person with identifier `id`.
    pub fn start(id: u128) -> (r: FindStep)
        ensures
            r@ == FindPerson::begin(id),
            r.consistent(),
    {
        FindPerson::Liveness { id }.ask()
    }

    /// Takes the lookup one step on, with the reply to its pending request.
    pub fn resume(self, event: Event) -> (r: FindStep)
        ensures
            r@ == self.next(event@),
            r.consistent(),
    {
        match self {
            FindPerson::Liveness { id } => match event {
                Event::CacheLiveness(alive) => {
                    match alive {
                        Ok(true) => FindPerson::Cache { id }.ask(),
                        _ => FindPerson::Store { id }.ask(),
                    }
                },
                _ => self.ask(),
            },
            FindPerson::Cache { id } => match event {
                Event::CacheGet(probe) => {
                    match get_person(probe) {
                        Some(person) => FindStep::Done { outcome: Ok(Some(person)), populate: None },
                        None => FindPerson::Store { id }.ask(),
                    }
                },
                _ => self.ask(),
            },
            FindPerson::Store { id } => match event {
                Event::StoreFind(reply) => {
                    match reply {
                        Ok(Some(person)) => {
                            let copy = person.clone();
                            let populate = SetCommand::populate(hyphenated(id), copy);
                            FindStep::Done { outcome: Ok(Some(person)), populate: Some(populate) }
                        },
                        Ok(None) => FindStep::Done { outcome: Ok(None), populate: None },
                        Err(failure) => FindStep::Done { outcome: Err(failure), populate: None },
                    }
                },
                _ => self.ask(),
            },
        }
    }
}

/// Whether `id` is marked as a time-ordered identifier: the version field of
/// a UUID, bits 76 to 79, holds 7, and the variant field, bits 62 and 63,
/// holds binary 10.
pub open spec fn is_version_7(id: u128) -> bool {
    (id >> 76u128) & 0xf == 7 && (id >> 62u128) & 0x3 == 2
}

/// Draws a new identifier by `Uuid::now_v7` of the uuid crate, which builds
/// it from the clock and random bits and sets the version to 7 and the
/// variant to that of RFC 4122. Which identifier comes back differs from call
/// to call; only those two fields are claimed. The crate panics where the
/// clock stands before 1970 or the system gives no random bits.
#[verifier::external_body]
fn fresh_id() -> (id: u128)
    ensures
        is_version_7(id),
{
    uuid::Uuid::now_v7().as_u128()
}

/// The texts of the stack of a sign-up: those given, or none.
pub open spec fn stack_of(stack: Option<Seq<Seq<char>>>) -> Seq<Seq<char>> {
    match stack {
        Some(stack) => stack,
        None => Seq::empty(),
    }
}

/// The person that a sign-up becomes under the identifier `id`. The stack of
/// a sign-up that gave none is the empty list.
pub open spec fn row_of(new_person: NewPersonView, id: u128) -> PersonView {
    PersonView {
        id,
        name: new_person.name,
        nick: new_person.nick,
        birth_date: new_person.birth_date,
        stack: Some(stack_of(new_person.stack)),
    }
}

/// The texts of the stack of a sign-up, each copied out of its entry.
fn stack_texts(stack: &Option<Vec<Tech>>) -> (r: Vec<String>)
    ensures
        r.deep_view() == stack_of(
            match stack {
                Some(stack) => Some(tech_texts(stack@)),
                None => None,
            },
        ),
{
    let mut texts: Vec<String> = Vec::new();
    match stack {
        Some(stack) => {
            let mut i: usize = 0;
            while i < stack.len()
                invariant
                    i <= stack.len(),
                    texts.len() == i,
                    forall|j: int| 0 <= j < i ==> texts[j]@ == stack[j]@,
                decreases stack.len() - i,
            {
                texts.push(String::from(stack[i].clone()));
                i += 1;
            }
            assert(texts.deep_view() =~= tech_texts(stack@));
        },
        None => {
            assert(texts.deep_view() =~= Seq::<Seq<char>>::empty());
        },
    }
    texts
}

/// The person that `new_person` becomes under the identifier `id`.
fn new_row(new_person: &NewPerson, id: u128) -> (row: Person)
    ensures
        row@ == row_of(new_person@, id),
{
    Person {
        id,
        name: PersonName::get_name(new_person),
        nick: PersonNick::get_nick(new_person),
        birth_date: new_person.birth_date,
        stack: Some(stack_texts(&new_person.stack)),
    }
}

/// A sign-up, waiting for the reply to the request it sent.
#[derive(Debug)]
pub enum CreatePerson {
    /// Waiting to hear whether the cache is connected.
    Liveness { new_person: NewPerson },
    /// Waiting for what the cache holds under the handle.
    Cache { new_person: NewPerson },
    /// Waiting for the record store to take `row` in.
    Store { row: Person },
}

/// What a [`CreatePerson`] holds.
pub enum CreatePersonView {
    Liveness { new_person: NewPersonView },
    Cache { new_person: NewPersonView },
    Store { row: PersonView },
}

impl View for CreatePerson {
    type V = CreatePersonView;

    open spec fn view(&self) -> CreatePersonView {
        match self {
            CreatePerson::Liveness { new_person } => CreatePersonView::Liveness {
                new_person: new_person@,
            },
            CreatePerson::Cache { new_person } => CreatePersonView::Cache {
                new_person: new_person@,
            },
            CreatePerson::Store { row } => CreatePersonView::Store { row: row@ },
        }
    }
}

/// Where a sign-up stands after a step: with a request to send, or done.
#[derive(Debug)]
pub enum CreateStep {
    /// `request` is to be sent, and its reply handed to `state`.
    Ask { state: CreatePerson, request: Request },
    /// The sign-up is over. `outcome` goes to the caller at once; `populate`,
    /// if any, is carried out apart from it.
    Done { outcome: DBError<Person>, populate: Option<SetCommand> },
}

/// What a [`CreateStep`] holds. The request of `Ask` is left out: it is
/// [`CreatePersonView::request`] of the state.
pub enum CreateStepView {
    Ask(CreatePersonView),
    Done { outcome: Result<PersonView, DatabaseError>, populate: Option<SetCommandView> },
}

impl View for CreateStep {
    type V = CreateStepView;

    open spec fn view(&self) -> CreateStepView {
        match self {
            CreateStep::Ask { state, request } => CreateStepView::Ask(state@),
            CreateStep::Done { outcome, populate } => CreateStepView::Done {
                outcome: creation_view(*outcome),
                populate: populate_view(*populate),
            },
        }
    }
}

impl CreateStep {
    /// The request that is handed out is the one the state waits for.
    pub open spec fn consistent(self) -> bool {
        self matches CreateStep::Ask { state, request } ==> request@ == state@.request()
    }
}

impl CreateStepView {
    /// The identifier of the person that is about to be inserted, where the
    /// step asks for that, and zero elsewhere.
    pub open spec fn row_id(self) -> u128 {
        match self {
            CreateStepView::Ask(CreatePersonView::Store { row }) => row.id,
            _ => 0,
        }
    }
}

impl CreatePersonView {
    /// The request whose reply this state waits for.
    pub open spec fn request(self) -> RequestView {
        match self {
            CreatePersonView::Liveness { new_person } => RequestView::CacheLiveness,
            CreatePersonView::Cache { new_person } => RequestView::CacheGet {
                key: new_person.nick,
            },
            CreatePersonView::Store { row } => RequestView::StoreInsert { row },
        }
    }

    /// How the sign-up of `new_person` begins: by asking whether the cache is
    /// connected.
    pub open spec fn begin(new_person: NewPersonView) -> CreateStepView {
        CreateStepView::Ask(CreatePersonView::Liveness { new_person })
    }

    /// The step that `event` leads to, where `fresh` is the identifier drawn
    /// if the step is the one that turns to the record store.
    ///
    /// A cache that is not connected is passed over. A person found in the
    /// cache under the handle ends the sign-up early: the handle is taken.
    /// Anything else in the cache is a miss, and the record store is asked to
    /// take the person in under the identifier `fresh`. What the record store
    /// says is the answer, its refusal included; the person it took in is
    /// also written to the cache under the handle. An event that is no reply
    /// to the pending request changes nothing.
    pub open spec fn next(self, event: EventView, fresh: u128) -> CreateStepView {
        match (self, event) {
            (CreatePersonView::Liveness { new_person }, EventView::CacheLiveness(alive)) => {
                if cache_usable(alive) {
                    CreateStepView::Ask(CreatePersonView::Cache { new_person })
                } else {
                    CreateStepView::Ask(CreatePersonView::Store { row: row_of(new_person, fresh) })
                }
            },
            (CreatePersonView::Cache { new_person }, EventView::CacheGet(probe)) => {
                match probe.person() {
                    Some(_) => CreateStepView::Done {
                        outcome: Err(DatabaseError::UniqueViolation),
                        populate: None,
                    },
                    None => CreateStepView::Ask(
                        CreatePersonView::Store { row: row_of(new_person, fresh) },
                    ),
                }
            },
            (CreatePersonView::Store { row }, EventView::StoreInsert(reply)) => {
                match reply {
                    Ok(person) => CreateStepView::Done {
                        outcome: Ok(person),
                        populate: Some(SetCommandView::populate(row.nick, person)),
                    },
                    Err(failure) => CreateStepView::Done { outcome: Err(failure), populate: None },
                }
            },
            _ => CreateStepView::Ask(self),
        }
    }

    /// Whether `event` makes this state turn to the record store, and so
    /// draw an identifier.
    pub open spec fn draws_identifier(self, event: EventView) -> bool {
        match (self, event) {
            (CreatePersonView::Liveness { new_person }, EventView::CacheLiveness(alive)) => {
                !cache_usable(alive)
            },
            (CreatePersonView::Cache { new_person }, EventView::CacheGet(probe)) => {
                probe.person() is None
            },
            _ => false,
        }
    }
}

impl CreatePerson {
    /// The step that sends this state's request.
    fn ask(self) -> (r: CreateStep)
        ensures
            r@ == CreateStepView::Ask(self@),
            r.consistent(),
    {
        let request = match &self {
            CreatePerson::Liveness { new_person } => Request::CacheLiveness,
            CreatePerson::Cache { new_person } => Request::CacheGet {
                key: PersonNick::get_nick(new_person),
            },
            CreatePerson::Store { row } => Request::StoreInsert { row: row.clone() },
        };
        CreateStep::Ask { state: self, request }
    }

    /// The step that asks the record store to take `new_person` in, under an
    /// identifier drawn now.
    fn insert(new_person: NewPerson) -> (r: CreateStep)
        ensures
            r@ == CreateStepView::Ask(
                CreatePersonView::Store { row: row_of(new_person@, r@.row_id()) },
            ),
            is_version_7(r@.row_id()),
            r.consistent(),
    {
        let row = new_row(&new_person, fresh_id());
        CreatePerson::Store { row }.ask()
    }

    /// Begins the sign-up of `new_person`.
    pub fn start(new_person: NewPerson) -> (r: CreateStep)
        ensures
            r@ == CreatePersonView::begin(new_person@),
            r.consistent(),
    {
        CreatePerson::Liveness { new_person }.ask()
    }

    /// Takes the sign-up one step on, with the reply to its pending request.
    /// The identifier of a person that the step asks the record store to
    /// take in is drawn in this step, and is marked as time-ordered.
    pub fn resume(self, event: Event) -> (r: CreateStep)
        ensures
            r@ == self@.next(event@, r@.row_id()),
            self@.draws_identifier(event@) ==> is_version_7(r@.row_id()),
            r.consistent(),
    {
        match self {
            CreatePerson::Liveness { new_person } => match event {
                Event::CacheLiveness(alive) => {
                    match alive {
                        Ok(true) => CreatePerson::Cache { new_person }.ask(),
                        _ => CreatePerson::insert(new_person),
                    }
                },
                _ => CreatePerson::Liveness { new_person }.ask(),
            },
            CreatePerson::Cache { new_person } => match event {
                Event::CacheGet(probe) => {
                    match get_person(probe) {
                        Some(_) => CreateStep::Done {
                            outcome: Err(DatabaseError::UniqueViolation),
                            populate: None,
                        },
                        None => CreatePerson::insert(new_person),
                    }
                },
                _ => CreatePerson::Cache { new_person }.ask(),
            },
            CreatePerson::Store { row } => match event {
                Event::StoreInsert(reply) => {
                    match reply {
                        Ok(person) => {
                            let copy = person.clone();
                            let populate = SetCommand::populate(row.nick, copy);
                            CreateStep::Done { outcome: Ok(person), populate: Some(populate) }
                        },
                        Err(failure) => CreateStep::Done { outcome: Err(failure), populate: None },
                    }
                },
                _ => CreatePerson::Store { row }.ask(),
            },
        }
    }
}

/// The most people that a search asks for.
pub const SEARCH_LIMIT: u32 = 50;

/// A search, waiting for the reply to the request it sent.
#[derive(Debug)]
pub enum SearchPerson {
    /// Waiting for the record store.
    Store { query: String },
}

/// What a [`SearchPerson`] holds.
pub enum SearchPersonView {
    Store { query: Seq<char> },
}

impl View for SearchPerson {
    type V = SearchPersonView;

    open spec fn view(&self) -> SearchPersonView {
        match self {
            SearchPerson::Store { query } => SearchPersonView::Store { query: query@ },
        }
    }
}

/// Where a search stands after a step: with a request to send, or done.
#[derive(Debug)]
pub enum SearchStep {
    /// `request` is to be sent, and its reply handed to `state`.
    Ask { state: SearchPerson, request: Request },
    /// The search is over, and `outcome` goes to the caller.
    Done { outcome: DBError<Vec<Person>> },
}

/// What a [`SearchStep`] holds. The request of `Ask` is left out: it is
/// [`SearchPersonView::request`] of the state.
pub enum SearchStepView {
    Ask(SearchPersonView),
    Done { outcome: Result<Seq<PersonView>, DatabaseError> },
}

impl View for SearchStep {
    type V = SearchStepView;

    open spec fn view(&self) -> SearchStepView {
        match self {
            SearchStep::Ask { state, request } => SearchStepView::Ask(state@),
            SearchStep::Done { outcome } => SearchStepView::Done { outcome: search_view(*outcome) },
        }
    }
}

impl SearchStep {
    /// The request that is handed out is the one the state waits for.
    pub open spec fn consistent(self) -> bool {
        self matches SearchStep::Ask { state, request } ==> request@ == state@.request()
    }
}

impl SearchPersonView {
    /// The request whose reply this state waits for.
    pub open spec fn request(self) -> RequestView {
        match self {
            SearchPersonView::Store { query } => RequestView::StoreSearch {
                query,
                limit: SEARCH_LIMIT,
            },
        }
    }

    /// How the search for `query` begins: with the record store. The cache
    /// is never asked.
    pub open spec fn begin(query: Seq<char>) -> SearchStepView {
        SearchStepView::Ask(SearchPersonView::Store { query })
    }

    /// The step that `event` leads to: what the record store says is the
    /// answer, and an event that is no reply to the pending request changes
    /// nothing.
    pub open spec fn next(self, event: EventView) -> SearchStepView {
        match event {
            EventView::StoreSearch(reply) => SearchStepView::Done { outcome: reply },
            _ => SearchStepView::Ask(self),
        }
    }
}

impl SearchPerson {
    /// The step that sends this state's request.
    fn ask(self) -> (r: SearchStep)
        ensures
            r@ == SearchStepView::Ask(self@),
            r.consistent(),
    {
        let request = match &self {
            SearchPerson::Store { query } => Request::StoreSearch {
                query: query.clone(),
                limit: SEARCH_LIMIT,
            },
        };
        SearchStep::Ask { state: self, request }
    }

    /// Begins the search for the people that match `query`.
    pub fn start(query: String) -> (r: SearchStep)
        ensures
            r@ == SearchPersonView::begin(query@),
            r.consistent(),
    {
        SearchPerson::Store { query }.ask()
    }

    /// Takes the search one step on, with the reply to its pending request.
    pub fn resume(self, event: Event) -> (r: SearchStep)
        ensures
            r@ == self@.next(event@),
            r.consistent(),
    {
        match event {
            Event::StoreSearch(reply) => SearchStep::Done { outcome: reply },
            _ => self.ask(),
        }
    }
}

/// A count, waiting for the reply to the request it sent.
#[derive(Debug, Clone, Copy, PartialEq, Eq, Structural)]
pub enum CountPeople {
    /// Waiting for the record store.
    Store,
}

/// Where a count stands after a step: with a request to send, or done.
#[derive(Debug)]
pub enum CountStep {
    /// `request` is to be sent, and its reply handed to `state`.
    Ask { state: CountPeople, request: Request },
    /// The count is over, and `outcome` goes to the caller.
    Done { outcome: DBError<i64> },
}

/// What a [`CountStep`] holds. The request of `Ask` is left out: it is
/// [`CountPeople::request`] of the state.
pub enum CountStepView {
    Ask(CountPeople),
    Done { outcome: DBError<i64> },
}

impl View for CountStep {
    type V = CountStepView;

    open spec fn view(&self) -> CountStepView {
        match self {
            CountStep::Ask { state, request } => CountStepView::Ask(*state),
            CountStep::Done { outcome } => CountStepView::Done { outcome: *outcome },
        }
    }
}

impl CountStep {
    /// The request that is handed out is the one the state waits for.
    pub open spec fn consistent(self) -> bool {
        self matches CountStep::Ask { state, request } ==> request@ == state.request()
    }
}

impl CountPeople {
    /// The request whose reply this state waits for.
    pub open spec fn request(self) -> RequestView {
        RequestView::StoreCount
    }

    /// How a count begins: with the record store. The cache is never asked.
    pub open spec fn begin() -> CountStepView {
        CountStepView::Ask(CountPeople::Store)
    }

    /// The step that `event` leads to: what the record store says is the
    /// answer, and an event that is no reply to the pending request changes
    /// nothing.
    pub open spec fn next(self, event: EventView) -> CountStepView {
        match event {
            EventView::StoreCount(reply) => CountStepView::Done { outcome: reply },
            _ => CountStepView::Ask(self),
        }
    }

    /// Begins a count of the people in the record store.
    pub fn start() -> (r: CountStep)
        ensures
            r@ == CountPeople::begin(),
            r.consistent(),
    {
        CountStep::Ask { state: CountPeople::Store, request: Request::StoreCount }
    }

    /// Takes the count one step on, with the reply to its pending request.
    pub fn resume(self, event: Event) -> (r: CountStep)
        ensures
            r@ == self.next(event@),
            r.consistent(),
    {
        match event {
            Event::StoreCount(reply) => CountStep::Done { outcome: reply },
            _ => CountStep::Ask { state: self, request: Request::StoreCount },
        }
    }
}

} // verus!
