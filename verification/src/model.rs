//! A model of the world that the operations run in: the table of the record
//! store, the entries of the cache, and how the two answer a request.
//!
//! The model is what the laws of this library are stated against. Its record
//! store always answers, and enforces that no two people share an identifier
//! or a handle; which of the matching people it lists for a search is left
//! open. Its cache is free to be out of reach, to hold entries that cannot be
//! read, and to lose any entry at any time.

use crate::cache::{id_key, CacheProbeView, SetCommandView, SetOptions};
use crate::controllers::{NewPersonView, PersonView};
use crate::database::{
    CountPeople, CountStepView, CreatePersonView, CreateStepView, EventView, FindPerson,
    FindStepView, RequestView, SearchPersonView, SearchStepView,
};
use crate::error_handler::{DBError, DatabaseError};
use vstd::prelude::*;

verus! {

/// What the cache holds under one key.
pub enum Entry {
    /// A person.
    Person(PersonView),
    /// Something that cannot be read as a person.
    Unreadable,
}

/// The record store and the cache at one moment.
pub struct World {
    /// The people in the record store, in the order in which they came.
    pub rows: Seq<PersonView>,
    /// The entries of the cache, by key.
    pub cache: Map<Seq<char>, Entry>,
    /// Whether the record store takes a person for a match of a text.
    pub likeness: spec_fn(Seq<char>, PersonView) -> bool,
}

/// What is open when a request is answered, and which no operation controls.
pub struct Weather {
    /// The answer of the liveness check.
    pub alive: DBError<bool>,
    /// Whether a lookup in the cache gets through.
    pub reachable: bool,
    /// The people that the record store lists for a search. Which of the
    /// matching people it lists, and in which order, is its own choice.
    pub listed: Seq<PersonView>,
}

impl World {
    /// Whether the record store holds a person with this identifier.
    pub open spec fn holds_id(self, id: u128) -> bool {
        exists|i: int| 0 <= i < self.rows.len() && (#[trigger] self.rows[i]).id == id
    }

    /// Whether the record store holds a person with this handle.
    pub open spec fn holds_nick(self, nick: Seq<char>) -> bool {
        exists|i: int| 0 <= i < self.rows.len() && (#[trigger] self.rows[i]).nick == nick
    }

    /// The number of people in the record store.
    pub open spec fn count(self) -> int {
        self.rows.len() as int
    }

    /// The person that the record store holds under `id`, if any.
    pub open spec fn find(self, id: u128) -> Option<PersonView> {
        if self.holds_id(id) {
            let i = choose|i: int| 0 <= i < self.rows.len() && (#[trigger] self.rows[i]).id == id;
            Some(self.rows[i])
        } else {
            None
        }
    }

    /// Whether `people` is an answer that the record store may give to a
    /// search for `query`: `limit` people at most, each of them in the record
    /// store and a match of the text.
    pub open spec fn lists(self, query: Seq<char>, limit: u32, people: Seq<PersonView>) -> bool {
        &&& people.len() <= limit
        &&& forall|i: int|
            0 <= i < people.len() ==> self.rows.contains(#[trigger] people[i]) && (self.likeness)(
                query,
                people[i],
            )
    }

    /// The answer of the record store to a count.
    pub open spec fn counted(self) -> i64 {
        self.count() as i64
    }

    /// Whether the record store takes `row` in: it refuses a person whose
    /// identifier or handle it already holds.
    pub open spec fn admits(self, row: PersonView) -> bool {
        !self.holds_id(row.id) && !self.holds_nick(row.nick)
    }

    /// The world once the record store was asked to take `row` in.
    pub open spec fn insert(self, row: PersonView) -> World {
        if self.admits(row) {
            World { rows: self.rows.push(row), ..self }
        } else {
            self
        }
    }

    /// The answer of the record store to the request to take `row` in.
    pub open spec fn inserted(self, row: PersonView) -> Result<PersonView, DatabaseError> {
        if self.admits(row) {
            Ok(row)
        } else {
            Err(DatabaseError::UniqueViolation)
        }
    }

    /// What a lookup in the cache under `key` comes back with.
    pub open spec fn probe(self, key: Seq<char>, reachable: bool) -> CacheProbeView {
        if !reachable {
            CacheProbeView::Unavailable
        } else if !self.cache.contains_key(key) {
            CacheProbeView::Absent
        } else {
            match self.cache[key] {
                Entry::Person(person) => CacheProbeView::Found(person),
                Entry::Unreadable => CacheProbeView::Malformed,
            }
        }
    }

    /// Whether the cache carries out a write on this condition under `key`.
    pub open spec fn accepts(self, key: Seq<char>, condition: Option<SetOptions>) -> bool {
        match condition {
            Some(SetOptions::NX) => !self.cache.contains_key(key),
            Some(SetOptions::XX) => self.cache.contains_key(key),
            None => true,
        }
    }

    /// The world once `command` reached the cache.
    pub open spec fn write(self, command: SetCommandView) -> World {
        if self.accepts(command.key, command.set_opts) {
            World {
                cache: self.cache.insert(command.key, Entry::Person(command.person)),
                ..self
            }
        } else {
            self
        }
    }

    /// The world once the entry under `key` expired.
    pub open spec fn evict(self, key: Seq<char>) -> World {
        World { cache: self.cache.remove(key), ..self }
    }

    /// The world once the write that an operation left behind was carried
    /// out, or was lost.
    pub open spec fn settle(self, populate: Option<SetCommandView>, delivered: bool) -> World {
        match populate {
            Some(command) => if delivered {
                self.write(command)
            } else {
                self
            },
            None => self,
        }
    }

    /// The world after `request`.
    pub open spec fn after(self, request: RequestView) -> World {
        match request {
            RequestView::StoreInsert { row } => self.insert(row),
            _ => self,
        }
    }

    /// The reply to `request`.
    pub open spec fn answer(self, request: RequestView, weather: Weather) -> EventView {
        match request {
            RequestView::CacheLiveness => EventView::CacheLiveness(weather.alive),
            RequestView::CacheGet { key } => EventView::CacheGet(
                self.probe(key, weather.reachable),
            ),
            RequestView::StoreFind { id } => EventView::StoreFind(Ok(self.find(id))),
            RequestView::StoreInsert { row } => EventView::StoreInsert(self.inserted(row)),
            RequestView::StoreSearch { query, limit } => EventView::StoreSearch(
                Ok(weather.listed),
            ),
            RequestView::StoreCount => EventView::StoreCount(Ok(self.counted())),
        }
    }

    /// Every person in the record store is within the limits of its fields.
    pub open spec fn rows_valid(self) -> bool {
        forall|i: int| 0 <= i < self.rows.len() ==> (#[trigger] self.rows[i]).valid()
    }

    /// No two people in the record store share an identifier.
    pub open spec fn ids_unique(self) -> bool {
        forall|i: int, j: int|
            0 <= i < self.rows.len() && 0 <= j < self.rows.len() && (#[trigger] self.rows[i]).id
                == (#[trigger] self.rows[j]).id ==> i == j
    }

    /// No two people in the record store share a handle.
    pub open spec fn nicks_unique(self) -> bool {
        forall|i: int, j: int|
            0 <= i < self.rows.len() && 0 <= j < self.rows.len() && (#[trigger] self.rows[i]).nick
                == (#[trigger] self.rows[j]).nick ==> i == j
    }

    /// Every person in the cache is a person of the record store, filed
    /// under the handle or under the key of the identifier.
    pub open spec fn coherent(self) -> bool {
        forall|key: Seq<char>| #[trigger]
            self.cache.contains_key(key) ==> (self.cache[key] matches Entry::Person(person)
                ==> self.rows.contains(person) && (key == person.nick || key == id_key(
                person.id,
            )))
    }

    /// The state that the operations keep the world in: the record store
    /// obeys its constraints, and the cache says nothing that the record
    /// store does not.
    pub open spec fn sound(self) -> bool {
        &&& self.rows_valid()
        &&& self.ids_unique()
        &&& self.nicks_unique()
        &&& self.coherent()
    }

    /// One step of a lookup: its pending request is answered.
    pub open spec fn find_step(self, step: FindStepView, weather: Weather) -> FindStepView {
        match step {
            FindStepView::Ask(state) => state.next(self.answer(state.request(), weather)),
            FindStepView::Done { .. } => step,
        }
    }

    /// A whole lookup of `id`, from its first request to its end.
    pub open spec fn run_find(self, id: u128, weather: Weather) -> FindStepView {
        let first = self.find_step(FindPerson::begin(id), weather);
        let second = self.find_step(first, weather);
        self.find_step(second, weather)
    }

    /// A whole search for `query`, from its first request to its end.
    pub open spec fn run_search(self, query: Seq<char>, weather: Weather) -> SearchStepView {
        match SearchPersonView::begin(query) {
            SearchStepView::Ask(state) => state.next(self.answer(state.request(), weather)),
            done => done,
        }
    }

    /// A whole count, from its first request to its end.
    pub open spec fn run_count(self, weather: Weather) -> CountStepView {
        match CountPeople::begin() {
            CountStepView::Ask(state) => state.next(self.answer(state.request(), weather)),
            done => done,
        }
    }

    /// The world after one step of a sign-up.
    pub open spec fn create_world(self, step: CreateStepView) -> World {
        match step {
            CreateStepView::Ask(state) => self.after(state.request()),
            CreateStepView::Done { .. } => self,
        }
    }

    /// One step of a sign-up: its pending request is answered. `fresh` is the
    /// identifier that the sign-up draws when it turns to the record store.
    pub open spec fn create_step(
        self,
        step: CreateStepView,
        weather: Weather,
        fresh: u128,
    ) -> CreateStepView {
        match step {
            CreateStepView::Ask(state) => state.next(
                self.answer(state.request(), weather),
                fresh,
            ),
            CreateStepView::Done { .. } => step,
        }
    }

    /// The end of a whole sign-up of `new_person`.
    pub open spec fn run_create(
        self,
        new_person: NewPersonView,
        weather: Weather,
        fresh: u128,
    ) -> CreateStepView {
        let start = CreatePersonView::begin(new_person);
        let first = self.create_step(start, weather, fresh);
        let second = self.create_world(start).create_step(first, weather, fresh);
        self.create_world(start).create_world(first).create_step(second, weather, fresh)
    }

    /// The world at the end of a whole sign-up of `new_person`.
    pub open spec fn world_after_create(
        self,
        new_person: NewPersonView,
        weather: Weather,
        fresh: u128,
    ) -> World {
        let start = CreatePersonView::begin(new_person);
        let first = self.create_step(start, weather, fresh);
        let second = self.create_world(start).create_step(first, weather, fresh);
        self.create_world(start).create_world(first).create_world(second)
    }
}

impl CreateStepView {
    /// The write that a sign-up left behind, once it is over.
    pub open spec fn left_behind(self) -> Option<SetCommandView> {
        match self {
            CreateStepView::Done { outcome, populate } => populate,
            CreateStepView::Ask(_) => None,
        }
    }

    /// How many requests the sign-up may still send, at most.
    pub open spec fn requests_left(self) -> nat {
        match self {
            CreateStepView::Ask(CreatePersonView::Liveness { .. }) => 3,
            CreateStepView::Ask(CreatePersonView::Cache { .. }) => 2,
            CreateStepView::Ask(CreatePersonView::Store { .. }) => 1,
            CreateStepView::Done { .. } => 0,
        }
    }

    /// The sign-up is over and gave a person.
    pub open spec fn succeeded(self) -> bool {
        self matches CreateStepView::Done { outcome: Ok(_), .. }
    }

    /// The sign-up is over and was refused because the handle is taken.
    pub open spec fn refused(self) -> bool {
        self matches CreateStepView::Done { outcome: Err(DatabaseError::UniqueViolation), .. }
    }
}

/// Two sign-ups under way at once in one world.
pub struct Race {
    pub world: World,
    pub left: CreateStepView,
    pub right: CreateStepView,
}

/// What can happen next while two sign-ups are under way.
pub enum Move {
    /// The pending request of the left sign-up is answered.
    Left(Weather),
    /// The pending request of the right sign-up is answered.
    Right(Weather),
    /// The write that the left sign-up left behind reaches the cache.
    WriteLeft,
    /// The write that the right sign-up left behind reaches the cache.
    WriteRight,
    /// The entry under a key expires.
    Expire(Seq<char>),
}

impl Race {
    /// Two sign-ups, neither of which has sent a request yet.
    pub open spec fn start(world: World, left: NewPersonView, right: NewPersonView) -> Race {
        Race {
            world,
            left: CreatePersonView::begin(left),
            right: CreatePersonView::begin(right),
        }
    }

    /// The race after one move. `left_id` and `right_id` are the identifiers
    /// that the two sign-ups draw.
    pub open spec fn step(self, next: Move, left_id: u128, right_id: u128) -> Race {
        match next {
            Move::Left(weather) => Race {
                world: self.world.create_world(self.left),
                left: self.world.create_step(self.left, weather, left_id),
                right: self.right,
            },
            Move::Right(weather) => Race {
                world: self.world.create_world(self.right),
                left: self.left,
                right: self.world.create_step(self.right, weather, right_id),
            },
            Move::WriteLeft => Race {
                world: self.world.settle(self.left.left_behind(), true),
                left: self.left,
                right: self.right,
            },
            Move::WriteRight => Race {
                world: self.world.settle(self.right.left_behind(), true),
                left: self.left,
                right: self.right,
            },
            Move::Expire(key) => Race {
                world: self.world.evict(key),
                left: self.left,
                right: self.right,
            },
        }
    }

    /// The race after a sequence of moves, in any order and of any length.
    pub open spec fn run(self, moves: Seq<Move>, left_id: u128, right_id: u128) -> Race
        decreases moves.len(),
    {
        if moves.len() == 0 {
            self
        } else {
            self.run(moves.drop_last(), left_id, right_id).step(moves.last(), left_id, right_id)
        }
    }
}

/// How many of the moves are answers to the left sign-up, and how many to
/// the right one.
pub open spec fn turns(moves: Seq<Move>) -> (nat, nat)
    decreases moves.len(),
{
    if moves.len() == 0 {
        (0, 0)
    } else {
        let (left, right) = turns(moves.drop_last());
        match moves.last() {
            Move::Left(_) => (left + 1, right),
            Move::Right(_) => (left, right + 1),
            _ => (left, right),
        }
    }
}

} // verus!
