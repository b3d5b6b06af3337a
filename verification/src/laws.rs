//! What holds of the operations, whatever the cache does: each law is proved
//! of the state machines as they run against the model of the world.

use crate::cache::{
    id_key, lemma_id_key_injective, CacheProbeView, SetCommandView, ID_KEY_LENGTH,
};
use crate::controllers::{
    creation_status, listing_status, lookup_status, NewPersonView, PersonView, CREATED,
    NICK_LIMIT, NOT_FOUND, OK, UNPROCESSABLE_ENTITY,
};
use crate::database::{
    row_of, CountPeople, CountStepView, CreatePersonView, CreateStepView, EventView, FindPerson,
    FindStepView, RequestView, SearchPersonView, SearchStepView, SEARCH_LIMIT,
};
use crate::error_handler::DatabaseError;
use crate::model::{turns, Entry, Move, Race, Weather, World};
use vstd::prelude::*;

verus! {

/// The handle of a valid person is the key of no identifier: a handle is
/// shorter than such a key.
pub proof fn lemma_handle_is_no_id_key(nick: Seq<char>, id: u128)
    requires
        nick.len() <= NICK_LIMIT,
    ensures
        nick != id_key(id),
{
    assert(id_key(id).len() == ID_KEY_LENGTH);
}

/// In a sound world the record store finds each of its people under that
/// person's identifier.
pub proof fn lemma_store_finds_its_people(world: World, person: PersonView)
    requires
        world.ids_unique(),
        world.rows.contains(person),
    ensures
        world.find(person.id) == Some(person),
{
    let i = choose|i: int| 0 <= i < world.rows.len() && world.rows[i] == person;
    assert(world.rows[i].id == person.id);
    assert(world.holds_id(person.id));
}

/// In a sound world a person found in the cache under the key of an
/// identifier is the person that the record store holds under it.
pub proof fn lemma_cache_hit_by_id(world: World, id: u128, reachable: bool)
    requires
        world.sound(),
    ensures
        world.probe(id_key(id), reachable) matches CacheProbeView::Found(person) ==> world.find(id)
            == Some(person),
{
    if let CacheProbeView::Found(person) = world.probe(id_key(id), reachable) {
        let key = id_key(id);
        assert(world.cache.contains_key(key));
        assert(world.rows.contains(person));
        let i = choose|i: int| 0 <= i < world.rows.len() && world.rows[i] == person;
        assert(world.rows[i].valid());
        lemma_handle_is_no_id_key(person.nick, id);
        assert(key == id_key(person.id));
        lemma_id_key_injective(id, person.id);
        lemma_store_finds_its_people(world, person);
    }
}

/// In a sound world a person found in the cache under a handle holds that
/// handle in the record store.
pub proof fn lemma_cache_hit_by_nick(world: World, nick: Seq<char>, reachable: bool)
    requires
        world.sound(),
        nick.len() <= NICK_LIMIT,
    ensures
        world.probe(nick, reachable) is Found ==> world.holds_nick(nick),
{
    if let CacheProbeView::Found(person) = world.probe(nick, reachable) {
        assert(world.cache.contains_key(nick));
        assert(world.rows.contains(person));
        let i = choose|i: int| 0 <= i < world.rows.len() && world.rows[i] == person;
        lemma_handle_is_no_id_key(nick, person.id);
        assert(world.rows[i].nick == nick);
    }
}

/// A lookup ends after three requests at most, and its outcome is what the
/// record store holds under the identifier: the cache, whatever it does,
/// never changes the answer. The write it leaves behind, if any, files that
/// person under the key of the identifier.
pub proof fn law_lookup_answers_as_the_store(world: World, id: u128, weather: Weather)
    requires
        world.sound(),
    ensures
        world.run_find(id, weather) matches FindStepView::Done { outcome, populate }
            && outcome == Ok::<Option<PersonView>, DatabaseError>(world.find(id))
            && (populate matches Some(command) ==> world.find(id) == Some(command.person)
            && command == SetCommandView::populate(id_key(id), command.person)),
{
    lemma_cache_hit_by_id(world, id, weather.reachable);
}

/// The lookup of an identifier that the record store does not hold finds
/// nobody: it is no failure, it is answered with "not found", and it leaves
/// nothing to write to the cache.
pub proof fn law_lookup_of_unknown_identifier(world: World, id: u128, weather: Weather)
    requires
        world.sound(),
        !world.holds_id(id),
    ensures
        world.run_find(id, weather) == (FindStepView::Done { outcome: Ok(None), populate: None }),
        lookup_status(Ok::<Option<PersonView>, DatabaseError>(None)) == NOT_FOUND,
{
    law_lookup_answers_as_the_store(world, id, weather);
}

/// The lookup of a person that the record store holds finds that person,
/// equal in every field, and is answered with "ok".
pub proof fn law_lookup_of_stored_person(world: World, person: PersonView, weather: Weather)
    requires
        world.sound(),
        world.rows.contains(person),
    ensures
        world.run_find(person.id, weather) matches FindStepView::Done { outcome, populate }
            && outcome == Ok::<Option<PersonView>, DatabaseError>(Some(person)) && lookup_status(
            outcome,
        ) == OK,
{
    law_lookup_answers_as_the_store(world, person.id, weather);
    lemma_store_finds_its_people(world, person);
}

/// A write that files a person of the record store under the handle or the
/// key of the identifier keeps a sound world sound, whether the cache
/// carries it out or not.
pub proof fn lemma_write_keeps_sound(world: World, command: SetCommandView)
    requires
        world.sound(),
        world.rows.contains(command.person),
        command.key == command.person.nick || command.key == id_key(command.person.id),
    ensures
        world.write(command).sound(),
{
    let after = world.write(command);
    assert forall|key: Seq<char>| #[trigger] after.cache.contains_key(key) implies (
    after.cache[key] matches Entry::Person(person) ==> after.rows.contains(person) && (key
        == person.nick || key == id_key(person.id))) by {
        if key != command.key {
            assert(world.cache.contains_key(key));
        } else if world.cache.contains_key(key) {
        }
    }
}

/// An entry that expires leaves a sound world sound.
pub proof fn law_expiry_keeps_sound(world: World, key: Seq<char>)
    requires
        world.sound(),
    ensures
        world.evict(key).sound(),
        world.evict(key).rows == world.rows,
{
    let after = world.evict(key);
    assert forall|other: Seq<char>| #[trigger] after.cache.contains_key(other) implies (
    after.cache[other] matches Entry::Person(person) ==> after.rows.contains(person) && (other
        == person.nick || other == id_key(person.id))) by {
        assert(world.cache.contains_key(other));
    }
}

/// A lookup changes nothing in the record store, and leaves a sound world
/// sound, whether the write it left behind is carried out or lost.
pub proof fn law_lookup_keeps_sound(world: World, id: u128, weather: Weather, delivered: bool)
    requires
        world.sound(),
    ensures
        world.run_find(id, weather) matches FindStepView::Done { outcome, populate }
            && world.settle(populate, delivered).sound() && world.settle(populate, delivered).rows
            == world.rows,
{
    law_lookup_answers_as_the_store(world, id, weather);
    if let FindStepView::Done { outcome, populate } = world.run_find(id, weather) {
        if let Some(command) = populate {
            assert(world.holds_id(id));
            let i = choose|i: int| 0 <= i < world.rows.len() && (#[trigger] world.rows[i]).id == id;
            assert(world.rows[i] == command.person);
            lemma_write_keeps_sound(world, command);
        }
    }
}

/// The world in which the record store and the cache are both empty is
/// sound, however the record store judges a match.
pub proof fn law_empty_world_is_sound(likeness: spec_fn(Seq<char>, PersonView) -> bool)
    ensures
        (World { rows: Seq::empty(), cache: Map::empty(), likeness }).sound(),
{
}

/// The record store keeps a sound world sound when it is asked to take a
/// valid person in, and grows by that person exactly where it admits it.
pub proof fn lemma_insert_keeps_sound(world: World, row: PersonView)
    requires
        world.sound(),
        row.valid(),
    ensures
        world.insert(row).sound(),
        world.admits(row) ==> world.insert(row).rows == world.rows.push(row),
        !world.admits(row) ==> world.insert(row) == world,
{
    let after = world.insert(row);
    if world.admits(row) {
        assert forall|i: int, j: int|
            0 <= i < after.rows.len() && 0 <= j < after.rows.len() && (#[trigger] after.rows[i]).id
                == (#[trigger] after.rows[j]).id implies i == j by {
            if i < world.rows.len() {
                assert(after.rows[i] == world.rows[i]);
            }
            if j < world.rows.len() {
                assert(after.rows[j] == world.rows[j]);
            }
        }
        assert forall|i: int, j: int|
            0 <= i < after.rows.len() && 0 <= j < after.rows.len() && (
            #[trigger] after.rows[i]).nick == (#[trigger] after.rows[j]).nick implies i == j by {
            if i < world.rows.len() {
                assert(after.rows[i] == world.rows[i]);
            }
            if j < world.rows.len() {
                assert(after.rows[j] == world.rows[j]);
            }
        }
        assert forall|key: Seq<char>| #[trigger] after.cache.contains_key(key) implies (
        after.cache[key] matches Entry::Person(person) ==> after.rows.contains(person) && (key
            == person.nick || key == id_key(person.id))) by {
            if let Entry::Person(person) = after.cache[key] {
                assert(world.rows.contains(person));
                let i = choose|i: int| 0 <= i < world.rows.len() && world.rows[i] == person;
                assert(after.rows[i] == person);
            }
        }
    }
}

/// The sign-up of a valid person whose handle the record store does not
/// hold succeeds, whatever the cache does: the person is given the
/// identifier that was drawn, the record store grows by exactly that person,
/// and the write left behind files the person under the handle. It is
/// answered with "created".
///
/// The identifier drawn must be new to the record store, which refuses a
/// second person under one identifier as it refuses a second under one
/// handle.
pub proof fn law_sign_up_with_free_handle(
    world: World,
    new_person: NewPersonView,
    weather: Weather,
    fresh: u128,
)
    requires
        world.sound(),
        new_person.valid(),
        !world.holds_nick(new_person.nick),
        !world.holds_id(fresh),
    ensures
        world.run_create(new_person, weather, fresh) == (CreateStepView::Done {
            outcome: Ok(row_of(new_person, fresh)),
            populate: Some(SetCommandView::populate(new_person.nick, row_of(new_person, fresh))),
        }),
        world.world_after_create(new_person, weather, fresh).rows == world.rows.push(
            row_of(new_person, fresh),
        ),
        world.world_after_create(new_person, weather, fresh).count() == world.count() + 1,
        creation_status(Ok::<PersonView, DatabaseError>(row_of(new_person, fresh))) == CREATED,
{
    lemma_cache_hit_by_nick(world, new_person.nick, weather.reachable);
    lemma_insert_keeps_sound(world, row_of(new_person, fresh));
}

/// The sign-up of a person whose handle the record store holds is refused
/// with a uniqueness violation, whatever the cache does: a miss in the cache
/// never lets it through. The record store is left as it was, nothing is
/// written to the cache, and the answer is "unprocessable".
pub proof fn law_sign_up_with_taken_handle(
    world: World,
    new_person: NewPersonView,
    weather: Weather,
    fresh: u128,
)
    requires
        world.holds_nick(new_person.nick),
    ensures
        world.run_create(new_person, weather, fresh) == (CreateStepView::Done {
            outcome: Err(DatabaseError::UniqueViolation),
            populate: None,
        }),
        world.world_after_create(new_person, weather, fresh) == world,
        creation_status(Err::<PersonView, DatabaseError>(DatabaseError::UniqueViolation))
            == UNPROCESSABLE_ENTITY,
{
}

/// A sign-up succeeds exactly where the record store holds neither the
/// handle nor the identifier that was drawn, whatever the cache does. Where
/// it holds either, the sign-up is refused with a uniqueness violation and
/// the record store is left as it was.
pub proof fn law_sign_up_succeeds_where_admitted(
    world: World,
    new_person: NewPersonView,
    weather: Weather,
    fresh: u128,
)
    requires
        world.sound(),
        new_person.valid(),
    ensures
        world.run_create(new_person, weather, fresh).succeeded() <==> world.admits(
            row_of(new_person, fresh),
        ),
        !world.admits(row_of(new_person, fresh)) ==> world.run_create(new_person, weather, fresh)
            == (CreateStepView::Done {
            outcome: Err(DatabaseError::UniqueViolation),
            populate: None,
        }) && world.world_after_create(new_person, weather, fresh) == world,
{
    lemma_cache_hit_by_nick(world, new_person.nick, weather.reachable);
    lemma_insert_keeps_sound(world, row_of(new_person, fresh));
}

/// A sign-up leaves a sound world sound, whether the write it left behind
/// is carried out or lost, and never takes a person out of the record store
/// nor changes one: the people that were there are there, in their order.
pub proof fn law_sign_up_keeps_sound(
    world: World,
    new_person: NewPersonView,
    weather: Weather,
    fresh: u128,
    delivered: bool,
)
    requires
        world.sound(),
        new_person.valid(),
    ensures
        ({
            let after = world.world_after_create(new_person, weather, fresh);
            &&& world.run_create(new_person, weather, fresh) matches CreateStepView::Done {
                outcome,
                populate,
            }
            &&& after.settle(populate, delivered).sound()
            &&& after.settle(populate, delivered).rows == after.rows
            &&& world.rows.is_prefix_of(after.rows)
        }),
{
    let row = row_of(new_person, fresh);
    lemma_cache_hit_by_nick(world, new_person.nick, weather.reachable);
    lemma_insert_keeps_sound(world, row);
    let after = world.world_after_create(new_person, weather, fresh);
    if let CreateStepView::Done { outcome, populate } = world.run_create(
        new_person,
        weather,
        fresh,
    ) {
        if let Some(command) = populate {
            assert(world.admits(row));
            assert(after.rows == world.rows.push(row));
            assert(after.rows[world.rows.len() as int] == row);
            assert(after.sound());
            lemma_write_keeps_sound(after, command);
        }
    }
}

/// After the sign-up of a valid person with a free handle, the lookup of
/// the identifier it was given returns that person, equal in every field,
/// whether or not the cache was written in between, and whatever the cache
/// does during either operation.
pub proof fn law_sign_up_then_lookup(
    world: World,
    new_person: NewPersonView,
    fresh: u128,
    during_sign_up: Weather,
    delivered: bool,
    during_lookup: Weather,
)
    requires
        world.sound(),
        new_person.valid(),
        !world.holds_nick(new_person.nick),
        !world.holds_id(fresh),
    ensures
        ({
            let created = world.run_create(new_person, during_sign_up, fresh);
            let after = world.world_after_create(new_person, during_sign_up, fresh);
            &&& created matches CreateStepView::Done { outcome: Ok(person), populate }
            &&& after.settle(populate, delivered).run_find(
                person.id,
                during_lookup,
            ) matches FindStepView::Done { outcome: found, .. }
            &&& found == Ok::<Option<PersonView>, DatabaseError>(Some(person))
        }),
{
    law_sign_up_with_free_handle(world, new_person, during_sign_up, fresh);
    law_sign_up_keeps_sound(world, new_person, during_sign_up, fresh, delivered);
    let person = row_of(new_person, fresh);
    let after = world.world_after_create(new_person, during_sign_up, fresh);
    let populate = Some(SetCommandView::populate(new_person.nick, person));
    let settled = after.settle(populate, delivered);
    assert(after.rows[world.rows.len() as int] == person);
    assert(settled.rows == after.rows);
    assert(settled.rows.contains(person));
    law_lookup_of_stored_person(settled, person, during_lookup);
}

/// An entry of the cache that cannot be read counts as no entry: a lookup
/// and a sign-up go on from it exactly as from a miss.
pub proof fn law_unreadable_entry_is_a_miss(lookup: FindPerson, sign_up: CreatePersonView, fresh: u128)
    ensures
        CacheProbeView::Malformed.person() == CacheProbeView::Absent.person(),
        lookup.next(EventView::CacheGet(CacheProbeView::Malformed)) == lookup.next(
            EventView::CacheGet(CacheProbeView::Absent),
        ),
        sign_up.next(EventView::CacheGet(CacheProbeView::Malformed), fresh) == sign_up.next(
            EventView::CacheGet(CacheProbeView::Absent),
            fresh,
        ),
{
}

/// A cache that cannot be reached, or that is not connected, is no failure:
/// a lookup and a sign-up go on from it exactly as from a miss.
pub proof fn law_unreachable_cache_is_a_miss(
    lookup: FindPerson,
    sign_up: CreatePersonView,
    fresh: u128,
)
    ensures
        lookup.next(EventView::CacheGet(CacheProbeView::Unavailable)) == lookup.next(
            EventView::CacheGet(CacheProbeView::Absent),
        ),
        sign_up.next(EventView::CacheGet(CacheProbeView::Unavailable), fresh) == sign_up.next(
            EventView::CacheGet(CacheProbeView::Absent),
            fresh,
        ),
{
}

/// Where one of two racing sign-ups can stand: waiting with what it began
/// with, over with its own person in the record store and the write for it
/// left behind, or refused while the handle is taken.
spec fn on_track(step: CreateStepView, new_person: NewPersonView, id: u128, world: World) -> bool {
    match step {
        CreateStepView::Ask(CreatePersonView::Liveness { new_person: held }) => held == new_person,
        CreateStepView::Ask(CreatePersonView::Cache { new_person: held }) => held == new_person,
        CreateStepView::Ask(CreatePersonView::Store { row }) => row == row_of(new_person, id),
        CreateStepView::Done { outcome: Ok(person), populate } => {
            &&& person == row_of(new_person, id)
            &&& populate == Some(SetCommandView::populate(new_person.nick, person))
            &&& world.rows.contains(person)
        },
        CreateStepView::Done { outcome: Err(failure), populate } => {
            &&& failure == DatabaseError::UniqueViolation
            &&& populate is None
            &&& world.holds_nick(new_person.nick)
        },
    }
}

/// What holds throughout a race of two sign-ups under one handle that was
/// free at the start: at most one of them has succeeded, and the record
/// store has grown by the person of the one that has, and by nothing else.
spec fn race_holds(
    race: Race,
    start: World,
    left: NewPersonView,
    right: NewPersonView,
    left_id: u128,
    right_id: u128,
) -> bool {
    &&& race.world.sound()
    &&& on_track(race.left, left, left_id, race.world)
    &&& on_track(race.right, right, right_id, race.world)
    &&& !(race.left.succeeded() && race.right.succeeded())
    &&& race.world.rows == if race.left.succeeded() {
        start.rows.push(row_of(left, left_id))
    } else if race.right.succeeded() {
        start.rows.push(row_of(right, right_id))
    } else {
        start.rows
    }
}

/// One request of a racing sign-up keeps what holds throughout the race.
/// `mine` is the sign-up that moves, `other` the one that does not.
proof fn lemma_racing_request(
    world: World,
    start: World,
    mine: CreateStepView,
    other: CreateStepView,
    me: NewPersonView,
    them: NewPersonView,
    my_id: u128,
    their_id: u128,
    weather: Weather,
)
    requires
        start.sound(),
        me.valid(),
        them.valid(),
        me.nick == them.nick,
        !start.holds_nick(me.nick),
        !start.holds_id(my_id),
        !start.holds_id(their_id),
        world.sound(),
        on_track(mine, me, my_id, world),
        on_track(other, them, their_id, world),
        !(mine.succeeded() && other.succeeded()),
        world.rows == if mine.succeeded() {
            start.rows.push(row_of(me, my_id))
        } else if other.succeeded() {
            start.rows.push(row_of(them, their_id))
        } else {
            start.rows
        },
    ensures
        ({
            let after = world.create_world(mine);
            let moved = world.create_step(mine, weather, my_id);
            &&& after.sound()
            &&& on_track(moved, me, my_id, after)
            &&& on_track(other, them, their_id, after)
            &&& !(moved.succeeded() && other.succeeded())
            &&& after.rows == if moved.succeeded() {
                start.rows.push(row_of(me, my_id))
            } else if other.succeeded() {
                start.rows.push(row_of(them, their_id))
            } else {
                start.rows
            }
        }),
{
    let row = row_of(me, my_id);
    let after = world.create_world(mine);
    lemma_cache_hit_by_nick(world, me.nick, weather.reachable);
    lemma_insert_keeps_sound(world, row);
    if other.succeeded() {
        let theirs = row_of(them, their_id);
        assert(world.rows[start.rows.len() as int] == theirs);
        assert(world.holds_nick(me.nick));
    }
    match mine {
        CreateStepView::Ask(CreatePersonView::Store { row: held }) => {
            if world.admits(row) {
                assert(after.rows[world.rows.len() as int] == row);
                assert(world.rows == start.rows);
            } else {
                assert(world.rows != start.rows);
            }
        },
        _ => {},
    }
}

/// A write left behind by a racing sign-up keeps what holds throughout the
/// race.
proof fn lemma_racing_write(world: World, step: CreateStepView, new_person: NewPersonView, id: u128)
    requires
        world.sound(),
        on_track(step, new_person, id, world),
    ensures
        world.settle(step.left_behind(), true).sound(),
        world.settle(step.left_behind(), true).rows == world.rows,
{
    if let Some(command) = step.left_behind() {
        lemma_write_keeps_sound(world, command);
    }
}

/// What holds throughout a race holds after every sequence of moves.
proof fn lemma_race_holds(
    start: World,
    left: NewPersonView,
    right: NewPersonView,
    left_id: u128,
    right_id: u128,
    moves: Seq<Move>,
)
    requires
        start.sound(),
        left.valid(),
        right.valid(),
        left.nick == right.nick,
        !start.holds_nick(left.nick),
        !start.holds_id(left_id),
        !start.holds_id(right_id),
    ensures
        race_holds(
            Race::start(start, left, right).run(moves, left_id, right_id),
            start,
            left,
            right,
            left_id,
            right_id,
        ),
    decreases moves.len(),
{
    if moves.len() > 0 {
        lemma_race_holds(start, left, right, left_id, right_id, moves.drop_last());
        let before = Race::start(start, left, right).run(moves.drop_last(), left_id, right_id);
        let after = before.step(moves.last(), left_id, right_id);
        match moves.last() {
            Move::Left(weather) => {
                lemma_racing_request(
                    before.world,
                    start,
                    before.left,
                    before.right,
                    left,
                    right,
                    left_id,
                    right_id,
                    weather,
                );
            },
            Move::Right(weather) => {
                lemma_racing_request(
                    before.world,
                    start,
                    before.right,
                    before.left,
                    right,
                    left,
                    right_id,
                    left_id,
                    weather,
                );
            },
            Move::WriteLeft => {
                lemma_racing_write(before.world, before.left, left, left_id);
            },
            Move::WriteRight => {
                lemma_racing_write(before.world, before.right, right, right_id);
            },
            Move::Expire(key) => {
                law_expiry_keeps_sound(before.world, key);
            },
        }
        assert(race_holds(after, start, left, right, left_id, right_id));
    }
}

/// Two sign-ups under one handle that the record store does not hold yet,
/// run at once: however their requests, the writes they leave behind and
/// the expiry of entries fall in time, and whatever the cache does, the
/// record store never grows by more than one person, and once both are over
/// exactly one of them has succeeded, the other was refused with a
/// uniqueness violation, and the record store has grown by exactly one.
///
/// At every moment the record store holds the people it began with and,
/// behind them, the person of the sign-up that has succeeded, if one has:
/// the person that this sign-up returned, made of its own fields and the
/// identifier it drew.
///
/// Each identifier drawn must be new to the record store, which refuses a
/// second person under one identifier.
pub proof fn law_racing_sign_ups(
    start: World,
    left: NewPersonView,
    right: NewPersonView,
    left_id: u128,
    right_id: u128,
    moves: Seq<Move>,
)
    requires
        start.sound(),
        left.valid(),
        right.valid(),
        left.nick == right.nick,
        !start.holds_nick(left.nick),
        !start.holds_id(left_id),
        !start.holds_id(right_id),
    ensures
        ({
            let end = Race::start(start, left, right).run(moves, left_id, right_id);
            &&& end.world.sound()
            &&& start.count() <= end.world.count() <= start.count() + 1
            &&& end.left is Done && end.right is Done ==> {
                &&& end.world.count() == start.count() + 1
                &&& (end.left.succeeded() && end.right.refused()) || (end.left.refused()
                    && end.right.succeeded())
            }
            &&& !(end.left.succeeded() && end.right.succeeded())
            &&& end.left matches CreateStepView::Done { outcome: Ok(person), .. } ==> person
                == row_of(left, left_id) && end.world.rows == start.rows.push(person)
            &&& end.right matches CreateStepView::Done { outcome: Ok(person), .. } ==> person
                == row_of(right, right_id) && end.world.rows == start.rows.push(person)
            &&& !end.left.succeeded() && !end.right.succeeded() ==> end.world.rows == start.rows
        }),
{
    lemma_race_holds(start, left, right, left_id, right_id, moves);
}

/// A count before two racing sign-ups under one free handle and a count
/// after both are over differ by exactly one.
pub proof fn law_racing_sign_ups_count_once(
    start: World,
    left: NewPersonView,
    right: NewPersonView,
    left_id: u128,
    right_id: u128,
    moves: Seq<Move>,
    before: Weather,
    after: Weather,
)
    requires
        start.sound(),
        left.valid(),
        right.valid(),
        left.nick == right.nick,
        !start.holds_nick(left.nick),
        !start.holds_id(left_id),
        !start.holds_id(right_id),
        start.count() < i64::MAX,
    ensures
        ({
            let end = Race::start(start, left, right).run(moves, left_id, right_id);
            &&& start.run_count(before) matches CountStepView::Done { outcome: Ok(earlier) }
            &&& end.world.run_count(after) matches CountStepView::Done { outcome: Ok(later) }
            &&& end.left is Done && end.right is Done ==> later == earlier + 1
        }),
{
    law_racing_sign_ups(start, left, right, left_id, right_id, moves);
}

/// A racing sign-up is over once three of its requests were answered,
/// whatever else happened in between: every answer takes it on.
pub proof fn law_racing_sign_ups_end(
    start: World,
    left: NewPersonView,
    right: NewPersonView,
    left_id: u128,
    right_id: u128,
    moves: Seq<Move>,
)
    ensures
        ({
            let end = Race::start(start, left, right).run(moves, left_id, right_id);
            &&& end.left.requests_left() + turns(moves).0 <= 3 || end.left is Done
            &&& end.right.requests_left() + turns(moves).1 <= 3 || end.right is Done
            &&& turns(moves).0 >= 3 ==> end.left is Done
            &&& turns(moves).1 >= 3 ==> end.right is Done
        }),
    decreases moves.len(),
{
    if moves.len() > 0 {
        law_racing_sign_ups_end(start, left, right, left_id, right_id, moves.drop_last());
    }
}

/// A search is one request to the record store and none to the cache. Its
/// outcome is whatever the record store lists, and never a failure of its
/// own. Of any answer that holds only people of the record store that match
/// the text, fifty at most: the search returns it, it is answered with "ok",
/// and it is the empty list where nobody in the record store matches.
pub proof fn law_search_lists_matches(world: World, query: Seq<char>, weather: Weather)
    requires
        world.lists(query, SEARCH_LIMIT, weather.listed),
    ensures
        SearchPersonView::begin(query) matches SearchStepView::Ask(state) && state.request()
            == (RequestView::StoreSearch { query, limit: SEARCH_LIMIT }),
        world.run_search(query, weather) == (SearchStepView::Done { outcome: Ok(weather.listed) }),
        weather.listed.len() <= 50,
        (forall|i: int|
            0 <= i < world.rows.len() ==> !(world.likeness)(query, #[trigger] world.rows[i]))
            ==> weather.listed == Seq::<PersonView>::empty(),
        listing_status(Ok::<Seq<PersonView>, DatabaseError>(weather.listed)) == OK,
{
    if forall|i: int|
        0 <= i < world.rows.len() ==> !(world.likeness)(query, #[trigger] world.rows[i]) {
        if weather.listed.len() > 0 {
            let person = weather.listed[0];
            assert(world.rows.contains(person));
            let i = choose|i: int| 0 <= i < world.rows.len() && world.rows[i] == person;
            assert(!(world.likeness)(query, world.rows[i]));
        }
        assert(weather.listed =~= Seq::<PersonView>::empty());
    }
}

/// A count is one request to the record store and none to the cache, and
/// is answered with "ok" and the number of people that the record store
/// holds.
pub proof fn law_count_counts_the_store(world: World, weather: Weather)
    requires
        world.count() <= i64::MAX,
    ensures
        CountPeople::begin() matches CountStepView::Ask(state) && state.request() is StoreCount,
        world.run_count(weather) == (CountStepView::Done { outcome: Ok(world.count() as i64) }),
        listing_status(Ok::<i64, DatabaseError>(world.count() as i64)) == OK,
{
}

/// A sign-up that succeeds raises the count by exactly one, and one that is
/// refused leaves it as it was.
pub proof fn law_sign_up_counts_once(
    world: World,
    new_person: NewPersonView,
    weather: Weather,
    fresh: u128,
)
    requires
        world.sound(),
        new_person.valid(),
        world.count() < i64::MAX,
    ensures
        ({
            let after = world.world_after_create(new_person, weather, fresh);
            let before = world.run_count(weather)->Done_outcome->Ok_0;
            let then = after.run_count(weather)->Done_outcome->Ok_0;
            &&& world.run_create(new_person, weather, fresh).succeeded() ==> then == before + 1
            &&& !world.run_create(new_person, weather, fresh).succeeded() ==> then == before
        }),
{
    lemma_cache_hit_by_nick(world, new_person.nick, weather.reachable);
    lemma_insert_keeps_sound(world, row_of(new_person, fresh));
}

} // verus!
