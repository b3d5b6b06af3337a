use people_directory::controllers::{
    count_person, create_person, search_by_id, search_person, NewPerson, Person, PersonName,
    PersonNick, PersonSearchQuery, Reply, Tech, CREATED, INTERNAL_SERVER_ERROR, NAME_LIMIT,
    NICK_LIMIT, NOT_FOUND, OK, TECH_LIMIT, UNPROCESSABLE_ENTITY,
};
use people_directory::error_handler::DatabaseError;
use time::{Date, Month};

fn day(year: i32, month: Month, day: u8) -> Date {
    Date::from_calendar_date(year, month, day).unwrap()
}

fn ada() -> Person {
    Person {
        id: 0x0189_0000_0000_7000_8000_0000_0000_0001,
        name: "Ada".to_string(),
        nick: "ada".to_string(),
        birth_date: day(1815, Month::December, 10),
        stack: Some(vec!["Rust".to_string(), "Verus".to_string()]),
    }
}

fn sign_up(name: &str, nick: &str, stack: Option<Vec<&str>>) -> NewPerson {
    NewPerson {
        name: PersonName::try_from(name.to_string()).unwrap(),
        nick: PersonNick::try_from(nick.to_string()).unwrap(),
        birth_date: day(2000, Month::January, 1),
        stack: stack.map(|entries| {
            entries.into_iter().map(|entry| Tech::try_from(entry.to_string()).unwrap()).collect()
        }),
    }
}

#[test]
fn limits_are_those_of_the_data_model() {
    assert_eq!(NAME_LIMIT, 100);
    assert_eq!(NICK_LIMIT, 32);
    assert_eq!(TECH_LIMIT, 32);
}

#[test]
fn name_of_one_hundred_characters_is_accepted() {
    let text = "n".repeat(100);
    let person = sign_up(&text, "abc", None);
    assert_eq!(PersonName::get_name(&person), text);
}

#[test]
fn empty_name_is_accepted() {
    assert!(PersonName::try_from(String::new()).is_ok());
}

#[test]
fn name_of_one_hundred_and_one_characters_is_refused() {
    let refusal = PersonName::try_from("n".repeat(101));
    assert_eq!(refusal.err(), Some("Name is too Big!"));
}

#[test]
fn name_limit_counts_characters_not_bytes() {
    let text = "é".repeat(100);
    assert_eq!(text.len(), 200);
    assert!(PersonName::try_from(text).is_ok());
    assert_eq!(PersonName::try_from("é".repeat(101)).err(), Some("Name is too Big!"));
}

#[test]
fn nick_of_thirty_two_characters_is_accepted() {
    let text = "k".repeat(32);
    let person = sign_up("A", &text, None);
    assert_eq!(PersonNick::get_nick(&person), text);
}

#[test]
fn nick_of_thirty_three_characters_is_refused() {
    let refusal = PersonNick::try_from("k".repeat(33));
    assert_eq!(refusal.err(), Some("Nick is too big or Null"));
}

#[test]
fn nick_limit_counts_characters_not_bytes() {
    assert!(PersonNick::try_from("ã".repeat(32)).is_ok());
    assert!(PersonNick::try_from("ã".repeat(33)).is_err());
}

#[test]
fn tech_of_thirty_two_characters_is_accepted() {
    let text = "t".repeat(32);
    let tech = Tech::try_from(text.clone()).unwrap();
    assert_eq!(String::from(tech), text);
}

#[test]
fn tech_of_thirty_three_characters_is_refused() {
    let refusal = Tech::try_from("t".repeat(33));
    assert_eq!(refusal.err(), Some("Tech is too big"));
}

#[test]
fn tech_gives_its_text_back() {
    let tech = Tech::try_from("Postgres".to_string()).unwrap();
    let copy = tech.clone();
    assert_eq!(String::from(tech), "Postgres");
    assert_eq!(String::from(copy), "Postgres");
}

#[test]
fn name_and_nick_are_read_from_a_sign_up() {
    let person = sign_up("José da Silva", "zezinho", Some(vec!["C#", "Node"]));
    assert_eq!(PersonName::get_name(&person), "José da Silva");
    assert_eq!(PersonNick::get_nick(&person), "zezinho");
    assert_eq!(person.stack.as_ref().map(|stack| stack.len()), Some(2));
}

#[test]
fn copies_of_name_and_nick_hold_the_same_text() {
    let person = sign_up("Ana", "ana", None);
    let copy = NewPerson {
        name: person.name.clone(),
        nick: person.nick.clone(),
        birth_date: person.birth_date,
        stack: None,
    };
    assert_eq!(PersonName::get_name(&copy), "Ana");
    assert_eq!(PersonNick::get_nick(&copy), "ana");
}

#[test]
fn copy_of_a_person_is_equal_in_every_field() {
    let person = ada();
    let copy = person.clone();
    assert_eq!(copy, person);
    assert_eq!(copy.stack, Some(vec!["Rust".to_string(), "Verus".to_string()]));
    let bare = Person { stack: None, ..ada() };
    assert_eq!(bare.clone(), bare);
}

#[test]
fn search_query_holds_the_text() {
    let query = PersonSearchQuery { query: "zzz-no-match".to_string() };
    assert_eq!(query.query, "zzz-no-match");
}

#[test]
fn search_without_a_match_is_ok_and_empty() {
    let reply: Reply<Vec<Person>> = search_person(Ok(Vec::new()));
    assert_eq!(reply.status, 200);
    assert_eq!(reply.body, Some(Vec::new()));
}

#[test]
fn search_with_matches_is_ok_and_lists_them() {
    let reply = search_person(Ok(vec![ada()]));
    assert_eq!(reply.status, OK);
    assert_eq!(reply.body, Some(vec![ada()]));
}

#[test]
fn search_that_failed_is_a_server_error() {
    let reply = search_person(Err(DatabaseError::DatabaseError("down".to_string())));
    assert_eq!(reply.status, 500);
    assert_eq!(reply.body, None);
}

#[test]
fn lookup_that_found_somebody_is_ok() {
    let reply = search_by_id(Ok(Some(ada())));
    assert_eq!(reply.status, 200);
    assert_eq!(reply.body, Some(ada()));
}

#[test]
fn lookup_that_found_nobody_is_not_found() {
    let reply = search_by_id(Ok(None));
    assert_eq!(reply.status, 404);
    assert_eq!(reply.status, NOT_FOUND);
    assert_eq!(reply.body, None);
}

#[test]
fn lookup_that_failed_is_a_server_error() {
    let reply = search_by_id(Err(DatabaseError::RedisError("gone".to_string())));
    assert_eq!(reply.status, INTERNAL_SERVER_ERROR);
    assert_eq!(reply.body, None);
    let reply = search_by_id(Err(DatabaseError::UniqueViolation));
    assert_eq!(reply.status, 500);
}

#[test]
fn sign_up_that_succeeded_is_created() {
    let reply = create_person(Ok(ada()));
    assert_eq!(reply.status, 201);
    assert_eq!(reply.status, CREATED);
    assert_eq!(reply.body, Some(ada()));
}

#[test]
fn sign_up_under_a_taken_handle_is_unprocessable() {
    let reply = create_person(Err(DatabaseError::UniqueViolation));
    assert_eq!(reply.status, 422);
    assert_eq!(reply.status, UNPROCESSABLE_ENTITY);
    assert_eq!(reply.body, None);
}

#[test]
fn sign_up_that_failed_is_a_server_error() {
    let reply = create_person(Err(DatabaseError::DatabaseError("down".to_string())));
    assert_eq!(reply.status, 500);
    assert_eq!(reply.body, None);
    let reply = create_person(Err(DatabaseError::MigrateError("old".to_string())));
    assert_eq!(reply.status, 500);
}

#[test]
fn count_is_ok_with_the_number() {
    let reply = count_person(Ok(42));
    assert_eq!(reply.status, 200);
    assert_eq!(reply.body, Some(42));
    let reply = count_person(Ok(0));
    assert_eq!(reply.body, Some(0));
}

#[test]
fn count_that_failed_is_a_server_error() {
    let reply = count_person(Err(DatabaseError::DatabaseError("down".to_string())));
    assert_eq!(reply.status, 500);
    assert_eq!(reply.body, None);
}

#[test]
fn sign_up_of_valid_fields_is_accepted() {
    let stack = Some(vec!["Rust".to_string(), "t".repeat(32)]);
    let birth_date = day(1990, Month::June, 15);
    let person = NewPerson::new("Ana".to_string(), "ana".to_string(), birth_date, stack).unwrap();
    assert_eq!(PersonName::get_name(&person), "Ana");
    assert_eq!(PersonNick::get_nick(&person), "ana");
    assert_eq!(person.birth_date, birth_date);
    let texts: Vec<String> = person.stack.unwrap().into_iter().map(String::from).collect();
    assert_eq!(texts, vec!["Rust".to_string(), "t".repeat(32)]);
}

#[test]
fn sign_up_without_a_stack_is_accepted() {
    let birth_date = day(1990, Month::June, 15);
    let person = NewPerson::new("n".repeat(100), "k".repeat(32), birth_date, None).unwrap();
    assert!(person.stack.is_none());
    let person = NewPerson::new(String::new(), String::new(), birth_date, Some(Vec::new())).unwrap();
    assert_eq!(person.stack.map(|stack| stack.len()), Some(0));
}

#[test]
fn sign_up_is_refused_by_its_first_field_beyond_the_limit() {
    let birth_date = day(1990, Month::June, 15);
    let long = |length: usize| "x".repeat(length);
    let refusal = NewPerson::new(long(101), long(33), birth_date, Some(vec![long(33)]));
    assert_eq!(refusal.err(), Some("Name is too Big!"));
    let refusal = NewPerson::new(long(100), long(33), birth_date, Some(vec![long(33)]));
    assert_eq!(refusal.err(), Some("Nick is too big or Null"));
    let refusal = NewPerson::new(long(100), long(32), birth_date, Some(vec![long(3), long(33)]));
    assert_eq!(refusal.err(), Some("Tech is too big"));
    assert!(NewPerson::new(long(100), long(32), birth_date, Some(vec![long(32)])).is_ok());
}
