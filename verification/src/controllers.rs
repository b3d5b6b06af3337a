//! The people the directory holds, the validated fields of a sign-up, and the
//! reply that each route gives for the outcome of its operation.

use crate::error_handler::{DBError, DatabaseError};
use vstd::prelude::*;
use vstd::string::*;

verus! {

#[verifier::external_type_specification]
#[verifier::external_body]
pub struct ExDate(time::Date);

/// The longest display name, in characters.
pub const NAME_LIMIT: usize = 100;

/// The longest handle, in characters.
pub const NICK_LIMIT: usize = 32;

/// The longest entry of a technology stack, in characters.
pub const TECH_LIMIT: usize = 32;

/// A display name of at most [`NAME_LIMIT`] characters.
#[derive(Debug)]
pub struct PersonName(String);

impl View for PersonName {
    type V = Seq<char>;

    /// The text of the name. A value beyond the limit, which no program
    /// can make, reads as the empty text.
    closed spec fn view(&self) -> Seq<char> {
        if self.0@.len() <= NAME_LIMIT {
            self.0@
        } else {
            Seq::empty()
        }
    }
}

impl PersonName {
    #[verifier::type_invariant]
    spec fn within_limit(self) -> bool {
        self.0@.len() <= NAME_LIMIT
    }

    /// The name that holds exactly `value`.
    pub closed spec fn holding(value: String) -> PersonName {
        PersonName(value)
    }

    /// What [`PersonName::holding`] holds.
    pub proof fn lemma_holding(value: String)
        requires
            value@.len() <= NAME_LIMIT,
        ensures
            PersonName::holding(value)@ == value@,
    {
    }

    /// The text is within the limit.
    pub proof fn lemma_within_limit(self)
        ensures
            self@.len() <= NAME_LIMIT,
    {
    }

    /// The display name of a sign-up.
    pub fn get_name(new_person: &NewPerson) -> (r: String)
        ensures
            r@ == new_person.name@,
            r@.len() <= NAME_LIMIT,
    {
        proof {
            use_type_invariant(&new_person.name);
        }
        new_person.name.0.clone()
    }
}

impl Clone for PersonName {
    fn clone(&self) -> (r: Self)
        ensures
            r == *self,
    {
        proof {
            use_type_invariant(self);
        }
        PersonName(self.0.clone())
    }
}

impl vstd::std_specs::convert::TryFromSpecImpl<String> for PersonName {
    open spec fn obeys_try_from_spec() -> bool {
        true
    }

    open spec fn try_from_spec(value: String) -> Result<Self, &'static str> {
        if value@.len() <= NAME_LIMIT {
            Ok(PersonName::holding(value))
        } else {
            Err("Name is too Big!")
        }
    }
}

impl TryFrom<String> for PersonName {
    type Error = &'static str;

    /// Accepts a display name of at most [`NAME_LIMIT`] characters.
    fn try_from(value: String) -> (r: Result<Self, Self::Error>)
        ensures
            value@.len() <= NAME_LIMIT ==> r is Ok && r->Ok_0@ == value@,
            value@.len() > NAME_LIMIT ==> r is Err && r->Err_0@ == "Name is too Big!"@,
    {
        if value.as_str().unicode_len() <= NAME_LIMIT {
            Ok(Self(value))
        } else {
            Err("Name is too Big!")
        }
    }
}

/// A handle of at most [`NICK_LIMIT`] characters.
#[derive(Debug)]
pub struct PersonNick(String);

impl View for PersonNick {
    type V = Seq<char>;

    /// The text of the handle. A value beyond the limit, which no program
    /// can make, reads as the empty text.
    closed spec fn view(&self) -> Seq<char> {
        if self.0@.len() <= NICK_LIMIT {
            self.0@
        } else {
            Seq::empty()
        }
    }
}

impl PersonNick {
    #[verifier::type_invariant]
    spec fn within_limit(self) -> bool {
        self.0@.len() <= NICK_LIMIT
    }

    /// The handle that holds exactly `value`.
    pub closed spec fn holding(value: String) -> PersonNick {
        PersonNick(value)
    }

    /// What [`PersonNick::holding`] holds.
    pub proof fn lemma_holding(value: String)
        requires
            value@.len() <= NICK_LIMIT,
        ensures
            PersonNick::holding(value)@ == value@,
    {
    }

    /// The text is within the limit.
    pub proof fn lemma_within_limit(self)
        ensures
            self@.len() <= NICK_LIMIT,
    {
    }

    /// The handle of a sign-up.
    pub fn get_nick(new_person: &NewPerson) -> (r: String)
        ensures
            r@ == new_person.nick@,
            r@.len() <= NICK_LIMIT,
    {
        proof {
            use_type_invariant(&new_person.nick);
        }
        new_person.nick.0.clone()
    }
}

impl Clone for PersonNick {
    fn clone(&self) -> (r: Self)
        ensures
            r == *self,
    {
        proof {
            use_type_invariant(self);
        }
        PersonNick(self.0.clone())
    }
}

impl vstd::std_specs::convert::TryFromSpecImpl<String> for PersonNick {
    open spec fn obeys_try_from_spec() -> bool {
        true
    }

    open spec fn try_from_spec(value: String) -> Result<Self, &'static str> {
        if value@.len() <= NICK_LIMIT {
            Ok(PersonNick::holding(value))
        } else {
            Err("Nick is too big or Null")
        }
    }
}

impl TryFrom<String> for PersonNick {
    type Error = &'static str;

    /// Accepts a handle of at most [`NICK_LIMIT`] characters.
    fn try_from(value: String) -> (r: Result<Self, Self::Error>)
        ensures
            value@.len() <= NICK_LIMIT ==> r is Ok && r->Ok_0@ == value@,
            value@.len() > NICK_LIMIT ==> r is Err && r->Err_0@ == "Nick is too big or Null"@,
    {
        if value.as_str().unicode_len() <= NICK_LIMIT {
            Ok(Self(value))
        } else {
            Err("Nick is too big or Null")
        }
    }
}

/// One entry of a technology stack, of at most [`TECH_LIMIT`] characters.
#[derive(Debug)]
pub struct Tech(String);

impl View for Tech {
    type V = Seq<char>;

    /// The text of the entry. A value beyond the limit, which no program
    /// can make, reads as the empty text.
    closed spec fn view(&self) -> Seq<char> {
        if self.0@.len() <= TECH_LIMIT {
            self.0@
        } else {
            Seq::empty()
        }
    }
}

impl Tech {
    #[verifier::type_invariant]
    spec fn within_limit(self) -> bool {
        self.0@.len() <= TECH_LIMIT
    }

    /// The entry that holds exactly `value`.
    pub closed spec fn holding(value: String) -> Tech {
        Tech(value)
    }

    /// What [`Tech::holding`] holds.
    pub proof fn lemma_holding(value: String)
        requires
            value@.len() <= TECH_LIMIT,
        ensures
            Tech::holding(value)@ == value@,
    {
    }

    /// The text is within the limit.
    pub proof fn lemma_within_limit(self)
        ensures
            self@.len() <= TECH_LIMIT,
    {
    }

    /// The text of the entry.
    pub closed spec fn text(self) -> String {
        self.0
    }

    /// What [`Tech::text`] reads.
    pub proof fn lemma_text(self)
        ensures
            self.text()@.len() <= TECH_LIMIT ==> self.text()@ == self@,
    {
    }
}

impl Clone for Tech {
    fn clone(&self) -> (r: Self)
        ensures
            r == *self,
    {
        proof {
            use_type_invariant(self);
        }
        Tech(self.0.clone())
    }
}

impl vstd::std_specs::convert::TryFromSpecImpl<String> for Tech {
    open spec fn obeys_try_from_spec() -> bool {
        true
    }

    open spec fn try_from_spec(value: String) -> Result<Self, &'static str> {
        if value@.len() <= TECH_LIMIT {
            Ok(Tech::holding(value))
        } else {
            Err("Tech is too big")
        }
    }
}

impl TryFrom<String> for Tech {
    type Error = &'static str;

    /// Accepts an entry of at most [`TECH_LIMIT`] characters.
    fn try_from(value: String) -> (r: Result<Self, Self::Error>)
        ensures
            value@.len() <= TECH_LIMIT ==> r is Ok && r->Ok_0@ == value@,
            value@.len() > TECH_LIMIT ==> r is Err && r->Err_0@ == "Tech is too big"@,
    {
        if value.as_str().unicode_len() <= TECH_LIMIT {
            Ok(Self(value))
        } else {
            Err("Tech is too big")
        }
    }
}

impl vstd::std_specs::convert::FromSpecImpl<Tech> for String {
    open spec fn obeys_from_spec() -> bool {
        true
    }

    open spec fn from_spec(tech: Tech) -> String {
        tech.text()
    }
}

impl From<Tech> for String {
    /// The text of the entry, of at most [`TECH_LIMIT`] characters.
    fn from(tech: Tech) -> (r: String)
        ensures
            r@ == tech@,
            r@.len() <= TECH_LIMIT,
    {
        proof {
            use_type_invariant(&tech);
        }
        tech.0
    }
}

/// The texts of a technology stack, entry by entry.
pub open spec fn tech_texts(stack: Seq<Tech>) -> Seq<Seq<char>> {
    Seq::new(stack.len(), |i: int| stack[i]@)
}

/// A sign-up: the fields of a person, each already validated, without an
/// identifier.
#[derive(Debug)]
pub struct NewPerson {
    pub name: PersonName,
    pub nick: PersonNick,
    pub birth_date: time::Date,
    pub stack: Option<Vec<Tech>>,
}

/// What a [`NewPerson`] holds.
pub struct NewPersonView {
    pub name: Seq<char>,
    pub nick: Seq<char>,
    pub birth_date: time::Date,
    pub stack: Option<Seq<Seq<char>>>,
}

impl NewPersonView {
    /// Every field is within its limit.
    pub open spec fn valid(self) -> bool {
        &&& self.name.len() <= NAME_LIMIT
        &&& self.nick.len() <= NICK_LIMIT
        &&& self.stack matches Some(stack) ==> forall|i: int|
            0 <= i < stack.len() ==> (#[trigger] stack[i]).len() <= TECH_LIMIT
    }

    /// Why fields that are not valid are refused: by the first of the name,
    /// the handle and the stack that is beyond its limit.
    pub open spec fn refusal(self) -> Seq<char> {
        if self.name.len() > NAME_LIMIT {
            "Name is too Big!"@
        } else if self.nick.len() > NICK_LIMIT {
            "Nick is too big or Null"@
        } else {
            "Tech is too big"@
        }
    }
}

/// Validates the entries of a stack, in order.
fn validate_stack(texts: &Vec<String>) -> (r: Result<Vec<Tech>, &'static str>)
    ensures
        r matches Ok(stack) ==> tech_texts(stack@) == texts.deep_view() && forall|i: int|
            0 <= i < texts.len() ==> (#[trigger] texts[i])@.len() <= TECH_LIMIT,
        r matches Err(refusal) ==> refusal@ == "Tech is too big"@ && exists|i: int|
            0 <= i < texts.len() && (#[trigger] texts[i])@.len() > TECH_LIMIT,
{
    let mut stack: Vec<Tech> = Vec::new();
    let mut i: usize = 0;
    while i < texts.len()
        invariant
            i <= texts.len(),
            stack.len() == i,
            forall|j: int| 0 <= j < i ==> (#[trigger] stack[j])@ == texts[j]@,
            forall|j: int| 0 <= j < i ==> (#[trigger] texts[j])@.len() <= TECH_LIMIT,
        decreases texts.len() - i,
    {
        match Tech::try_from(texts[i].clone()) {
            Ok(tech) => stack.push(tech),
            Err(refusal) => {
                return Err(refusal);
            },
        }
        i += 1;
    }
    assert(tech_texts(stack@) =~= texts.deep_view());
    Ok(stack)
}

impl NewPerson {
    /// Makes a sign-up of fields as they arrive: accepted if every field is
    /// within its limit, and refused otherwise with the complaint about the
    /// first of the name, the handle and the stack that is not.
    pub fn new(
        name: String,
        nick: String,
        birth_date: time::Date,
        stack: Option<Vec<String>>,
    ) -> (r: Result<NewPerson, &'static str>)
        ensures
            ({
                let given = NewPersonView {
                    name: name@,
                    nick: nick@,
                    birth_date,
                    stack: stack.deep_view(),
                };
                &&& given.valid() ==> (r matches Ok(new_person) && new_person@ == given)
                &&& !given.valid() ==> (r matches Err(refusal) && refusal@ == given.refusal())
            }),
    {
        let ghost given = NewPersonView {
            name: name@,
            nick: nick@,
            birth_date,
            stack: stack.deep_view(),
        };
        let name = match PersonName::try_from(name) {
            Ok(name) => name,
            Err(refusal) => {
                return Err(refusal);
            },
        };
        let nick = match PersonNick::try_from(nick) {
            Ok(nick) => nick,
            Err(refusal) => {
                return Err(refusal);
            },
        };
        let stack = match stack {
            Some(texts) => {
                match validate_stack(&texts) {
                    Ok(stack) => Some(stack),
                    Err(refusal) => {
                        proof {
                            let i = choose|i: int|
                                0 <= i < texts.len() && (#[trigger] texts[i])@.len() > TECH_LIMIT;
                            let held = given.stack->0;
                            assert(0 <= i < held.len());
                            assert(held[i] == texts[i]@);
                        }
                        return Err(refusal);
                    },
                }
            },
            None => None,
        };
        Ok(NewPerson { name, nick, birth_date, stack })
    }

    /// Every sign-up is valid, by the way its fields are made.
    pub proof fn lemma_valid(self)
        ensures
            self@.valid(),
    {
        self.name.lemma_within_limit();
        self.nick.lemma_within_limit();
        if let Some(stack) = self.stack {
            assert forall|i: int| 0 <= i < stack@.len() implies (#[trigger] tech_texts(
                stack@,
            )[i]).len() <= TECH_LIMIT by {
                stack@[i].lemma_within_limit();
            }
        }
    }
}

impl View for NewPerson {
    type V = NewPersonView;

    open spec fn view(&self) -> NewPersonView {
        NewPersonView {
            name: self.name@,
            nick: self.nick@,
            birth_date: self.birth_date,
            stack: match self.stack {
                Some(stack) => Some(tech_texts(stack@)),
                None => None,
            },
        }
    }
}

/// A person as the record store holds it.
#[derive(Debug, PartialEq, Eq)]
pub struct Person {
    /// The identifier, as the 128 bits of a UUID, first byte highest.
    pub id: u128,
    pub name: String,
    pub nick: String,
    pub birth_date: time::Date,
    pub stack: Option<Vec<String>>,
}

/// What a [`Person`] holds.
pub struct PersonView {
    pub id: u128,
    pub name: Seq<char>,
    pub nick: Seq<char>,
    pub birth_date: time::Date,
    pub stack: Option<Seq<Seq<char>>>,
}

impl PersonView {
    /// Every field is within its limit.
    pub open spec fn valid(self) -> bool {
        &&& self.name.len() <= NAME_LIMIT
        &&& self.nick.len() <= NICK_LIMIT
        &&& self.stack matches Some(stack) ==> forall|i: int|
            0 <= i < stack.len() ==> (#[trigger] stack[i]).len() <= TECH_LIMIT
    }
}

impl View for Person {
    type V = PersonView;

    open spec fn view(&self) -> PersonView {
        PersonView {
            id: self.id,
            name: self.name@,
            nick: self.nick@,
            birth_date: self.birth_date,
            stack: self.stack.deep_view(),
        }
    }
}

/// The people of a list, one by one.
pub open spec fn people_views(people: Seq<Person>) -> Seq<PersonView> {
    Seq::new(people.len(), |i: int| people[i]@)
}

/// A copy of a list of texts.
pub(crate) fn clone_texts(texts: &Vec<String>) -> (r: Vec<String>)
    ensures
        r.deep_view() == texts.deep_view(),
{
    let mut copy: Vec<String> = Vec::new();
    let mut i: usize = 0;
    while i < texts.len()
        invariant
            i <= texts.len(),
            copy.len() == i,
            forall|j: int| 0 <= j < i ==> copy[j]@ == texts[j]@,
        decreases texts.len() - i,
    {
        copy.push(texts[i].clone());
        i += 1;
    }
    assert(copy.deep_view() =~= texts.deep_view());
    copy
}

impl Clone for Person {
    fn clone(&self) -> (r: Self)
        ensures
            r@ == self@,
    {
        Person {
            id: self.id,
            name: self.name.clone(),
            nick: self.nick.clone(),
            birth_date: self.birth_date,
            stack: match &self.stack {
                Some(stack) => Some(clone_texts(stack)),
                None => None,
            },
        }
    }
}

/// The free text of a search, as the query string of the request gives it.
#[derive(Debug)]
pub struct PersonSearchQuery {
    pub query: String,
}

/// The status of a reply that carries what was asked for.
pub const OK: u16 = 200;

/// The status of the reply to a sign-up that was accepted.
pub const CREATED: u16 = 201;

/// The status of the reply to a lookup that found nobody.
pub const NOT_FOUND: u16 = 404;

/// The status of the reply to a sign-up whose handle is taken.
pub const UNPROCESSABLE_ENTITY: u16 = 422;

/// The status of the reply to an operation that failed.
pub const INTERNAL_SERVER_ERROR: u16 = 500;

/// What a route answers: a status, and a body where the operation gave one.
#[derive(Debug)]
pub struct Reply<T> {
    pub status: u16,
    pub body: Option<T>,
}

/// The status for the outcome of a search or a count.
pub open spec fn listing_status<T>(outcome: Result<T, DatabaseError>) -> u16 {
    match outcome {
        Ok(_) => OK,
        Err(_) => INTERNAL_SERVER_ERROR,
    }
}

/// The status for the outcome of a lookup by identifier.
pub open spec fn lookup_status<T>(outcome: Result<Option<T>, DatabaseError>) -> u16 {
    match outcome {
        Ok(Some(_)) => OK,
        Ok(None) => NOT_FOUND,
        Err(_) => INTERNAL_SERVER_ERROR,
    }
}

/// The status for the outcome of a sign-up.
pub open spec fn creation_status<T>(outcome: Result<T, DatabaseError>) -> u16 {
    match outcome {
        Ok(_) => CREATED,
        Err(DatabaseError::UniqueViolation) => UNPROCESSABLE_ENTITY,
        Err(_) => INTERNAL_SERVER_ERROR,
    }
}

/// The reply to a search: the people found, who may be none, or a failure.
pub fn search_person(outcome: DBError<Vec<Person>>) -> (r: Reply<Vec<Person>>)
    ensures
        r.status == listing_status(outcome),
        r.body == outcome.ok(),
{
    match outcome {
        Ok(people) => Reply { status: OK, body: Some(people) },
        Err(_) => Reply { status: INTERNAL_SERVER_ERROR, body: None },
    }
}

/// The reply to a lookup by identifier: the person, nobody, or a failure.
pub fn search_by_id(outcome: DBError<Option<Person>>) -> (r: Reply<Person>)
    ensures
        r.status == lookup_status(outcome),
        r.body == match outcome {
            Ok(found) => found,
            Err(_) => None,
        },
{
    match outcome {
        Ok(Some(person)) => Reply { status: OK, body: Some(person) },
        Ok(None) => Reply { status: NOT_FOUND, body: None },
        Err(_) => Reply { status: INTERNAL_SERVER_ERROR, body: None },
    }
}

/// The reply to a sign-up: the person created, a refusal where the handle is
/// taken, or a failure.
pub fn create_person(outcome: DBError<Person>) -> (r: Reply<Person>)
    ensures
        r.status == creation_status(outcome),
        r.body == outcome.ok(),
{
    match outcome {
        Ok(person) => Reply { status: CREATED, body: Some(person) },
        Err(DatabaseError::UniqueViolation) => Reply { status: UNPROCESSABLE_ENTITY, body: None },
        Err(_) => Reply { status: INTERNAL_SERVER_ERROR, body: None },
    }
}

/// The reply to a count: the number of people, or a failure.
pub fn count_person(outcome: DBError<i64>) -> (r: Reply<i64>)
    ensures
        r.status == listing_status(outcome),
        r.body == outcome.ok(),
{
    match outcome {
        Ok(count) => Reply { status: OK, body: Some(count) },
        Err(_) => Reply { status: INTERNAL_SERVER_ERROR, body: None },
    }
}

} // verus!
