//! The cache in front of the record store: the keys that people are filed
//! under, what a lookup in it is worth, and the write that fills it.
//!
//! An entry is advisory. It may be missing, unreadable or out of reach at any
//! time, and none of that is a failure of the operation that asked.

use crate::controllers::{Person, PersonView};
use crate::error_handler::{DBError, DatabaseError};
use vstd::prelude::*;
use vstd::string::*;

verus! {

/// The length of the key that a person is filed under by identifier.
pub const ID_KEY_LENGTH: usize = 36;

/// The sixteen hexadecimal digits, in lower case.
pub open spec fn hex_digits() -> Seq<char> {
    seq!['0', '1', '2', '3', '4', '5', '6', '7', '8', '9', 'a', 'b', 'c', 'd', 'e', 'f']
}

/// Whether a hyphen stands at position `i` of an identifier's key.
pub open spec fn is_hyphen_position(i: int) -> bool {
    i == 8 || i == 13 || i == 18 || i == 23
}

/// Which of the 32 hexadecimal digits of an identifier, counted from the
/// highest, stands at position `i` of its key.
pub open spec fn digit_index(i: int) -> int {
    if i < 8 {
        i
    } else if i < 13 {
        i - 1
    } else if i < 18 {
        i - 2
    } else if i < 23 {
        i - 3
    } else {
        i - 4
    }
}

/// The hexadecimal digit `k` of `id`, counted from the highest, as a number.
pub open spec fn nibble(id: u128, k: int) -> u128 {
    (id >> ((4 * (31 - k)) as u128)) & 0xf
}

/// The key that the person with identifier `id` is filed under: the
/// identifier as 32 hexadecimal digits in lower case, in groups of 8, 4, 4, 4
/// and 12 with a hyphen between them.
pub open spec fn id_key(id: u128) -> Seq<char> {
    Seq::new(
        ID_KEY_LENGTH as nat,
        |i: int|
            if is_hyphen_position(i) {
                '-'
            } else {
                hex_digits()[nibble(id, digit_index(i)) as int]
            },
    )
}

/// Writes an identifier as its key, by `Uuid::from_u128` and the `Display`
/// of `Uuid` in the uuid crate, which is its hyphenated form in lower case:
/// 36 characters, the 32 hexadecimal digits of the identifier from the
/// highest down, with hyphens at positions 8, 13, 18 and 23.
#[verifier::external_body]
pub(crate) fn hyphenated(id: u128) -> (r: String)
    ensures
        r@ == id_key(id),
{
    uuid::Uuid::from_u128(id).to_string()
}

/// A hexadecimal digit of an identifier is below sixteen.
proof fn lemma_nibble_bound(id: u128, k: int)
    requires
        0 <= k < 32,
    ensures
        nibble(id, k) < 16,
{
    let shift = (4 * (31 - k)) as u128;
    assert((id >> shift) & 0xf < 16) by (bit_vector);
}

/// No two of the sixteen digits are the same character.
proof fn lemma_hex_digits_distinct(i: int, j: int)
    requires
        0 <= i < 16,
        0 <= j < 16,
        hex_digits()[i] == hex_digits()[j],
    ensures
        i == j,
{
}

/// Identifiers with one key have the same digit at each position of it.
proof fn lemma_same_digit(a: u128, b: u128, i: int)
    requires
        id_key(a) == id_key(b),
        0 <= i < ID_KEY_LENGTH,
        !is_hyphen_position(i),
    ensures
        nibble(a, digit_index(i)) == nibble(b, digit_index(i)),
{
    let k = digit_index(i);
    lemma_nibble_bound(a, k);
    lemma_nibble_bound(b, k);
    assert(id_key(a)[i] == hex_digits()[nibble(a, k) as int]);
    assert(id_key(b)[i] == hex_digits()[nibble(b, k) as int]);
    lemma_hex_digits_distinct(nibble(a, k) as int, nibble(b, k) as int);
}

/// Two identifiers with one key are one identifier.
pub proof fn lemma_id_key_injective(a: u128, b: u128)
    requires
        id_key(a) == id_key(b),
    ensures
        a == b,
{
    lemma_same_digit(a, b, 0);
    lemma_same_digit(a, b, 1);
    lemma_same_digit(a, b, 2);
    lemma_same_digit(a, b, 3);
    lemma_same_digit(a, b, 4);
    lemma_same_digit(a, b, 5);
    lemma_same_digit(a, b, 6);
    lemma_same_digit(a, b, 7);
    lemma_same_digit(a, b, 9);
    lemma_same_digit(a, b, 10);
    lemma_same_digit(a, b, 11);
    lemma_same_digit(a, b, 12);
    lemma_same_digit(a, b, 14);
    lemma_same_digit(a, b, 15);
    lemma_same_digit(a, b, 16);
    lemma_same_digit(a, b, 17);
    lemma_same_digit(a, b, 19);
    lemma_same_digit(a, b, 20);
    lemma_same_digit(a, b, 21);
    lemma_same_digit(a, b, 22);
    lemma_same_digit(a, b, 24);
    lemma_same_digit(a, b, 25);
    lemma_same_digit(a, b, 26);
    lemma_same_digit(a, b, 27);
    lemma_same_digit(a, b, 28);
    lemma_same_digit(a, b, 29);
    lemma_same_digit(a, b, 30);
    lemma_same_digit(a, b, 31);
    lemma_same_digit(a, b, 32);
    lemma_same_digit(a, b, 33);
    lemma_same_digit(a, b, 34);
    lemma_same_digit(a, b, 35);
    assert(a == b) by (bit_vector)
        requires
            (a >> 124u128) & 0xf == (b >> 124u128) & 0xf,
            (a >> 120u128) & 0xf == (b >> 120u128) & 0xf,
            (a >> 116u128) & 0xf == (b >> 116u128) & 0xf,
            (a >> 112u128) & 0xf == (b >> 112u128) & 0xf,
            (a >> 108u128) & 0xf == (b >> 108u128) & 0xf,
            (a >> 104u128) & 0xf == (b >> 104u128) & 0xf,
            (a >> 100u128) & 0xf == (b >> 100u128) & 0xf,
            (a >> 96u128) & 0xf == (b >> 96u128) & 0xf,
            (a >> 92u128) & 0xf == (b >> 92u128) & 0xf,
            (a >> 88u128) & 0xf == (b >> 88u128) & 0xf,
            (a >> 84u128) & 0xf == (b >> 84u128) & 0xf,
            (a >> 80u128) & 0xf == (b >> 80u128) & 0xf,
            (a >> 76u128) & 0xf == (b >> 76u128) & 0xf,
            (a >> 72u128) & 0xf == (b >> 72u128) & 0xf,
            (a >> 68u128) & 0xf == (b >> 68u128) & 0xf,
            (a >> 64u128) & 0xf == (b >> 64u128) & 0xf,
            (a >> 60u128) & 0xf == (b >> 60u128) & 0xf,
            (a >> 56u128) & 0xf == (b >> 56u128) & 0xf,
            (a >> 52u128) & 0xf == (b >> 52u128) & 0xf,
            (a >> 48u128) & 0xf == (b >> 48u128) & 0xf,
            (a >> 44u128) & 0xf == (b >> 44u128) & 0xf,
            (a >> 40u128) & 0xf == (b >> 40u128) & 0xf,
            (a >> 36u128) & 0xf == (b >> 36u128) & 0xf,
            (a >> 32u128) & 0xf == (b >> 32u128) & 0xf,
            (a >> 28u128) & 0xf == (b >> 28u128) & 0xf,
            (a >> 24u128) & 0xf == (b >> 24u128) & 0xf,
            (a >> 20u128) & 0xf == (b >> 20u128) & 0xf,
            (a >> 16u128) & 0xf == (b >> 16u128) & 0xf,
            (a >> 12u128) & 0xf == (b >> 12u128) & 0xf,
            (a >> 8u128) & 0xf == (b >> 8u128) & 0xf,
            (a >> 4u128) & 0xf == (b >> 4u128) & 0xf,
            (a >> 0u128) & 0xf == (b >> 0u128) & 0xf,
    ;
}

/// What a lookup in the cache came back with.
#[derive(Debug)]
pub enum CacheProbe {
    /// The cache could not be asked, or failed to answer.
    Unavailable,
    /// Nothing is filed under the key.
    Absent,
    /// Something is filed under the key that cannot be read as a person.
    Malformed,
    /// A person is filed under the key.
    Found(Person),
}

/// What a [`CacheProbe`] holds.
pub enum CacheProbeView {
    Unavailable,
    Absent,
    Malformed,
    Found(PersonView),
}

impl View for CacheProbe {
    type V = CacheProbeView;

    open spec fn view(&self) -> CacheProbeView {
        match self {
            CacheProbe::Unavailable => CacheProbeView::Unavailable,
            CacheProbe::Absent => CacheProbeView::Absent,
            CacheProbe::Malformed => CacheProbeView::Malformed,
            CacheProbe::Found(person) => CacheProbeView::Found(person@),
        }
    }
}

impl CacheProbeView {
    /// The person that the lookup is worth: the one found, and nobody in
    /// every other case.
    pub open spec fn person(self) -> Option<PersonView> {
        match self {
            CacheProbeView::Found(person) => Some(person),
            _ => None,
        }
    }
}

/// The person that a lookup in the cache gives. Only a readable entry is a
/// hit: an unreadable entry, like an unreachable cache, is a miss and never
/// an error.
pub fn get_person(probe: CacheProbe) -> (r: Option<Person>)
    ensures
        r.is_some() == (probe is Found),
        r matches Some(person) ==> probe == CacheProbe::Found(person),
        opt_person_view(r) == probe@.person(),
{
    match probe {
        CacheProbe::Found(person) => Some(person),
        _ => None,
    }
}

/// What an optional person holds.
pub open spec fn opt_person_view(person: Option<Person>) -> Option<PersonView> {
    match person {
        Some(person) => Some(person@),
        None => None,
    }
}

/// The text of the failure of a cache that is not connected.
pub open spec fn not_connected_text() -> Seq<char> {
    "Redis is not connected."@
}

/// The answer of the liveness check, given whether the pool of clients
/// reports a connection: `Ok(true)` with one, a cache failure without.
pub fn connected(is_connected: bool) -> (r: DBError<bool>)
    ensures
        is_connected ==> r == Ok::<bool, DatabaseError>(true),
        !is_connected ==> (r matches Err(DatabaseError::RedisError(text)) && text@
            == not_connected_text()),
{
    if !is_connected {
        Err(DatabaseError::RedisError(String::from_str("Redis is not connected.")))
    } else {
        Ok(true)
    }
}

/// When an entry that is written expires.
#[derive(Debug, Clone, Copy, PartialEq, Eq, Structural)]
pub enum Expiration {
    /// After this many seconds.
    EX(i64),
    /// After this many milliseconds.
    PX(i64),
    /// At this time, in seconds since the epoch.
    EXAT(i64),
    /// At this time, in milliseconds since the epoch.
    PXAT(i64),
    /// When the entry that it replaces would have expired.
    KEEPTTL,
}

/// On which condition an entry is written.
#[derive(Debug, Clone, Copy, PartialEq, Eq, Structural)]
pub enum SetOptions {
    /// Only if nothing is filed under the key.
    NX,
    /// Only if something is filed under the key.
    XX,
}

/// A write to the cache that an operation leaves behind. It is carried out
/// apart from the operation, which never waits for it nor learns how it went.
#[derive(Debug)]
pub struct SetCommand {
    pub key: String,
    pub person: Person,
    pub expiration: Option<Expiration>,
    pub set_opts: Option<SetOptions>,
    /// Whether the cache is asked for the entry that was there before.
    pub get: bool,
}

/// What a [`SetCommand`] holds.
pub struct SetCommandView {
    pub key: Seq<char>,
    pub person: PersonView,
    pub expiration: Option<Expiration>,
    pub set_opts: Option<SetOptions>,
    pub get: bool,
}

impl View for SetCommand {
    type V = SetCommandView;

    open spec fn view(&self) -> SetCommandView {
        SetCommandView {
            key: self.key@,
            person: self.person@,
            expiration: self.expiration,
            set_opts: self.set_opts,
            get: self.get,
        }
    }
}

impl SetCommandView {
    /// The write that files `person` under `key` after the record store gave
    /// it: only where nothing is filed there yet, so that it never replaces
    /// an entry, and without touching the time at which an entry expires.
    pub open spec fn populate(key: Seq<char>, person: PersonView) -> SetCommandView {
        SetCommandView {
            key,
            person,
            expiration: Some(Expiration::KEEPTTL),
            set_opts: Some(SetOptions::NX),
            get: true,
        }
    }
}

impl SetCommand {
    /// The write that files `person` under `key`, as
    /// [`SetCommandView::populate`] says.
    pub fn populate(key: String, person: Person) -> (r: SetCommand)
        ensures
            r@ == SetCommandView::populate(key@, person@),
    {
        SetCommand {
            key,
            person,
            expiration: Some(Expiration::KEEPTTL),
            set_opts: Some(SetOptions::NX),
            get: true,
        }
    }
}

} // verus!
