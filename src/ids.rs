//! Identifiers of actors and lite tasks, and their human-readable names.

use vstd::prelude::*;

verus! {

/// The lower-case hexadecimal digit of `d`, for `d < 16`.
pub open spec fn hex_char(d: u128) -> char {
    seq!['0', '1', '2', '3', '4', '5', '6', '7', '8', '9', 'a', 'b', 'c', 'd', 'e', 'f'][d as int]
}

/// The 32 lower-case hexadecimal digits of `v`, most significant first.
pub open spec fn hex_digits(v: u128) -> Seq<char> {
    Seq::new(32, |i: int| hex_char((v >> ((124 - 4 * i) as u128)) & 0xfu128))
}

/// The lower-case hyphenated text of a UUID (`xxxxxxxx-xxxx-xxxx-xxxx-xxxxxxxxxxxx`)
/// whose 128 bits are `v`.
pub open spec fn hyphenated_of(v: u128) -> Seq<char> {
    let d = hex_digits(v);
    d.subrange(0, 8) + seq!['-'] + d.subrange(8, 12) + seq!['-'] + d.subrange(12, 16) + seq!['-']
        + d.subrange(16, 20) + seq!['-'] + d.subrange(20, 32)
}

/// A version-4 UUID: version nibble 4 and variant bits `10`.
pub open spec fn is_v4(u: u128) -> bool {
    &&& (u >> 76u128) & 0xfu128 == 4
    &&& (u >> 62u128) & 0x3u128 == 2
}

/// Relies on `uuid::Uuid::new_v4`: a random UUID, whose version nibble is 4
/// and whose variant bits are `10`.
#[verifier::external_body]
fn random_uuid() -> (r: u128)
    ensures
        is_v4(r),
{
    uuid::Uuid::new_v4().as_u128()
}

/// Relies on `uuid::Uuid`'s `Display` on `Uuid::from_u128`: the lower-case
/// hyphenated form of the 128 bits, most significant digit first.
#[verifier::external_body]
fn uuid_text(v: u128) -> (r: String)
    ensures
        r@ == hyphenated_of(v),
{
    uuid::Uuid::from_u128(v).to_string()
}

/// The name of an actor of type `kind` tagged with the UUID `uuid`:
/// `Actor:<kind>(<uuid>)`.
pub open spec fn name_text(kind: Seq<char>, uuid: u128) -> Seq<char> {
    "Actor:"@ + kind + "("@ + hyphenated_of(uuid) + ")"@
}

/// Builds the name of an actor of type `kind` tagged with `uuid`.
pub fn actor_name(kind: &str, uuid: u128) -> (r: String)
    ensures
        r@ == name_text(kind@, uuid),
{
    let mut s = String::from_str("Actor:");
    s.append(kind);
    s.append("(");
    let tag = uuid_text(uuid);
    s.append(tag.as_str());
    s.append(")");
    s
}

/// Builds the default name of an actor of type `kind`, tagged with a
/// fresh random UUID.
pub fn default_actor_name(kind: &str) -> (r: String)
    ensures
        exists|u: u128| is_v4(u) && r@ == name_text(kind@, u),
{
    let u = random_uuid();
    actor_name(kind, u)
}

/// The identifier of an actor or a lite task: a random version-4 UUID as
/// its key, and the instance's name, which carries the same UUID.
pub struct Id {
    key: u128,
    name: String,
}

impl Id {
    pub closed spec fn key_spec(&self) -> u128 {
        self.key
    }

    pub closed spec fn name_spec(&self) -> Seq<char> {
        self.name@
    }

    /// A fresh identifier for an actor of type `kind`.
    pub fn of_actor(kind: &str) -> (r: Id)
        ensures
            is_v4(r.key_spec()),
            r.name_spec() == name_text(kind@, r.key_spec()),
    {
        let key = random_uuid();
        let name = actor_name(kind, key);
        Id { key, name }
    }

    /// The key.
    pub fn key(&self) -> (r: u128)
        ensures
            r == self.key_spec(),
    {
        self.key
    }

    /// The name.
    pub fn name(&self) -> (r: &str)
        ensures
            r@ == self.name_spec(),
    {
        self.name.as_str()
    }

    /// Two identifiers denote the same instance when their keys agree.
    pub fn same(&self, other: &Id) -> (r: bool)
        ensures
            r == (self.key_spec() == other.key_spec()),
    {
        self.key == other.key
    }
}

impl Clone for Id {
    fn clone(&self) -> (r: Id)
        ensures
            r.key_spec() == self.key_spec(),
            r.name_spec() == self.name_spec(),
    {
        Id { key: self.key, name: self.name.clone() }
    }
}

} // verus!
