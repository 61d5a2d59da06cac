//! The user model: an immutable identity value with a staff capability flag.

use std::collections::hash_map::DefaultHasher;
use std::hash::Hasher;
use vstd::prelude::*;
use vstd::std_specs::hash::DefaultHasherAdditionalSpecFns;
use vstd::string::StringExecFns;
use vstd::string::StringSliceAdditionalSpecFns;

verus! {

/// A chat user. Two values denote the same user exactly when their
/// identifiers (`uuid`) are equal; the remaining fields are display data
/// and the staff capability flag. Immutable once constructed.
pub struct User {
    pub uuid: u64,
    pub name: String,
    pub discriminator: String,
    pub is_staff: bool,
}

/// The mention form of a user name: `<@name>`.
pub open spec fn mention_seq(name: Seq<char>) -> Seq<char> {
    "<@"@ + name + ">"@
}

/// The tag form of a user: `name#discriminator`.
pub open spec fn tag_seq(name: Seq<char>, discriminator: Seq<char>) -> Seq<char> {
    name + "#"@ + discriminator
}

/// The identifier derived from a display name: the standard hasher run over
/// the name's bytes, written in one block. Deriving identity from the name
/// alone is a known limitation: two users with the same name collide.
pub open spec fn spec_user_id(name_bytes: Seq<u8>) -> u64 {
    DefaultHasher::spec_finish(seq![name_bytes])
}

impl User {
    /// The string that mentions this user in a message.
    pub fn get_mention(&self) -> (r: String)
        ensures
            r@ == mention_seq(self.name@),
    {
        let mut s: String = "<@".to_owned();
        s.append(self.name.as_str());
        s.append(">");
        proof {
            assert(s@ =~= mention_seq(self.name@));
        }
        s
    }

    /// The tag users share so others can find them: `name#discriminator`.
    pub fn get_tag(&self) -> (r: String)
        ensures
            r@ == tag_seq(self.name@, self.discriminator@),
    {
        let mut s: String = self.name.clone();
        s.append("#");
        s.append(self.discriminator.as_str());
        proof {
            assert(s@ =~= tag_seq(self.name@, self.discriminator@));
        }
        s
    }

    /// The user's display name.
    pub fn get_name(&self) -> (r: String)
        ensures
            r@ == self.name@,
    {
        self.name.clone()
    }
}

impl Clone for User {
    /// A deep copy: the clone denotes the same user, field for field.
    fn clone(&self) -> (r: User)
        ensures
            r == *self,
    {
        User {
            uuid: self.uuid,
            name: self.name.clone(),
            discriminator: self.discriminator.clone(),
            is_staff: self.is_staff,
        }
    }
}

impl PartialEq for User {
    /// Equality is by identifier only, not by the display fields.
    fn eq(&self, other: &User) -> bool {
        self.uuid == other.uuid
    }
}

impl vstd::std_specs::cmp::PartialEqSpecImpl for User {
    open spec fn obeys_eq_spec() -> bool {
        true
    }

    open spec fn eq_spec(&self, other: &User) -> bool {
        self.uuid == other.uuid
    }
}

/// Derive a 64-bit identifier from a string by hashing its bytes with the
/// standard hasher.
pub fn calculate_hash(t: &str) -> (r: u64)
    ensures
        r == spec_user_id(t.spec_bytes()),
{
    let mut s = DefaultHasher::new();
    s.write(t.as_bytes());
    let r = s.finish();
    proof {
        assert(s@ =~= seq![t.spec_bytes()]);
    }
    r
}

/// Build a [`User`] from its display data. The identifier is derived
/// deterministically from the display name.
pub fn get_user(name: &str, discriminator: &str, is_staff: bool) -> (r: User)
    ensures
        r.uuid == spec_user_id(name.spec_bytes()),
        r.name@ == name@,
        r.discriminator@ == discriminator@,
        r.is_staff == is_staff,
{
    User {
        uuid: calculate_hash(name),
        name: name.to_owned(),
        discriminator: discriminator.to_owned(),
        is_staff,
    }
}

} // verus!
