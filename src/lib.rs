use rand::distributions::DistString;
use vstd::prelude::*;

pub mod model;
pub mod mutref;
pub mod owned;

use crate::model::{strings_view, CatView};
use crate::mutref::{CatMutRefBuilderBorrowTypes, CatMutRefBuilderOwnedTypes};
use crate::owned::{CatOwnedBuilderBorrowTypes, CatOwnedBuilderOwnedTypes};

verus! {

/// An ASCII letter or digit: what rand's `Alphanumeric` draws from.
pub open spec fn is_alphanumeric(c: char) -> bool {
    ('A' <= c && c <= 'Z') || ('a' <= c && c <= 'z') || ('0' <= c && c <= '9')
}

/// A text of exactly ten letters or digits.
pub open spec fn is_random_text(s: Seq<char>) -> bool {
    &&& s.len() == 10
    &&& forall|i: int| 0 <= i < s.len() ==> is_alphanumeric(#[trigger] s[i])
}

/// What every randomly filled cat looks like.
pub open spec fn is_random_cat(c: CatView) -> bool {
    &&& is_random_text(c.name)
    &&& is_random_text(c.username)
    &&& c.number is Some
    &&& c.friends.len() == 3
    &&& forall|i: int| 0 <= i < 3 ==> is_random_text(#[trigger] c.friends[i])
}

/// The cat that the fixed-value driver builds.
pub open spec fn default_cat() -> CatView {
    CatView {
        name: "goodkitten"@,
        username: "goodkitten"@,
        number: Some(123),
        friends: seq!["goodkitten1"@, "goodkitten2"@, "goodkitten3"@],
    }
}

/// Relies on rand's `Alphanumeric::sample_string` over the thread-local
/// generator: it returns `len` characters, each one of `A-Z`, `a-z`, `0-9`.
#[verifier::external_body]
pub(crate) fn rand_str_gen(len: usize) -> (r: String)
    ensures
        r@.len() == len,
        forall|i: int| 0 <= i < r@.len() ==> is_alphanumeric(#[trigger] r@[i]),
{
    rand::distributions::Alphanumeric.sample_string(&mut rand::thread_rng(), len)
}

/// Relies on `rand::random`: a value drawn from the thread-local generator,
/// for `i64` uniform over the whole range, so nothing is promised of it.
pub assume_specification<T>[ rand::random::<T> ]() -> (r: T)
    where
        rand::distributions::Standard: rand::distributions::Distribution<T>,
;

/// A cat in the collection: always has a name and a username.
#[derive(Debug, Clone, PartialEq, Eq)]
pub struct Cat {
    /// Cat name; two cats may share one.
    name: String,
    /// Cat username; meant to be unique, which is left to the caller.
    username: String,
    /// A number for easy reference; new kittens have none yet.
    number: Option<i64>,
    /// Usernames of the cat's friends, in the order they were added.
    friends: Vec<String>,
}

impl View for Cat {
    type V = CatView;

    closed spec fn view(&self) -> CatView {
        CatView {
            name: self.name@,
            username: self.username@,
            number: self.number,
            friends: strings_view(self.friends@),
        }
    }
}

impl Cat {
    pub(crate) fn from_parts(
        name: String,
        username: String,
        number: Option<i64>,
        friends: Vec<String>,
    ) -> (c: Cat)
        ensures
            c@ == (CatView {
                name: name@,
                username: username@,
                number,
                friends: strings_view(friends@),
            }),
    {
        Cat { name, username, number, friends }
    }

    pub fn name(&self) -> (r: &str)
        ensures
            r@ == self@.name,
    {
        self.name.as_str()
    }

    pub fn username(&self) -> (r: &str)
        ensures
            r@ == self@.username,
    {
        self.username.as_str()
    }

    pub fn number(&self) -> (r: Option<i64>)
        ensures
            r == self@.number,
    {
        self.number
    }

    pub fn friends(&self) -> (r: &[String])
        ensures
            strings_view(r@) == self@.friends,
    {
        self.friends.as_slice()
    }
}

/// Build [Cat] with random data.
pub trait RandomBuilder {
    fn random_build() -> (c: Cat)
        ensures
            is_random_cat(c@),
    ;
}

/// Build [Cat] with predetermined data.
pub trait DefaultBuilder {
    fn default_build() -> (c: Cat)
        ensures
            c@ == default_cat(),
    ;
}

impl RandomBuilder for CatMutRefBuilderOwnedTypes {
    fn random_build() -> (c: Cat) {
        let mut b = CatMutRefBuilderOwnedTypes::new();
        b.name(&rand_str_gen(10)).username(&rand_str_gen(10)).number(rand::random()).friend(
            &rand_str_gen(10),
        ).friend(&rand_str_gen(10)).friend(&rand_str_gen(10));
        b.build().expect("Unable to build")
    }
}

impl DefaultBuilder for CatMutRefBuilderOwnedTypes {
    fn default_build() -> (c: Cat) {
        let mut b = CatMutRefBuilderOwnedTypes::new();
        b.name("goodkitten").username("goodkitten").number(123).friend("goodkitten1").friend(
            "goodkitten2",
        ).friend("goodkitten3");
        assert(b@.friends =~= default_cat().friends);
        b.build().expect("Unable to build")
    }
}

impl<'a> RandomBuilder for CatMutRefBuilderBorrowTypes<'a> {
    fn random_build() -> (c: Cat) {
        let name = rand_str_gen(10);
        let username = rand_str_gen(10);
        let friend1 = rand_str_gen(10);
        let friend2 = rand_str_gen(10);
        let friend3 = rand_str_gen(10);
        let mut b = CatMutRefBuilderBorrowTypes::new();
        b.name(name.as_str()).username(username.as_str()).number(rand::random()).friend(
            friend1.as_str(),
        ).friend(friend2.as_str()).friend(friend3.as_str());
        b.build().expect("Unable to build")
    }
}

impl<'a> DefaultBuilder for CatMutRefBuilderBorrowTypes<'a> {
    fn default_build() -> (c: Cat) {
        let mut b = CatMutRefBuilderBorrowTypes::new();
        b.name("goodkitten").username("goodkitten").number(123).friend("goodkitten1").friend(
            "goodkitten2",
        ).friend("goodkitten3");
        assert(b@.friends =~= default_cat().friends);
        b.build().expect("Unable to build")
    }
}

impl RandomBuilder for CatOwnedBuilderOwnedTypes {
    fn random_build() -> (c: Cat) {
        CatOwnedBuilderOwnedTypes::new().name(&rand_str_gen(10)).username(
            &rand_str_gen(10),
        ).number(rand::random()).friend(&rand_str_gen(10)).friend(&rand_str_gen(10)).friend(
            &rand_str_gen(10),
        ).build().expect("Unable to build")
    }
}

impl DefaultBuilder for CatOwnedBuilderOwnedTypes {
    fn default_build() -> (c: Cat) {
        let b = CatOwnedBuilderOwnedTypes::new().name("goodkitten").username(
            "goodkitten",
        ).number(123).friend("goodkitten1").friend("goodkitten2").friend("goodkitten3");
        assert(b@.friends =~= default_cat().friends);
        b.build().expect("Unable to build")
    }
}

impl<'a> RandomBuilder for CatOwnedBuilderBorrowTypes<'a> {
    fn random_build() -> (c: Cat) {
        let name = rand_str_gen(10);
        let username = rand_str_gen(10);
        let friend1 = rand_str_gen(10);
        let friend2 = rand_str_gen(10);
        let friend3 = rand_str_gen(10);
        CatOwnedBuilderBorrowTypes::new().name(name.as_str()).username(
            username.as_str(),
        ).number(rand::random()).friend(friend1.as_str()).friend(friend2.as_str()).friend(
            friend3.as_str(),
        ).build().expect("Unable to build")
    }
}

impl<'a> DefaultBuilder for CatOwnedBuilderBorrowTypes<'a> {
    fn default_build() -> (c: Cat) {
        let b = CatOwnedBuilderBorrowTypes::new().name("goodkitten").username(
            "goodkitten",
        ).number(123).friend("goodkitten1").friend("goodkitten2").friend("goodkitten3");
        assert(b@.friends =~= default_cat().friends);
        b.build().expect("Unable to build")
    }
}

} // verus!
