use vstd::prelude::*;

use crate::model::{
    opt_str_view, opt_string_view, own_all, strings_view, strs_view, DraftView,
};
use crate::Cat;

verus! {

/// It's not easy to generate cats out of thin air, hence it can fail.
#[derive(Debug, Clone, Copy, PartialEq, Eq)]
pub enum CatBuildError {
    /// Name or username was never set.
    Generic,
}

/// Builds a [Cat] from owned strings; each setter takes the builder and
/// hands back a new one.
#[derive(Debug)]
pub struct CatOwnedBuilderOwnedTypes {
    name: Option<String>,
    username: Option<String>,
    number: Option<i64>,
    friends: Vec<String>,
}

impl View for CatOwnedBuilderOwnedTypes {
    type V = DraftView;

    closed spec fn view(&self) -> DraftView {
        DraftView {
            name: opt_string_view(self.name),
            username: opt_string_view(self.username),
            number: self.number,
            friends: strings_view(self.friends@),
        }
    }
}

impl CatOwnedBuilderOwnedTypes {
    pub fn new() -> (r: CatOwnedBuilderOwnedTypes)
        ensures
            r@ == DraftView::empty(),
    {
        let r = CatOwnedBuilderOwnedTypes {
            name: None,
            username: None,
            number: None,
            friends: Vec::new(),
        };
        assert(r@.friends =~= Seq::empty());
        r
    }

    pub fn name(self, name: &str) -> (r: Self)
        ensures
            r@ == self@.with_name(name@),
    {
        Self { name: Some(name.to_owned()), ..self }
    }

    pub fn username(self, username: &str) -> (r: Self)
        ensures
            r@ == self@.with_username(username@),
    {
        Self { username: Some(username.to_owned()), ..self }
    }

    pub fn number(self, number: i64) -> (r: Self)
        ensures
            r@ == self@.with_number(number),
    {
        Self { number: Some(number), ..self }
    }

    pub fn friend(self, friend: &str) -> (r: Self)
        ensures
            r@ == self@.with_friend(friend@),
    {
        let mut friends = self.friends;
        friends.push(friend.to_owned());
        assert(strings_view(friends@) =~= strings_view(self.friends@).push(friend@));
        Self { friends, ..self }
    }

    pub fn friends(self, friends: &[&str]) -> (r: Self)
        ensures
            r@ == self@.with_friends(strs_view(friends@)),
    {
        let mut friends_inner = self.friends;
        let mut added = own_all(friends);
        friends_inner.append(&mut added);
        assert(strings_view(friends_inner@) =~= strings_view(self.friends@) + strs_view(friends@));
        Self { friends: friends_inner, ..self }
    }

    pub fn build(self) -> (r: Result<Cat, CatBuildError>)
        ensures
            r is Ok <==> self@.is_complete(),
            r is Ok ==> r->Ok_0@ == self@.finish(),
            r is Err ==> r->Err_0 == CatBuildError::Generic,
    {
        let name = match self.name {
            Some(n) => n,
            None => return Err(CatBuildError::Generic),
        };
        let username = match self.username {
            Some(u) => u,
            None => return Err(CatBuildError::Generic),
        };
        Ok(Cat::from_parts(name, username, self.number, self.friends))
    }
}

/// Builds a [Cat] from borrowed strings; each setter takes the builder and
/// hands back a new one. The builder holds references into the caller's
/// text until it is built.
#[derive(Debug)]
pub struct CatOwnedBuilderBorrowTypes<'build> {
    name: Option<&'build str>,
    username: Option<&'build str>,
    number: Option<i64>,
    friends: Vec<&'build str>,
}

impl<'build> View for CatOwnedBuilderBorrowTypes<'build> {
    type V = DraftView;

    closed spec fn view(&self) -> DraftView {
        DraftView {
            name: opt_str_view(self.name),
            username: opt_str_view(self.username),
            number: self.number,
            friends: strs_view(self.friends@),
        }
    }
}

impl<'build> CatOwnedBuilderBorrowTypes<'build> {
    pub fn new() -> (r: CatOwnedBuilderBorrowTypes<'build>)
        ensures
            r@ == DraftView::empty(),
    {
        let r = CatOwnedBuilderBorrowTypes {
            name: None,
            username: None,
            number: None,
            friends: Vec::new(),
        };
        assert(r@.friends =~= Seq::empty());
        r
    }

    pub fn name(self, name: &'build str) -> (r: Self)
        ensures
            r@ == self@.with_name(name@),
    {
        Self { name: Some(name), ..self }
    }

    pub fn username(self, username: &'build str) -> (r: Self)
        ensures
            r@ == self@.with_username(username@),
    {
        Self { username: Some(username), ..self }
    }

    pub fn number(self, number: i64) -> (r: Self)
        ensures
            r@ == self@.with_number(number),
    {
        Self { number: Some(number), ..self }
    }

    pub fn friend(self, friend: &'build str) -> (r: Self)
        ensures
            r@ == self@.with_friend(friend@),
    {
        let mut friends = self.friends;
        friends.push(friend);
        assert(strs_view(friends@) =~= strs_view(self.friends@).push(friend@));
        Self { friends, ..self }
    }

    pub fn friends(self, friends: &'build [&'build str]) -> (r: Self)
        ensures
            r@ == self@.with_friends(strs_view(friends@)),
    {
        let mut friends_inner = self.friends;
        let mut i: usize = 0;
        while i < friends.len()
            invariant
                i <= friends@.len(),
                friends_inner@ == self.friends@ + friends@.subrange(0, i as int),
            decreases friends@.len() - i,
        {
            friends_inner.push(friends[i]);
            assert(friends@.subrange(0, i + 1) =~= friends@.subrange(0, i as int).push(friends@[i as int]));
            i = i + 1;
        }
        assert(friends@.subrange(0, friends@.len() as int) =~= friends@);
        assert(strs_view(friends_inner@) =~= strs_view(self.friends@) + strs_view(friends@));
        Self { friends: friends_inner, ..self }
    }

    pub fn build(self) -> (r: Result<Cat, CatBuildError>)
        ensures
            r is Ok <==> self@.is_complete(),
            r is Ok ==> r->Ok_0@ == self@.finish(),
            r is Err ==> r->Err_0 == CatBuildError::Generic,
    {
        let name = match self.name {
            Some(n) => n.to_owned(),
            None => return Err(CatBuildError::Generic),
        };
        let username = match self.username {
            Some(u) => u.to_owned(),
            None => return Err(CatBuildError::Generic),
        };
        let friends = own_all(self.friends.as_slice());
        Ok(Cat::from_parts(name, username, self.number, friends))
    }
}

} // verus!
