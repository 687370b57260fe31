use vstd::prelude::*;

use crate::model::{
    copy_all, opt_str_view, opt_string_view, own_all, strings_view, strs_view, DraftView,
};
use crate::Cat;

verus! {

/// It's not easy to generate cats out of thin air, hence it can fail.
#[derive(Debug, Clone, Copy, PartialEq, Eq)]
pub enum CatBuildError {
    /// Name or username was never set.
    Generic,
}

/// Builds a [Cat] from owned strings; setters change the builder in place.
#[derive(Debug)]
pub struct CatMutRefBuilderOwnedTypes {
    name: Option<String>,
    username: Option<String>,
    number: Option<i64>,
    friends: Vec<String>,
}

impl View for CatMutRefBuilderOwnedTypes {
    type V = DraftView;

    closed spec fn view(&self) -> DraftView {
        DraftView {
            name: opt_string_view(self.name),
            username: opt_string_view(self.username),
            number: self.number,
            friends: strings_view(self.friends@),
        }
    }
}

impl CatMutRefBuilderOwnedTypes {
    pub fn new() -> (r: CatMutRefBuilderOwnedTypes)
        ensures
            r@ == DraftView::empty(),
    {
        let r = CatMutRefBuilderOwnedTypes {
            name: None,
            username: None,
            number: None,
            friends: Vec::new(),
        };
        assert(r@.friends =~= Seq::empty());
        r
    }

    pub fn name(&mut self, name: &str) -> (r: &mut Self)
        ensures
            r@ == old(self)@.with_name(name@),
            *final(self) == *final(r),
    {
        self.name = Some(name.to_owned());
        self
    }

    pub fn username(&mut self, username: &str) -> (r: &mut Self)
        ensures
            r@ == old(self)@.with_username(username@),
            *final(self) == *final(r),
    {
        self.username = Some(username.to_owned());
        self
    }

    pub fn number(&mut self, number: i64) -> (r: &mut Self)
        ensures
            r@ == old(self)@.with_number(number),
            *final(self) == *final(r),
    {
        self.number = Some(number);
        self
    }

    pub fn friend(&mut self, friend: &str) -> (r: &mut Self)
        ensures
            r@ == old(self)@.with_friend(friend@),
            *final(self) == *final(r),
    {
        self.friends.push(friend.to_owned());
        assert(strings_view(self.friends@) =~= strings_view(old(self).friends@).push(friend@));
        self
    }

    pub fn friends(&mut self, friends: &[&str]) -> (r: &mut Self)
        ensures
            r@ == old(self)@.with_friends(strs_view(friends@)),
            *final(self) == *final(r),
    {
        let mut i: usize = 0;
        while i < friends.len()
            invariant
                i <= friends@.len(),
                self.name == old(self).name,
                self.username == old(self).username,
                self.number == old(self).number,
                strings_view(self.friends@) == strings_view(old(self).friends@) + strs_view(
                    friends@.subrange(0, i as int),
                ),
            decreases friends@.len() - i,
        {
            let ghost before = self.friends@;
            self.friends.push(friends[i].to_owned());
            assert(friends@.subrange(0, i + 1) =~= friends@.subrange(0, i as int).push(friends@[i as int]));
            assert(strings_view(self.friends@) =~= strings_view(before).push(friends@[i as int]@));
            assert(strs_view(friends@.subrange(0, i + 1)) =~= strs_view(friends@.subrange(0, i as int)).push(friends@[i as int]@));
            i = i + 1;
        }
        assert(friends@.subrange(0, friends@.len() as int) =~= friends@);
        self
    }

    pub fn build(&self) -> (r: Result<Cat, CatBuildError>)
        ensures
            r is Ok <==> self@.is_complete(),
            r is Ok ==> r->Ok_0@ == self@.finish(),
            r is Err ==> r->Err_0 == CatBuildError::Generic,
    {
        let name = match &self.name {
            Some(n) => n.clone(),
            None => return Err(CatBuildError::Generic),
        };
        let username = match &self.username {
            Some(u) => u.clone(),
            None => return Err(CatBuildError::Generic),
        };
        let friends = copy_all(self.friends.as_slice());
        Ok(Cat::from_parts(name, username, self.number, friends))
    }
}

/// Builds a [Cat] from borrowed strings; setters change the builder in place.
/// The builder holds references into the caller's text until it is built.
#[derive(Debug)]
pub struct CatMutRefBuilderBorrowTypes<'build> {
    name: Option<&'build str>,
    username: Option<&'build str>,
    number: Option<i64>,
    friends: Vec<&'build str>,
}

impl<'build> View for CatMutRefBuilderBorrowTypes<'build> {
    type V = DraftView;

    closed spec fn view(&self) -> DraftView {
        DraftView {
            name: opt_str_view(self.name),
            username: opt_str_view(self.username),
            number: self.number,
            friends: strs_view(self.friends@),
        }
    }
}

impl<'build> CatMutRefBuilderBorrowTypes<'build> {
    pub fn new() -> (r: CatMutRefBuilderBorrowTypes<'build>)
        ensures
            r@ == DraftView::empty(),
    {
        let r = CatMutRefBuilderBorrowTypes {
            name: None,
            username: None,
            number: None,
            friends: Vec::new(),
        };
        assert(r@.friends =~= Seq::empty());
        r
    }

    pub fn name(&mut self, name: &'build str) -> (r: &mut Self)
        ensures
            r@ == old(self)@.with_name(name@),
            *final(self) == *final(r),
    {
        self.name = Some(name);
        self
    }

    pub fn username(&mut self, username: &'build str) -> (r: &mut Self)
        ensures
            r@ == old(self)@.with_username(username@),
            *final(self) == *final(r),
    {
        self.username = Some(username);
        self
    }

    pub fn number(&mut self, number: i64) -> (r: &mut Self)
        ensures
            r@ == old(self)@.with_number(number),
            *final(self) == *final(r),
    {
        self.number = Some(number);
        self
    }

    pub fn friend(&mut self, friend: &'build str) -> (r: &mut Self)
        ensures
            r@ == old(self)@.with_friend(friend@),
            *final(self) == *final(r),
    {
        self.friends.push(friend);
        assert(strs_view(self.friends@) =~= strs_view(old(self).friends@).push(friend@));
        self
    }

    pub fn friends(&mut self, friends: &'build [&'build str]) -> (r: &mut Self)
        ensures
            r@ == old(self)@.with_friends(strs_view(friends@)),
            *final(self) == *final(r),
    {
        let mut i: usize = 0;
        while i < friends.len()
            invariant
                i <= friends@.len(),
                self.name == old(self).name,
                self.username == old(self).username,
                self.number == old(self).number,
                self.friends@ == old(self).friends@ + friends@.subrange(0, i as int),
            decreases friends@.len() - i,
        {
            self.friends.push(friends[i]);
            assert(friends@.subrange(0, i + 1) =~= friends@.subrange(0, i as int).push(friends@[i as int]));
            i = i + 1;
        }
        assert(friends@.subrange(0, friends@.len() as int) =~= friends@);
        assert(strs_view(self.friends@) =~= strs_view(old(self).friends@) + strs_view(friends@));
        self
    }

    pub fn build(&self) -> (r: Result<Cat, CatBuildError>)
        ensures
            r is Ok <==> self@.is_complete(),
            r is Ok ==> r->Ok_0@ == self@.finish(),
            r is Err ==> r->Err_0 == CatBuildError::Generic,
    {
        let name = match self.name {
            Some(n) => n.to_owned(),
            None => return Err(CatBuildError::Generic),
        };
        let username = match self.username {
            Some(u) => u.to_owned(),
            None => return Err(CatBuildError::Generic),
        };
        let friends = own_all(self.friends.as_slice());
        Ok(Cat::from_parts(name, username, self.number, friends))
    }
}

} // verus!
