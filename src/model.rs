use vstd::prelude::*;

verus! {

/// The fields of a finished record, as mathematical values.
pub struct CatView {
    pub name: Seq<char>,
    pub username: Seq<char>,
    pub number: Option<i64>,
    pub friends: Seq<Seq<char>>,
}

/// What a builder has gathered so far. All four builders share this model,
/// so the same calls on any of them describe the same record.
pub struct DraftView {
    pub name: Option<Seq<char>>,
    pub username: Option<Seq<char>>,
    pub number: Option<i64>,
    pub friends: Seq<Seq<char>>,
}

impl DraftView {
    /// A fresh builder: nothing set, no friends.
    pub open spec fn empty() -> DraftView {
        DraftView { name: None, username: None, number: None, friends: Seq::empty() }
    }

    pub open spec fn with_name(self, name: Seq<char>) -> DraftView {
        DraftView { name: Some(name), ..self }
    }

    pub open spec fn with_username(self, username: Seq<char>) -> DraftView {
        DraftView { username: Some(username), ..self }
    }

    pub open spec fn with_number(self, number: i64) -> DraftView {
        DraftView { number: Some(number), ..self }
    }

    pub open spec fn with_friend(self, friend: Seq<char>) -> DraftView {
        DraftView { friends: self.friends.push(friend), ..self }
    }

    pub open spec fn with_friends(self, friends: Seq<Seq<char>>) -> DraftView {
        DraftView { friends: self.friends + friends, ..self }
    }

    /// Validation succeeds exactly when both name and username are set.
    pub open spec fn is_complete(self) -> bool {
        self.name is Some && self.username is Some
    }

    /// The record that a successful validation produces.
    pub open spec fn finish(self) -> CatView
        recommends
            self.is_complete(),
    {
        CatView {
            name: self.name->Some_0,
            username: self.username->Some_0,
            number: self.number,
            friends: self.friends,
        }
    }
}

/// One setter call, whichever way a builder variant chains it.
pub enum Step {
    Name(Seq<char>),
    Username(Seq<char>),
    Number(i64),
    Friend(Seq<char>),
    Friends(Seq<Seq<char>>),
}

impl DraftView {
    pub open spec fn apply(self, step: Step) -> DraftView {
        match step {
            Step::Name(n) => self.with_name(n),
            Step::Username(u) => self.with_username(u),
            Step::Number(k) => self.with_number(k),
            Step::Friend(f) => self.with_friend(f),
            Step::Friends(fs) => self.with_friends(fs),
        }
    }

    /// The builder state after the calls `steps`, in order.
    pub open spec fn replay(self, steps: Seq<Step>) -> DraftView
        decreases steps.len(),
    {
        if steps.len() == 0 {
            self
        } else {
            self.apply(steps[0]).replay(steps.drop_first())
        }
    }
}

pub open spec fn sets_name(steps: Seq<Step>) -> bool {
    exists|i: int| 0 <= i < steps.len() && #[trigger] steps[i] is Name
}

pub open spec fn sets_username(steps: Seq<Step>) -> bool {
    exists|i: int| 0 <= i < steps.len() && #[trigger] steps[i] is Username
}

/// A fresh builder that is validated at once fails: neither name nor
/// username is set.
pub proof fn lemma_fresh_builder_fails()
    ensures
        !DraftView::empty().is_complete(),
{
}

/// Setting a name and a username, whatever text they hold (the empty text
/// too), and in either order, is enough for validation to succeed, and the
/// record carries exactly those values.
pub proof fn lemma_name_and_username_suffice(d: DraftView, name: Seq<char>, username: Seq<char>)
    ensures
        d.with_name(name).with_username(username).is_complete(),
        d.with_name(name).with_username(username).finish().name == name,
        d.with_name(name).with_username(username).finish().username == username,
        d.with_username(username).with_name(name) == d.with_name(name).with_username(username),
{
}

/// Setting the name twice keeps only the last value; so for the username
/// and the number.
pub proof fn lemma_last_value_wins(d: DraftView, a: Seq<char>, b: Seq<char>, m: i64, n: i64)
    ensures
        d.with_name(a).with_name(b) == d.with_name(b),
        d.with_username(a).with_username(b) == d.with_username(b),
        d.with_number(m).with_number(n) == d.with_number(n),
        d.with_name(a).with_name(b).with_username(a).finish().name == b,
{
}

/// Friends come out in the order they went in, whether added one by one or
/// as a list.
pub proof fn lemma_friends_keep_order(
    d: DraftView,
    a: Seq<char>,
    b: Seq<char>,
    c: Seq<char>,
    e: Seq<char>,
)
    ensures
        DraftView::empty().with_friend(a).with_friend(b).with_friends(seq![c, e]).friends
            == seq![a, b, c, e],
        d.with_friend(a).with_friend(b).with_friends(seq![c, e]).friends == d.friends + seq![
            a,
            b,
            c,
            e,
        ],
{
    assert(DraftView::empty().with_friend(a).with_friend(b).with_friends(seq![c, e]).friends
        =~= seq![a, b, c, e]);
    assert(d.with_friend(a).with_friend(b).with_friends(seq![c, e]).friends =~= d.friends + seq![
        a,
        b,
        c,
        e,
    ]);
}

/// The outcome of a sequence of setter calls depends on the calls alone,
/// not on the builder variant that receives them: validation after `steps`
/// succeeds exactly when some step set the name (or it was set before) and
/// some step set the username; and a name that is set was either there
/// before or given by one of the steps.
pub proof fn lemma_replay_outcome(d: DraftView, steps: Seq<Step>)
    ensures
        d.replay(steps).name is Some <==> (d.name is Some || sets_name(steps)),
        d.replay(steps).username is Some <==> (d.username is Some || sets_username(steps)),
        d.replay(steps).name is Some ==> (d.replay(steps).name == d.name || exists|i: int|
            0 <= i < steps.len() && #[trigger] steps[i] == Step::Name(
                d.replay(steps).name->Some_0,
            )),
    decreases steps.len(),
{
    if steps.len() > 0 {
        let rest = steps.drop_first();
        let d1 = d.apply(steps[0]);
        lemma_replay_outcome(d1, rest);
        assert forall|i: int| 0 <= i < rest.len() implies rest[i] == steps[i + 1] by {}
        if sets_name(rest) {
            let i = choose|i: int| 0 <= i < rest.len() && #[trigger] rest[i] is Name;
            assert(steps[i + 1] is Name);
        }
        if sets_username(rest) {
            let i = choose|i: int| 0 <= i < rest.len() && #[trigger] rest[i] is Username;
            assert(steps[i + 1] is Username);
        }
        if sets_name(steps) && !(steps[0] is Name) {
            let i = choose|i: int| 0 <= i < steps.len() && #[trigger] steps[i] is Name;
            assert(rest[i - 1] is Name);
        }
        if sets_username(steps) && !(steps[0] is Username) {
            let i = choose|i: int| 0 <= i < steps.len() && #[trigger] steps[i] is Username;
            assert(rest[i - 1] is Username);
        }
        if d.replay(steps).name is Some && d.replay(steps).name != d1.name {
            let i = choose|i: int|
                0 <= i < rest.len() && #[trigger] rest[i] == Step::Name(
                    d1.replay(rest).name->Some_0,
                );
            assert(steps[i + 1] == Step::Name(d.replay(steps).name->Some_0));
        }
        if d.replay(steps).name is Some && d.replay(steps).name == d1.name && d1.name != d.name {
            assert(steps[0] == Step::Name(d.replay(steps).name->Some_0));
        }
    }
}

pub open spec fn opt_string_view(o: Option<String>) -> Option<Seq<char>> {
    match o {
        Some(s) => Some(s@),
        None => None,
    }
}

pub open spec fn opt_str_view(o: Option<&str>) -> Option<Seq<char>> {
    match o {
        Some(s) => Some(s@),
        None => None,
    }
}

pub open spec fn strings_view(v: Seq<String>) -> Seq<Seq<char>> {
    v.map_values(|s: String| s@)
}

pub open spec fn strs_view(v: Seq<&str>) -> Seq<Seq<char>> {
    v.map_values(|s: &str| s@)
}

/// Copies every borrowed string into owned storage, keeping the order.
pub(crate) fn own_all(v: &[&str]) -> (r: Vec<String>)
    ensures
        strings_view(r@) == strs_view(v@),
{
    let mut r: Vec<String> = Vec::new();
    let mut i: usize = 0;
    while i < v.len()
        invariant
            i <= v@.len(),
            r@.len() == i,
            forall|j: int| 0 <= j < i ==> #[trigger] r@[j]@ == v@[j]@,
        decreases v@.len() - i,
    {
        r.push(v[i].to_owned());
        i = i + 1;
    }
    assert(strings_view(r@) =~= strs_view(v@));
    r
}

/// Copies every owned string, keeping the order.
pub(crate) fn copy_all(v: &[String]) -> (r: Vec<String>)
    ensures
        strings_view(r@) == strings_view(v@),
{
    let mut r: Vec<String> = Vec::new();
    let mut i: usize = 0;
    while i < v.len()
        invariant
            i <= v@.len(),
            r@.len() == i,
            forall|j: int| 0 <= j < i ==> #[trigger] r@[j]@ == v@[j]@,
        decreases v@.len() - i,
    {
        r.push(v[i].clone());
        i = i + 1;
    }
    assert(strings_view(r@) =~= strings_view(v@));
    r
}

} // verus!
