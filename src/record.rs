//! What a user call asks of the store: the partial record that a payload
//! writes, and the constraints that a filter places on rows.
use crate::params::{CreateParam, FilterParam, UpdateParam};
use vstd::prelude::*;

verus! {

/// A partial user record: each `Some` field is written, each `None` field is
/// left as it is.
#[derive(Clone, Debug, Default, PartialEq, Eq)]
pub struct UserPatch {
    pub username: Option<String>,
    pub nickname: Option<String>,
    pub password: Option<String>,
    pub email: Option<String>,
    pub avatar_url: Option<Option<String>>,
    pub signature: Option<String>,
    pub group_type: Option<i32>,
    pub status_type: Option<i32>,
}

/// One constraint on the user rows that a filter matches.
#[derive(Clone, Debug, PartialEq, Eq)]
pub enum UserConstraint {
    IdIs(i32),
    UsernameIs(String),
    NicknameIs(String),
    GroupTypeIs(i32),
    StatusTypeIs(i32),
    /// The text occurs in the username or in the nickname.
    NameContains(String),
}

/// The one-element sequence of `c` when `o` is `Some`, else the empty one.
pub open spec fn constraint_if<T>(o: Option<T>, c: UserConstraint) -> Seq<UserConstraint> {
    if o is Some {
        seq![c]
    } else {
        Seq::empty()
    }
}

impl FilterParam {
    /// The constraints of the filter, all of which a matching row meets, in
    /// the order of the fields.
    pub open spec fn spec_constraints(&self) -> Seq<UserConstraint> {
        constraint_if(self.id, UserConstraint::IdIs(self.id->Some_0)) + constraint_if(
            self.username,
            UserConstraint::UsernameIs(self.username->Some_0),
        ) + constraint_if(self.nickname, UserConstraint::NicknameIs(self.nickname->Some_0))
            + constraint_if(self.group_type, UserConstraint::GroupTypeIs(self.group_type->Some_0))
            + constraint_if(
            self.status_type,
            UserConstraint::StatusTypeIs(self.status_type->Some_0),
        ) + constraint_if(
            self.name_search,
            UserConstraint::NameContains(self.name_search->Some_0),
        )
    }

    pub fn into_constraints(self) -> (r: Vec<UserConstraint>)
        ensures
            r@ == self.spec_constraints(),
    {
        let ghost f = self;
        let FilterParam { id, username, nickname, group_type, status_type, name_search } = self;
        let mut out: Vec<UserConstraint> = Vec::new();
        if let Some(v) = id {
            out.push(UserConstraint::IdIs(v));
        }
        if let Some(v) = username {
            out.push(UserConstraint::UsernameIs(v));
        }
        if let Some(v) = nickname {
            out.push(UserConstraint::NicknameIs(v));
        }
        if let Some(v) = group_type {
            out.push(UserConstraint::GroupTypeIs(v));
        }
        if let Some(v) = status_type {
            out.push(UserConstraint::StatusTypeIs(v));
        }
        if let Some(v) = name_search {
            out.push(UserConstraint::NameContains(v));
        }
        assert(out@ =~= f.spec_constraints());
        out
    }
}

/// The record that creating a user from `p` writes: the nickname starts out
/// as the username, and the store fills in the rest.
pub open spec fn created_patch(p: CreateParam) -> UserPatch {
    UserPatch {
        username: Some(p.username),
        nickname: Some(p.username),
        password: Some(p.password),
        email: Some(p.email),
        avatar_url: None,
        signature: None,
        group_type: None,
        status_type: None,
    }
}

/// Whether `t` occurs in `s`.
pub open spec fn occurs_in(t: Seq<char>, s: Seq<char>) -> bool {
    exists|i: int| 0 <= i <= s.len() - t.len() && #[trigger] s.subrange(i, i + t.len()) == t
}

/// Whether a row written as `patch` meets `c` through the fields that the
/// patch sets. The id is the store's to assign, so no patch meets `IdIs`.
pub open spec fn patch_meets(patch: UserPatch, c: UserConstraint) -> bool {
    match c {
        UserConstraint::IdIs(_) => false,
        UserConstraint::UsernameIs(u) => patch.username == Some(u),
        UserConstraint::NicknameIs(n) => patch.nickname == Some(n),
        UserConstraint::GroupTypeIs(g) => patch.group_type == Some(g),
        UserConstraint::StatusTypeIs(s) => patch.status_type == Some(s),
        UserConstraint::NameContains(t) => (patch.username is Some && occurs_in(
            t@,
            patch.username->Some_0@,
        )) || (patch.nickname is Some && occurs_in(t@, patch.nickname->Some_0@)),
    }
}

/// The filter that looks a user up by username.
pub open spec fn username_lookup(username: String) -> FilterParam {
    FilterParam {
        id: None,
        username: Some(username),
        nickname: None,
        group_type: None,
        status_type: None,
        name_search: None,
    }
}

/// Creating a user and then looking it up by the payload's username: the
/// record that the creation writes carries the payload's username, password
/// and email, and it meets every constraint of the lookup filter.
pub proof fn lemma_create_then_lookup(payload: CreateParam)
    ensures
        created_patch(payload).username == Some(payload.username),
        created_patch(payload).password == Some(payload.password),
        created_patch(payload).email == Some(payload.email),
        forall|i: int|
            0 <= i < username_lookup(payload.username).spec_constraints().len() ==> patch_meets(
                created_patch(payload),
                #[trigger] username_lookup(payload.username).spec_constraints()[i],
            ),
{
    let cs = username_lookup(payload.username).spec_constraints();
    assert(cs =~= seq![UserConstraint::UsernameIs(payload.username)]);
}

impl CreateParam {
    /// The record that creating this user writes.
    pub fn into_patch(self) -> (r: UserPatch)
        ensures
            r == created_patch(self),
    {
        let CreateParam { username, password, email } = self;
        let nickname = username.clone();
        UserPatch {
            username: Some(username),
            nickname: Some(nickname),
            password: Some(password),
            email: Some(email),
            avatar_url: None,
            signature: None,
            group_type: None,
            status_type: None,
        }
    }
}

impl UpdateParam {
    /// The fields that this update writes; the username is never changed.
    pub fn into_patch(self) -> (r: UserPatch)
        ensures
            r.username is None,
            r.nickname == self.nickname,
            r.password == self.password,
            r.email == self.email,
            r.avatar_url == self.avatar_url,
            r.signature == self.signature,
            r.group_type == self.group_type,
            r.status_type == self.status_type,
    {
        let UpdateParam {
            nickname,
            password,
            email,
            avatar_url,
            signature,
            group_type,
            status_type,
        } = self;
        UserPatch {
            username: None,
            nickname,
            password,
            email,
            avatar_url,
            signature,
            group_type,
            status_type,
        }
    }
}

} // verus!
