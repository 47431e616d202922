//! The parameters of data-access calls: paging, ordering, and the user
//! entity's filter, payloads and sortable attributes.
use vstd::prelude::*;

verus! {

/// Which page of a listing to fetch, counted from 1.
#[derive(Clone, Copy, Debug, PartialEq, Eq, Structural)]
pub struct PaginateParam {
    pub page_num: u64,
    pub page_size: u64,
}

impl Default for PaginateParam {
    fn default() -> (r: Self)
        ensures
            r.page_num == 1,
            r.page_size == 10,
    {
        PaginateParam { page_num: 1, page_size: 10 }
    }
}

/// The attribute to sort by and the direction.
#[derive(Clone, Debug)]
pub struct OrderParam<T> {
    pub by: T,
    pub ascending: bool,
}

impl<T: Default> Default for OrderParam<T> {
    /// The attribute's default, descending.
    fn default() -> (r: Self)
        ensures
            !r.ascending,
    {
        OrderParam { by: T::default(), ascending: false }
    }
}

/// Which users a call applies to: every given field must match, and
/// `name_search` must occur in the username or the nickname.
#[derive(Clone, Debug, Default, PartialEq, Eq)]
pub struct FilterParam {
    pub id: Option<i32>,
    pub username: Option<String>,
    pub nickname: Option<String>,
    pub group_type: Option<i32>,
    pub status_type: Option<i32>,
    pub name_search: Option<String>,
}

/// The fields of a new user.
#[derive(Clone, Debug, PartialEq, Eq)]
pub struct CreateParam {
    pub username: String,
    pub password: String,
    pub email: String,
}

/// The fields of a user to change; `None` leaves a field as it is.
#[derive(Clone, Debug, Default, PartialEq, Eq)]
pub struct UpdateParam {
    pub nickname: Option<String>,
    pub password: Option<String>,
    pub email: Option<String>,
    pub avatar_url: Option<Option<String>>,
    pub signature: Option<String>,
    pub group_type: Option<i32>,
    pub status_type: Option<i32>,
}

/// The attributes a user listing can be sorted by.
#[derive(Clone, Copy, Debug, PartialEq, Eq, Structural)]
pub enum Attr {
    Id,
    Username,
    Nickname,
    CreateTime,
    UpdateTime,
}

impl Default for Attr {
    fn default() -> (r: Self)
        ensures
            r == Attr::Id,
    {
        Attr::Id
    }
}

/// The page size a listing uses when the request names none.
pub fn default_page_size() -> (r: u64)
    ensures
        r == 10,
{
    10
}

/// The page a listing shows when the request names none.
pub fn default_page_num() -> (r: u64)
    ensures
        r == 1,
{
    1
}

} // verus!
