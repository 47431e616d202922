//! The user service: its collaborators, and the shapes of its requests and
//! responses.
use crate::error::AppError;
use crate::kind::AppErrorKind;
use crate::page::{page_accepts, Page};
use crate::params::{FilterParam, PaginateParam, UpdateParam};
use crate::record::username_lookup;
use crate::result::AppResult;
use std::sync::Arc;
use vstd::prelude::*;
use vstd::string::StringSliceAdditionalSpecFns;

verus! {

/// Hashes passwords and checks them against stored hashes.
pub trait CryptoUtilsTrait {
    fn hash(&self, message: &str) -> AppResult<String>
        requires
            message.spec_bytes().len() < 0x1000_0000_0000_0000,
    ;

    fn verify(&self, attempted_msg: &str, encoded_salt_hash: &str) -> AppResult<()>
        requires
            attempted_msg.spec_bytes().len() < 0x1000_0000_0000_0000,
    ;
}

/// Something that holds a password hasher.
pub trait CryptoUtilsProvider {
    type CryptoUtils: CryptoUtilsTrait;

    fn crypto_utils(&self) -> &Self::CryptoUtils;
}

/// What a login token says: whose it is, for which group, and when it is valid.
#[derive(Clone, Debug, PartialEq, Eq)]
pub struct Claims {
    pub user_id: i32,
    /// The user's group.
    pub aud: String,
    /// Expiry, as a Unix timestamp in seconds.
    pub exp: u64,
    /// Start of validity, as a Unix timestamp in seconds.
    pub nbf: u64,
    /// The token version; a newer one invalidates older tokens.
    pub version: String,
}

/// The user service over a data access `D`, a password hasher `C` and a token
/// issuer `T`.
pub struct UserService<D, C, T> {
    pub user_dao: Arc<D>,
    pub crypto_utils: Arc<C>,
    pub token_utils: Arc<T>,
}

impl<D, C, T> UserService<D, C, T> {
    pub fn new(user_dao: Arc<D>, crypto_utils: Arc<C>, token_utils: Arc<T>) -> (r: Self)
        ensures
            r.user_dao == user_dao,
            r.crypto_utils == crypto_utils,
            r.token_utils == token_utils,
    {
        UserService { user_dao, crypto_utils, token_utils }
    }
}

/// A user as shown to clients.
#[derive(Clone, Debug, PartialEq, Eq)]
pub struct UserInfo {
    pub id: i32,
    pub username: String,
    pub nickname: String,
    pub email: String,
    pub avatar_url: Option<String>,
    pub signature: String,
    pub group_type: i32,
    pub status_type: i32,
}

#[derive(Clone, Debug, PartialEq, Eq)]
pub struct UserRegisterReqForm {
    pub username: String,
    pub password: String,
    pub email: String,
}

pub struct UserRegisterResForm {
    pub user_info: UserInfo,
    pub token: String,
}

#[derive(Clone, Debug, PartialEq, Eq)]
pub struct UserLoginReqForm {
    pub username: String,
    pub password: String,
}

pub type UserLoginResForm = UserRegisterResForm;

#[derive(Clone, Debug, PartialEq, Eq)]
pub struct UserAvailabilityReqForm {
    pub username: String,
}

#[derive(Clone, Copy, Debug, PartialEq, Eq)]
pub struct UserAvailabilityResForm {
    pub available: bool,
}

#[derive(Clone, Debug, PartialEq, Eq)]
pub struct UserSearchReqForm {
    pub name_search: Option<String>,
    pub page_num: u64,
    pub page_size: u64,
}

pub type UserSearchResForm = Page<UserInfo>;

pub struct UserFindResForm {
    pub user_info: UserInfo,
}

#[derive(Clone, Debug, PartialEq, Eq)]
pub struct UserChangePasswordReqForm {
    pub old_password: String,
    pub new_password: String,
}

#[derive(Clone, Copy, Debug, PartialEq, Eq)]
pub struct UserChangePasswordResForm;

#[derive(Clone, Debug, PartialEq, Eq)]
pub struct UserEditReqForm {
    pub nickname: Option<String>,
    pub email: Option<String>,
    pub signature: Option<String>,
    pub avatar_url: Option<String>,
}

pub type UserEditResForm = UserFindResForm;

#[derive(Clone, Debug, PartialEq, Eq)]
pub struct UserAdminSearchReqForm {
    pub name_search: Option<String>,
    pub group_type: Option<i32>,
    pub status_type: Option<i32>,
    pub page_num: u64,
    pub page_size: u64,
}

pub type UserAdminSearchResForm = Page<UserInfo>;

pub type UserAdminGetResForm = UserFindResForm;

#[derive(Clone, Copy, Debug, PartialEq, Eq)]
pub struct UserAdminEditReqForm {
    pub group_type: Option<i32>,
    pub status_type: Option<i32>,
}

pub type UserAdminEditResForm = UserEditResForm;

/// The context of the error for a username that is taken.
pub open spec fn username_taken_text(username: Seq<char>) -> Seq<char> {
    "Username '"@ + username + "' already exists."@
}

/// The context of the error for a user acting on another user's account.
pub open spec fn not_own_account_text(what: Seq<char>) -> Seq<char> {
    "You can change only your own "@ + what
}

/// Registration goes ahead only when no user holds `username` yet; `count`
/// is the number of users that do.
pub fn ensure_username_free(count: u64, username: &str) -> (r: AppResult<()>)
    ensures
        r is Ok <==> count == 0,
        r matches Err(e) ==> e.kind == AppErrorKind::UsernameConflict && e.chain() == seq![
            username_taken_text(username@)],
{
    if count > 0 {
        let mut text = String::from_str("Username '");
        text.append(username);
        text.append("' already exists.");
        return Err(AppError::new(text, AppErrorKind::UsernameConflict));
    }
    Ok(())
}

/// A username is available when no user holds it.
pub fn availability(count: u64) -> (r: UserAvailabilityResForm)
    ensures
        r.available == (count == 0),
{
    UserAvailabilityResForm { available: count == 0 }
}

/// A user may change `what` of account `id` only when the token is that
/// user's own.
pub fn ensure_own_account(token_user_id: i32, id: i32, what: &str) -> (r: AppResult<()>)
    ensures
        r is Ok <==> token_user_id == id,
        r matches Err(e) ==> e.kind == AppErrorKind::PermissionDenied && e.chain() == seq![
            not_own_account_text(what@)],
{
    if token_user_id != id {
        let mut text = String::from_str("You can change only your own ");
        text.append(what);
        return Err(AppError::new(text, AppErrorKind::PermissionDenied));
    }
    Ok(())
}

/// The filter of a public lookup of user `id`: only active users are found.
pub fn find_filter(id: i32) -> (r: FilterParam)
    ensures
        r == (FilterParam {
            id: Some(id),
            username: None,
            nickname: None,
            group_type: None,
            status_type: Some(1),
            name_search: None,
        }),
{
    FilterParam {
        id: Some(id),
        username: None,
        nickname: None,
        group_type: None,
        status_type: Some(1),
        name_search: None,
    }
}

/// The filter that selects user `id` whatever its state.
pub fn id_filter(id: i32) -> (r: FilterParam)
    ensures
        r == (FilterParam {
            id: Some(id),
            username: None,
            nickname: None,
            group_type: None,
            status_type: None,
            name_search: None,
        }),
{
    FilterParam {
        id: Some(id),
        username: None,
        nickname: None,
        group_type: None,
        status_type: None,
        name_search: None,
    }
}

/// The filter that selects the user named `username`.
pub fn username_filter(username: String) -> (r: FilterParam)
    ensures
        r == username_lookup(username),
{
    FilterParam {
        id: None,
        username: Some(username),
        nickname: None,
        group_type: None,
        status_type: None,
        name_search: None,
    }
}

impl UserSearchReqForm {
    /// The filter and page of a public search: only active users are listed.
    pub fn into_query(self) -> (r: (FilterParam, PaginateParam))
        ensures
            r.0 == (FilterParam {
                id: None,
                username: None,
                nickname: None,
                group_type: None,
                status_type: Some(1),
                name_search: self.name_search,
            }),
            r.1 == (PaginateParam { page_num: self.page_num, page_size: self.page_size }),
    {
        let filter = FilterParam {
            id: None,
            username: None,
            nickname: None,
            group_type: None,
            status_type: Some(1),
            name_search: self.name_search,
        };
        (filter, PaginateParam { page_num: self.page_num, page_size: self.page_size })
    }
}

impl UserAdminSearchReqForm {
    /// The filter and page of an administrator's search.
    pub fn into_query(self) -> (r: (FilterParam, PaginateParam))
        ensures
            r.0 == (FilterParam {
                id: None,
                username: None,
                nickname: None,
                group_type: self.group_type,
                status_type: self.status_type,
                name_search: self.name_search,
            }),
            r.1 == (PaginateParam { page_num: self.page_num, page_size: self.page_size }),
    {
        let filter = FilterParam {
            id: None,
            username: None,
            nickname: None,
            group_type: self.group_type,
            status_type: self.status_type,
            name_search: self.name_search,
        };
        (filter, PaginateParam { page_num: self.page_num, page_size: self.page_size })
    }
}

impl UserEditReqForm {
    /// The update a user makes to their own profile; a given avatar URL is set.
    pub fn into_update(self) -> (r: UpdateParam)
        ensures
            r == (UpdateParam {
                nickname: self.nickname,
                password: None,
                email: self.email,
                avatar_url: match self.avatar_url {
                    Some(url) => Some(Some(url)),
                    None => None,
                },
                signature: self.signature,
                group_type: None,
                status_type: None,
            }),
    {
        let avatar_url = match self.avatar_url {
            Some(url) => Some(Some(url)),
            None => None,
        };
        UpdateParam {
            nickname: self.nickname,
            password: None,
            email: self.email,
            avatar_url,
            signature: self.signature,
            group_type: None,
            status_type: None,
        }
    }
}

impl UserAdminEditReqForm {
    /// The update an administrator makes to a user's group and state.
    pub fn into_update(self) -> (r: UpdateParam)
        ensures
            r == (UpdateParam {
                nickname: None,
                password: None,
                email: None,
                avatar_url: None,
                signature: None,
                group_type: self.group_type,
                status_type: self.status_type,
            }),
    {
        UpdateParam {
            nickname: None,
            password: None,
            email: None,
            avatar_url: None,
            signature: None,
            group_type: self.group_type,
            status_type: self.status_type,
        }
    }
}

/// The page of a search result; paging parameters that `Page::new` refuses
/// are the caller's fault.
pub fn search_page(paginate: PaginateParam, record_total: u64, infos: Vec<UserInfo>) -> (r:
    AppResult<Page<UserInfo>>)
    ensures
        r is Ok <==> page_accepts(
            paginate.page_num,
            paginate.page_size,
            record_total,
            infos@.len(),
        ),
        r matches Ok(p) ==> p.wf() && p.page_size == paginate.page_size && p.record_total
            == record_total,
        r matches Err(e) ==> e.kind == AppErrorKind::RequestParamInvalid && e.chain().len() == 2
            && e.chain()[1] == "Invalid pagination parameters"@,
{
    match Page::new(paginate.page_num, paginate.page_size, record_total, infos) {
        Ok(page) => Ok(page),
        Err(e) => {
            let err = AppError::new(e.message(), AppErrorKind::RequestParamInvalid).context(
                "Invalid pagination parameters",
            );
            Err(err)
        },
    }
}

} // verus!
