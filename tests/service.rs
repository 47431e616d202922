use space_backend::service::{
    availability, ensure_own_account, ensure_username_free, find_filter, id_filter, search_page,
    username_filter, UserAdminEditReqForm, UserAdminSearchReqForm, UserEditReqForm, UserInfo,
    UserSearchReqForm,
};
use space_backend::{AppErrorKind, FilterParam, PaginateParam, UpdateParam};

fn info(id: i32) -> UserInfo {
    UserInfo {
        id,
        username: format!("user{}", id),
        nickname: format!("user{}", id),
        email: format!("user{}@example.com", id),
        avatar_url: None,
        signature: String::new(),
        group_type: 0,
        status_type: 1,
    }
}

#[test]
fn taken_username_is_a_conflict() {
    assert!(ensure_username_free(0, "alice").is_ok());
    let e = ensure_username_free(1, "alice").err().unwrap();
    assert_eq!(e.kind, AppErrorKind::UsernameConflict);
    assert_eq!(
        e.to_display_string(),
        "用户名已存在:\nUsername 'alice' already exists."
    );
}

#[test]
fn availability_means_no_holder() {
    assert!(availability(0).available);
    assert!(!availability(2).available);
}

#[test]
fn only_the_owner_may_change_an_account() {
    assert!(ensure_own_account(4, 4, "password").is_ok());
    let e = ensure_own_account(4, 5, "password").err().unwrap();
    assert_eq!(e.kind, AppErrorKind::PermissionDenied);
    assert_eq!(
        e.to_display_string(),
        "访问权限不足:\nYou can change only your own password"
    );
}

#[test]
fn lookups_build_their_filters() {
    assert_eq!(
        find_filter(7),
        FilterParam {
            id: Some(7),
            status_type: Some(1),
            ..Default::default()
        }
    );
    assert_eq!(
        id_filter(7),
        FilterParam {
            id: Some(7),
            ..Default::default()
        }
    );
    assert_eq!(
        username_filter("bob".to_string()),
        FilterParam {
            username: Some("bob".to_string()),
            ..Default::default()
        }
    );
}

#[test]
fn searches_build_filter_and_page() {
    let (filter, page) = UserSearchReqForm {
        name_search: Some("al".to_string()),
        page_num: 2,
        page_size: 5,
    }
    .into_query();
    assert_eq!(filter.name_search, Some("al".to_string()));
    assert_eq!(filter.status_type, Some(1));
    assert_eq!(filter.group_type, None);
    assert_eq!(page, PaginateParam { page_num: 2, page_size: 5 });

    let (filter, page) = UserAdminSearchReqForm {
        name_search: None,
        group_type: Some(1),
        status_type: Some(3),
        page_num: 1,
        page_size: 10,
    }
    .into_query();
    assert_eq!(
        filter,
        FilterParam {
            group_type: Some(1),
            status_type: Some(3),
            ..Default::default()
        }
    );
    assert_eq!(page, PaginateParam::default());
}

#[test]
fn edits_become_updates() {
    let update = UserEditReqForm {
        nickname: Some("n".to_string()),
        email: None,
        signature: Some("s".to_string()),
        avatar_url: Some("http://a/b.png".to_string()),
    }
    .into_update();
    assert_eq!(
        update,
        UpdateParam {
            nickname: Some("n".to_string()),
            signature: Some("s".to_string()),
            avatar_url: Some(Some("http://a/b.png".to_string())),
            ..Default::default()
        }
    );
    let update = UserAdminEditReqForm {
        group_type: Some(1),
        status_type: None,
    }
    .into_update();
    assert_eq!(
        update,
        UpdateParam {
            group_type: Some(1),
            ..Default::default()
        }
    );
}

#[test]
fn bad_paging_is_the_callers_fault() {
    let page = search_page(PaginateParam { page_num: 1, page_size: 2 }, 3, vec![info(1), info(2)])
        .ok()
        .unwrap();
    assert_eq!(page.page_total, 2);
    assert_eq!(page.records.len(), 2);
    let e = search_page(PaginateParam { page_num: 3, page_size: 2 }, 3, vec![])
        .err()
        .unwrap();
    assert_eq!(e.kind, AppErrorKind::RequestParamInvalid);
    assert_eq!(
        e.to_debug_string(),
        "请求参数无效:\nInvalid pagination parameters\n\nCaused by:\n    Invalid page number. It must be between 1 and page_total"
    );
}
