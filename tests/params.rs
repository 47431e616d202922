use space_backend::config::{CacheConfig, DBConfig, ServiceConfig};
use space_backend::record::{UserConstraint, UserPatch};
use space_backend::service::{username_filter, UserService};
use space_backend::{
    default_page_num, default_page_size, Attr, CreateParam, FilterParam, OrderParam,
    PaginateParam, UpdateParam,
};
use std::sync::Arc;

#[test]
fn paging_and_order_defaults() {
    let p = PaginateParam::default();
    assert_eq!((p.page_num, p.page_size), (1, 10));
    assert_eq!(default_page_num(), 1);
    assert_eq!(default_page_size(), 10);
    let o = OrderParam::<Attr>::default();
    assert_eq!(o.by, Attr::Id);
    assert!(!o.ascending);
}

#[test]
fn filter_lists_its_constraints_in_field_order() {
    let filter = FilterParam {
        id: Some(3),
        status_type: Some(1),
        name_search: Some("bo".to_string()),
        ..Default::default()
    };
    assert_eq!(
        filter.into_constraints(),
        vec![
            UserConstraint::IdIs(3),
            UserConstraint::StatusTypeIs(1),
            UserConstraint::NameContains("bo".to_string()),
        ]
    );
    assert!(FilterParam::default().into_constraints().is_empty());
}

#[test]
fn created_user_takes_the_payload_fields() {
    let patch = CreateParam {
        username: "test_user".to_string(),
        password: "test".to_string(),
        email: "test@test_user.com".to_string(),
    }
    .into_patch();
    assert_eq!(
        patch,
        UserPatch {
            username: Some("test_user".to_string()),
            nickname: Some("test_user".to_string()),
            password: Some("test".to_string()),
            email: Some("test@test_user.com".to_string()),
            ..Default::default()
        }
    );
}

#[test]
fn update_writes_only_the_given_fields() {
    let patch = UpdateParam {
        nickname: Some("test_nickname".to_string()),
        avatar_url: Some(None),
        ..Default::default()
    }
    .into_patch();
    assert_eq!(patch.username, None);
    assert_eq!(patch.nickname, Some("test_nickname".to_string()));
    assert_eq!(patch.avatar_url, Some(None));
    assert_eq!(patch.password, None);
}

#[test]
fn config_defaults() {
    let s = ServiceConfig::default();
    assert_eq!((s.host.as_str(), s.port), ("localhost", 8069));
    let d = DBConfig::default();
    assert_eq!(d.db_backend, "mysql");
    assert_eq!(d.port, 3306);
    assert_eq!(d.db_name, "space_backend");
    assert_eq!((d.max_conns, d.conn_timeout), (10, 8));
    let c = CacheConfig::default();
    assert_eq!(c.cache_backend, "redis");
    assert_eq!((c.port, c.db_name.as_str()), (6379, "0"));
}

#[test]
fn service_holds_its_collaborators() {
    let s = UserService::new(Arc::new(1u8), Arc::new(2u16), Arc::new(3u32));
    assert_eq!((*s.user_dao, *s.crypto_utils, *s.token_utils), (1, 2, 3));
}

#[test]
fn username_lookup_admits_the_created_user() {
    let payload = CreateParam {
        username: "u1".to_string(),
        password: "p".to_string(),
        email: "e@x".to_string(),
    };
    let constraints = username_filter(payload.username.clone()).into_constraints();
    assert_eq!(constraints, vec![UserConstraint::UsernameIs("u1".to_string())]);
    assert_eq!(payload.into_patch().username, Some("u1".to_string()));
}
