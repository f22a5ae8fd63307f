use service_core::codes::{FAILED_CODE, GENERAL_BUSINESS_CODE, NOT_FOUND_CODE, SUCCESS_CODE};
use service_core::endpoints::{detail_post, list_posts};
use service_core::errors::CommonError;
use service_core::gate::PoolGate;
use service_core::params::{default_page_no, default_page_size, default_published,
    PostCreateParam, PostDetailParam, PostListParam};
use service_core::posts::{Post, PostStore};
use service_core::service::{PostService, PostServiceImpl};

fn post(id: i64, title: &str) -> Post {
    Post {
        id,
        title: title.to_string(),
        content: format!("body of {title}"),
        published: true,
        created_at: 1_700_000_000,
        updated_at: 1_700_000_000,
    }
}

fn store_of(n: i64) -> PostStore {
    let mut store = PostStore::new();
    for id in 1..=n {
        assert!(store.insert(post(id, &format!("post-{id}"))));
    }
    store
}

fn healthy_gate() -> PoolGate {
    let mut gate = PoolGate::new(1, 4, 50);
    gate.start(true).unwrap();
    gate
}

#[test]
fn defaults_match_the_declared_values() {
    assert_eq!(default_page_no(), 1);
    assert_eq!(default_page_size(), 20);
    assert!(!default_published());
}

#[test]
fn list_param_fills_defaults() {
    let p = PostListParam::from_parts(None, None);
    assert_eq!(p.page_no, 1);
    assert_eq!(p.page_size, 20);
    let p = PostListParam::from_parts(Some(3), Some(5));
    assert_eq!(p.page_no, 3);
    assert_eq!(p.page_size, 5);
    let p = PostListParam::from_parts(Some(0), None);
    assert_eq!(p.page_no, 1);
}

#[test]
fn store_refuses_duplicate_identifiers() {
    let mut store = PostStore::new();
    assert!(store.insert(post(1, "a")));
    assert!(!store.insert(post(1, "b")));
    assert_eq!(store.posts.len(), 1);
    assert_eq!(store.posts[0].title, "a");
}

#[test]
fn detail_finds_a_present_record() {
    let store = store_of(3);
    let mut gate = healthy_gate();
    let conn = gate.acquire().unwrap();
    let service = PostServiceImpl::new();
    let found = service.detail(&conn, &store, 2).expect("present records are found");
    assert_eq!(found.id, 2);
    assert_eq!(found.title, "post-2");
    gate.release(conn);
}

#[test]
fn detail_absent_record_is_a_business_not_found() {
    let store = store_of(3);
    let mut gate = healthy_gate();
    let conn = gate.acquire().unwrap();
    let service = PostServiceImpl::new();
    match service.detail(&conn, &store, 99) {
        Err(CommonError::Biz(b)) => {
            assert_eq!(b.code, NOT_FOUND_CODE);
            assert_eq!(b.message, "记录不存在");
        },
        Err(CommonError::Sys { .. }) => panic!("absence is a business outcome, not a system one"),
        Ok(_) => panic!("an absent record cannot be found"),
    }
    gate.release(conn);
}

#[test]
fn list_pages_in_storage_order() {
    let store = store_of(5);
    let mut gate = healthy_gate();
    let conn = gate.acquire().unwrap();
    let service = PostServiceImpl::new();
    let page = service
        .list(&conn, &store, &PostListParam { page_no: 1, page_size: 2 })
        .unwrap();
    assert_eq!(page.iter().map(|p| p.id).collect::<Vec<_>>(), vec![1, 2]);
    let page = service
        .list(&conn, &store, &PostListParam { page_no: 3, page_size: 2 })
        .unwrap();
    assert_eq!(page.iter().map(|p| p.id).collect::<Vec<_>>(), vec![5]);
    let page = service
        .list(&conn, &store, &PostListParam { page_no: 4, page_size: 2 })
        .unwrap();
    assert!(page.is_empty());
    gate.release(conn);
}

#[test]
fn create_is_refused_by_the_reference_backend() {
    let mut store = store_of(1);
    let mut gate = healthy_gate();
    let conn = gate.acquire().unwrap();
    let service = PostServiceImpl::new();
    match service.create(&conn, &mut store, post(9, "new")) {
        Err(CommonError::Biz(b)) => {
            assert_eq!(b.code, GENERAL_BUSINESS_CODE);
            assert_eq!(b.message, "Create post not implemented yet");
        },
        _ => panic!("the reference backend refuses creation as a business failure"),
    }
    assert_eq!(store.posts.len(), 1, "a refused creation leaves storage untouched");
    gate.release(conn);
}

#[test]
fn create_param_carries_fields() {
    let p = PostCreateParam {
        title: "t".to_string(),
        content: "c".to_string(),
        published: default_published(),
    };
    assert_eq!(p.title, "t");
    assert_eq!(p.content, "c");
    assert!(!p.published);
}

#[test]
fn list_endpoint_wraps_success_and_returns_the_lease() {
    let store = store_of(4);
    let mut gate = healthy_gate();
    let (env, diag) = list_posts(&mut gate, &store, &PostListParam { page_no: 2, page_size: 3 });
    assert_eq!(env.code, SUCCESS_CODE);
    let page = env.data.unwrap();
    assert_eq!(page.iter().map(|p| p.id).collect::<Vec<_>>(), vec![4]);
    assert!(env.message.is_none());
    assert!(diag.is_none());
    assert_eq!(gate.outstanding_count(), 0);
}

#[test]
fn detail_endpoint_found_and_not_found() {
    let store = store_of(2);
    let mut gate = healthy_gate();
    let (env, diag) = detail_post(&mut gate, &store, &PostDetailParam { post_id: 1 });
    assert_eq!(env.code, SUCCESS_CODE);
    assert_eq!(env.data.unwrap().id, 1);
    assert!(diag.is_none());
    let (env, diag) = detail_post(&mut gate, &store, &PostDetailParam { post_id: 42 });
    assert_eq!(env.code, NOT_FOUND_CODE);
    assert!(env.data.is_none());
    assert_eq!(env.message, Some("记录不存在".to_string()));
    assert!(diag.is_none(), "expected failures are not noise");
    assert_eq!(gate.outstanding_count(), 0);
}

#[test]
fn endpoints_surface_gate_failures_as_rendered_system_errors() {
    let store = store_of(1);
    let mut gate = PoolGate::new(1, 4, 50);
    // the probe never passed: acquisition is refused and the failure is rendered
    let (env, diag) = detail_post(&mut gate, &store, &PostDetailParam { post_id: 1 });
    assert_eq!(env.code, FAILED_CODE);
    assert!(env.data.is_none());
    assert_eq!(env.message, Some("连接池未在服务状态".to_string()));
    let rec = diag.expect("a system failure owes one diagnostic record");
    assert_eq!(rec.message, "连接池未在服务状态");
    assert_eq!(gate.outstanding_count(), 0);
}
