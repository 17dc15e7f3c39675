use topstories::{
    handle_response, init, placeholder, shape, update, view, Cmd, FetchError, Item, Model, Msg,
};

fn ids(v: &[i64]) -> Vec<Item> {
    v.iter().map(|&id| Item { id }).collect()
}

#[test]
fn init_is_idle_and_triggers_fetch() {
    let (model, first) = init();
    assert!(model.items.is_none());
    assert_eq!(first, Msg::Fetching);
}

#[test]
fn fetching_requests_the_network_call() {
    let (mut model, first) = init();
    let cmd = update(first, &mut model);
    assert_eq!(cmd, Some(Cmd::Fetch));
    assert!(model.items.is_none());
}

#[test]
fn fetched_stores_the_payload() {
    let mut model = Model::default();
    let cmd = update(Msg::Fetched(ids(&[3, 1, 2])), &mut model);
    assert_eq!(cmd, None);
    assert_eq!(model.items, Some(ids(&[3, 1, 2])));
}

#[test]
fn shape_truncates_a_long_list() {
    let out = shape(vec![1, 2, 3, 4, 5, 6, 7, 8, 9, 10, 11, 12]);
    assert_eq!(out, ids(&[1, 2, 3, 4, 5, 6, 7, 8, 9, 10]));
}

#[test]
fn shape_keeps_a_short_list_whole() {
    assert_eq!(shape(vec![7, 8]), ids(&[7, 8]));
    assert_eq!(shape(vec![]), ids(&[]));
}

#[test]
fn shape_keeps_exactly_ten() {
    let out = shape(vec![10, 9, 8, 7, 6, 5, 4, 3, 2, 1]);
    assert_eq!(out, ids(&[10, 9, 8, 7, 6, 5, 4, 3, 2, 1]));
}

#[test]
fn render_is_idempotent() {
    let idle = Model { items: None };
    assert_eq!(view(&idle), view(&idle));
    let loaded = Model { items: Some(ids(&[5, 6])) };
    assert_eq!(view(&loaded), view(&loaded));
}

#[test]
fn render_idle_is_an_empty_list() {
    let page = view(&Model { items: None });
    assert_eq!(page.list.entries.len(), 0);
}

#[test]
fn render_loaded_emits_one_placeholder_per_item() {
    let page = view(&Model { items: Some(ids(&[11, 22, 33])) });
    assert_eq!(page.list.entries.len(), 3);
    for entry in &page.list.entries {
        assert_eq!(entry.label, placeholder());
    }
}

#[test]
fn placeholder_ignores_item_identity() {
    let a = view(&Model { items: Some(ids(&[1])) });
    let b = view(&Model { items: Some(ids(&[999])) });
    assert_eq!(a, b);
}

#[test]
fn end_to_end_twelve_ids() {
    let (mut model, first) = init();
    let cmd = update(first, &mut model);
    assert_eq!(cmd, Some(Cmd::Fetch));
    let msg = handle_response(200, "[1,2,3,4,5,6,7,8,9,10,11,12]").unwrap();
    assert_eq!(msg, Msg::Fetched(ids(&[1, 2, 3, 4, 5, 6, 7, 8, 9, 10])));
    update(msg, &mut model);
    assert_eq!(model.items, Some(ids(&[1, 2, 3, 4, 5, 6, 7, 8, 9, 10])));
    let page = view(&model);
    assert_eq!(page.list.entries.len(), 10);
    for entry in &page.list.entries {
        assert_eq!(entry.label, placeholder());
    }
}

#[test]
fn end_to_end_single_id() {
    let (mut model, first) = init();
    update(first, &mut model);
    let msg = handle_response(200, "[42]").unwrap();
    assert_eq!(msg, Msg::Fetched(ids(&[42])));
    update(msg, &mut model);
    assert_eq!(model.items, Some(ids(&[42])));
    assert_eq!(view(&model).list.entries.len(), 1);
}

#[test]
fn end_to_end_bad_status_leaves_idle() {
    let (mut model, first) = init();
    update(first, &mut model);
    let r = handle_response(404, "[1,2,3]");
    assert_eq!(r, Err(FetchError::BadStatus));
    assert!(model.items.is_none());
    assert_eq!(view(&model).list.entries.len(), 0);
}

#[test]
fn status_classes() {
    assert!(handle_response(204, "[1]").is_ok());
    assert!(handle_response(299, "[1]").is_ok());
    assert_eq!(handle_response(300, "[1]"), Err(FetchError::BadStatus));
    assert_eq!(handle_response(199, "[1]"), Err(FetchError::BadStatus));
    assert_eq!(handle_response(500, "[1]"), Err(FetchError::BadStatus));
}

#[test]
fn malformed_bodies_are_rejected() {
    assert_eq!(handle_response(200, "not json"), Err(FetchError::BadBody));
    assert_eq!(handle_response(200, "{\"a\":1}"), Err(FetchError::BadBody));
    assert_eq!(handle_response(200, "[1,\"x\"]"), Err(FetchError::BadBody));
    assert_eq!(handle_response(200, "[1,2,"), Err(FetchError::BadBody));
}

#[test]
fn parsed_ids_come_from_the_body() {
    let msg = handle_response(200, "[5,6,7]").unwrap();
    assert_eq!(msg, Msg::Fetched(ids(&[5, 6, 7])));
}

#[test]
fn endpoint_is_the_top_stories_list() {
    assert_eq!(
        topstories::endpoint_url(),
        "https://hacker-news.firebaseio.com/v0/topstories.json"
    );
}
