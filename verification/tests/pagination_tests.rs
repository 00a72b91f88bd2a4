use earningsfeed::{PageFlow, PaginatedResponse};

#[test]
fn test_two_page_sequence_follows_cursor_and_terminates() {
    let mut flow = PageFlow::new();
    assert!(flow.next_cursor().is_none());

    let page1 = PaginatedResponse {
        items: vec!["first".to_string()],
        next_cursor: Some("cursor_page_2".to_string()),
        has_more: true,
    };
    let emitted1 = flow.on_page(page1);
    assert_eq!(emitted1, vec!["first".to_string()]);
    assert!(!flow.is_done());
    // The second page is fetched with the cursor the first page named.
    assert_eq!(flow.next_cursor(), &Some("cursor_page_2".to_string()));

    let page2 = PaginatedResponse {
        items: vec!["second".to_string()],
        next_cursor: None,
        has_more: false,
    };
    let emitted2 = flow.on_page(page2);
    assert_eq!(emitted2, vec!["second".to_string()]);
    assert!(flow.is_done());
}

#[test]
fn test_single_page_terminates_without_second_request() {
    let mut flow = PageFlow::new();
    let page = PaginatedResponse {
        items: vec!["only".to_string()],
        next_cursor: None,
        has_more: false,
    };
    let emitted = flow.on_page(page);
    assert_eq!(emitted, vec!["only".to_string()]);
    assert!(flow.is_done());
}

#[test]
fn test_cursor_present_but_exhausted_is_ignored() {
    let mut flow = PageFlow::new();
    let page = PaginatedResponse {
        items: vec![1, 2, 3],
        next_cursor: Some("stale".to_string()),
        has_more: false,
    };
    let emitted = flow.on_page(page);
    assert_eq!(emitted, vec![1, 2, 3]);
    assert!(flow.is_done());
    // The stale cursor was never adopted.
    assert!(flow.next_cursor().is_none());
}

#[test]
fn test_has_more_without_cursor_stops_gracefully() {
    let mut flow = PageFlow::new();
    let page: PaginatedResponse<u32> = PaginatedResponse {
        items: vec![7],
        next_cursor: None,
        has_more: true,
    };
    let emitted = flow.on_page(page);
    assert_eq!(emitted, vec![7]);
    assert!(flow.is_done());
}

#[test]
fn test_error_ends_the_sequence() {
    let mut flow = PageFlow::new();
    let page: PaginatedResponse<u32> = PaginatedResponse {
        items: vec![],
        next_cursor: Some("next".to_string()),
        has_more: true,
    };
    let emitted = flow.on_page(page);
    assert!(emitted.is_empty());
    assert!(!flow.is_done());

    flow.on_error();
    assert!(flow.is_done());
}

#[test]
fn test_items_emitted_in_page_order() {
    let mut flow = PageFlow::new();
    let page = PaginatedResponse {
        items: vec!["a".to_string(), "b".to_string(), "c".to_string()],
        next_cursor: None,
        has_more: false,
    };
    let emitted = flow.on_page(page);
    assert_eq!(emitted, vec!["a".to_string(), "b".to_string(), "c".to_string()]);
}
