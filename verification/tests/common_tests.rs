use earningsfeed::PaginatedResponse;

#[test]
fn test_default() {
    let response: PaginatedResponse<i32> = PaginatedResponse::default();
    assert!(response.items.is_empty());
    assert!(response.next_cursor.is_none());
    assert!(!response.has_more);
}

#[test]
fn test_paginated_response_is_clone() {
    let response = PaginatedResponse {
        items: vec!["test".to_string()],
        next_cursor: Some("cursor".to_string()),
        has_more: true,
    };
    let cloned = response.clone();
    assert_eq!(cloned.items, response.items);
}

#[test]
fn test_paginated_response_is_debug() {
    let response: PaginatedResponse<i32> = PaginatedResponse::default();
    let debug_str = format!("{:?}", response);
    assert!(debug_str.contains("PaginatedResponse"));
}
