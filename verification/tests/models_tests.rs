use duckhub::models::{ApiResponse, Pagination, validate_pagination, calculate_offset, paginated_response};
use duckhub::health::{get_uptime, uptime_from, summarize_health, all_components_healthy};

#[test]
fn test_api_response_success() {
    let data = "test data";
    let request_id = "req-123".to_string();
    let response = ApiResponse::success(data, request_id.clone());

    assert!(response.success);
    assert_eq!(response.data, Some(data));
    assert_eq!(response.request_id, request_id);
    assert!(response.error.is_none());
}

#[test]
fn test_api_response_error() {
    let error = "Test error".to_string();
    let code = 400;
    let request_id = "req-123".to_string();
    let response = ApiResponse::<()>::error(error.clone(), code, request_id.clone());

    assert!(!response.success);
    assert_eq!(response.error, Some(error));
    assert_eq!(response.code, Some(code));
    assert_eq!(response.request_id, request_id);
    assert!(response.data.is_none());
}

#[test]
fn test_pagination() {
    let pagination = Pagination { page: 2, page_size: 10, total: 25, total_pages: 3, has_next: true, has_prev: true };

    assert_eq!(pagination.page, 2);
    assert_eq!(pagination.total_pages, 3);
    assert!(pagination.has_next);
    assert!(pagination.has_prev);
}

#[test]
fn test_get_uptime() {
    let uptime = get_uptime(0);
    assert!(uptime > 0);
}

#[test]
fn pagination_defaults_and_bounds() {
    assert_eq!(validate_pagination(None, None), (1, 20));
    assert_eq!(validate_pagination(Some(0), Some(0)), (1, 1));
    assert_eq!(validate_pagination(Some(7), Some(500)), (7, 100));
    assert_eq!(validate_pagination(Some(3), Some(50)), (3, 50));
    assert_eq!(calculate_offset(1, 20), 0);
    assert_eq!(calculate_offset(3, 25), 50);
}

#[test]
fn health_summary_needs_every_component() {
    let h = summarize_health(true, true, Some("healthy"));
    assert!(h.healthy);
    assert_eq!(h.status, "healthy");
    assert_eq!(h.http_status, 200);
    let h = summarize_health(true, false, Some("healthy"));
    assert!(!h.healthy);
    assert_eq!(h.cache, "unhealthy");
    assert_eq!(h.http_status, 503);
    let h = summarize_health(true, true, Some("degraded"));
    assert_eq!(h.ingestion, "unhealthy");
    assert!(!summarize_health(true, true, None).healthy);
    assert_eq!(uptime_from(0, None), 0);
    assert_eq!(uptime_from(0, Some(12)), 12);
    assert_eq!(uptime_from(10, Some(12)), 2);
    assert_eq!(uptime_from(20, Some(12)), 0);
    assert!(all_components_healthy(&vec!["healthy".to_string(), "healthy".to_string()]));
    assert!(!all_components_healthy(&vec!["healthy".to_string(), "unhealthy".to_string()]));
    assert!(all_components_healthy(&vec![]));
}

#[test]
fn pages_round_up() {
    let r = paginated_response(vec![1, 2, 3], 2, 3, 10);
    assert_eq!(r.data, vec![1, 2, 3]);
    assert_eq!(r.pagination.total_pages, 4);
    assert!(r.pagination.has_next);
    assert!(r.pagination.has_prev);
    let last = paginated_response(Vec::<u8>::new(), 4, 3, 9);
    assert_eq!(last.pagination.total_pages, 3);
    assert!(!last.pagination.has_next);
    let empty = paginated_response(Vec::<u8>::new(), 1, 20, 0);
    assert_eq!(empty.pagination.total_pages, 0);
    assert!(!empty.pagination.has_next);
    assert!(!empty.pagination.has_prev);
    let huge = paginated_response(Vec::<u8>::new(), 1, 1, u64::MAX);
    assert_eq!(huge.pagination.total_pages, u32::MAX);
}

#[test]
fn normalised_pages_stay_normalised() {
    for (p, s) in [(None, None), (Some(0), Some(0)), (Some(7), Some(500)), (Some(3), Some(20))] {
        let (a, b) = validate_pagination(p, s);
        assert_eq!(validate_pagination(Some(a), Some(b)), (a, b));
    }
    for (total, size) in [(1u64, 1u32), (10, 3), (9, 3), (100, 20), (101, 20)] {
        let pages = paginated_response(Vec::<u8>::new(), 1, size, total).pagination.total_pages as u64;
        assert!(pages * size as u64 >= total);
        assert!((pages - 1) * (size as u64) < total);
    }
}

#[test]
fn pages_of_no_items_follow_the_floating_point_division() {
    let some = paginated_response(vec![1u8], 1, 0, 5);
    assert_eq!(some.pagination.total_pages, u32::MAX);
    assert!(some.pagination.has_next);
    let none = paginated_response(Vec::<u8>::new(), 1, 0, 0);
    assert_eq!(none.pagination.total_pages, 0);
    assert!(!none.pagination.has_next);
    assert!(!none.pagination.has_prev);
}

#[test]
fn uptime_counts_from_the_start_of_the_service() {
    let now = std::time::SystemTime::now().duration_since(std::time::UNIX_EPOCH).unwrap().as_secs();
    let uptime = get_uptime(now - 100);
    assert!((100..=102).contains(&uptime));
    assert_eq!(get_uptime(now + 1000), 0);
}
