use tmux_gateway_core::pagination::{paginate, Pagination};

fn sample_data() -> Vec<i32> {
    vec![1, 2, 3, 4, 5]
}

#[test]
fn default_pagination_returns_all() {
    let result = paginate(sample_data(), &Pagination::default());
    assert_eq!(result.items, vec![1, 2, 3, 4, 5]);
    assert_eq!(result.total, 5);
    assert!(!result.has_more);
}

#[test]
fn limit_only() {
    let result = paginate(
        sample_data(),
        &Pagination {
            offset: 0,
            limit: Some(3),
        },
    );
    assert_eq!(result.items, vec![1, 2, 3]);
    assert_eq!(result.total, 5);
    assert!(result.has_more);
}

#[test]
fn offset_only() {
    let result = paginate(
        sample_data(),
        &Pagination {
            offset: 2,
            limit: None,
        },
    );
    assert_eq!(result.items, vec![3, 4, 5]);
    assert_eq!(result.total, 5);
    assert!(!result.has_more);
}

#[test]
fn offset_and_limit() {
    let result = paginate(
        sample_data(),
        &Pagination {
            offset: 1,
            limit: Some(2),
        },
    );
    assert_eq!(result.items, vec![2, 3]);
    assert_eq!(result.total, 5);
    assert!(result.has_more);
}

#[test]
fn offset_at_end() {
    let result = paginate(
        sample_data(),
        &Pagination {
            offset: 5,
            limit: Some(10),
        },
    );
    assert!(result.items.is_empty());
    assert_eq!(result.total, 5);
    assert!(!result.has_more);
}

#[test]
fn offset_beyond_total() {
    let result = paginate(
        sample_data(),
        &Pagination {
            offset: 100,
            limit: Some(10),
        },
    );
    assert!(result.items.is_empty());
    assert_eq!(result.total, 5);
    assert!(!result.has_more);
}

#[test]
fn limit_larger_than_remaining() {
    let result = paginate(
        sample_data(),
        &Pagination {
            offset: 3,
            limit: Some(100),
        },
    );
    assert_eq!(result.items, vec![4, 5]);
    assert_eq!(result.total, 5);
    assert!(!result.has_more);
}

#[test]
fn empty_input() {
    let result = paginate(
        Vec::<i32>::new(),
        &Pagination {
            offset: 0,
            limit: Some(10),
        },
    );
    assert!(result.items.is_empty());
    assert_eq!(result.total, 0);
    assert!(!result.has_more);
}

#[test]
fn limit_zero() {
    let result = paginate(
        sample_data(),
        &Pagination {
            offset: 0,
            limit: Some(0),
        },
    );
    assert!(result.items.is_empty());
    assert_eq!(result.total, 5);
    assert!(result.has_more);
}
