use offchain::HttpRequestStatus;

#[test]
fn parses_each_assigned_code() {
    assert_eq!(HttpRequestStatus::from_u16(0), Some(HttpRequestStatus::Unknown));
    assert_eq!(HttpRequestStatus::from_u16(10), Some(HttpRequestStatus::DeadlineReached));
    assert_eq!(HttpRequestStatus::from_u16(20), Some(HttpRequestStatus::Timeout));
    assert_eq!(HttpRequestStatus::from_u16(99), None);
    assert_eq!(HttpRequestStatus::from_u16(100), Some(HttpRequestStatus::Finished(100)));
    assert_eq!(HttpRequestStatus::from_u16(200), Some(HttpRequestStatus::Finished(200)));
    assert_eq!(HttpRequestStatus::from_u16(999), Some(HttpRequestStatus::Finished(999)));
    assert_eq!(HttpRequestStatus::from_u16(1000), None);
}

#[test]
fn rejects_unassigned_internal_codes() {
    for c in [1u16, 9, 11, 19, 21, 50, 98] {
        assert_eq!(HttpRequestStatus::from_u16(c), None);
    }
    assert_eq!(HttpRequestStatus::from_u16(u16::MAX), None);
}

#[test]
fn every_code_parses_back_from_its_status() {
    for c in 0..=u16::MAX {
        match HttpRequestStatus::from_u16(c) {
            Some(s) => assert_eq!(s.to_u16(), Some(c)),
            None => assert!(!(c == 0 || c == 10 || c == 20 || (100..=999).contains(&c))),
        }
    }
}

#[test]
fn out_of_range_finished_has_no_code() {
    assert_eq!(HttpRequestStatus::Finished(42).to_u16(), None);
    assert_eq!(HttpRequestStatus::Finished(1000).to_u16(), None);
    assert_eq!(HttpRequestStatus::Finished(404).to_u16(), Some(404));
    assert_eq!(HttpRequestStatus::Timeout.to_u16(), Some(20));
}
