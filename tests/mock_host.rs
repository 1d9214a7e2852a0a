use offchain::mock::MockHost;
use offchain::{Duration, Externalities, HttpRequestId, HttpRequestStatus, Timestamp};

fn host() -> MockHost {
    MockHost::new(Timestamp::from_unix_millis(1_000), 200)
}

fn read_all<E: Externalities>(ext: &mut E, id: HttpRequestId, chunk: usize) -> Vec<u8> {
    let mut body = Vec::new();
    let mut buffer = vec![0u8; chunk];
    loop {
        let n = ext.http_response_read_body(id, &mut buffer, None).unwrap();
        if n == 0 {
            return body;
        }
        body.extend_from_slice(&buffer[..n]);
    }
}

#[test]
fn end_to_end_request() {
    let mut ext = host();
    let id = ext.http_request_start("POST", "http://localhost:1234", &[]).unwrap();
    ext.http_request_add_header(id, "X-Auth", "hunter2").unwrap();
    ext.http_request_write_body(id, b"1234567890", None).unwrap();
    ext.http_request_write_body(id, &[], None).unwrap();
    assert_eq!(ext.http_response_wait(&[id], None), vec![HttpRequestStatus::Finished(200)]);
    assert_eq!(
        ext.http_response_headers(id),
        vec![(b"X-Auth".to_vec(), b"hunter2".to_vec())]
    );
    assert_eq!(read_all(&mut ext, id, 3), b"1234567890".to_vec());
    let mut buffer = [7u8; 4];
    assert_eq!(ext.http_response_read_body(id, &mut buffer, None), Ok(0));
    assert_eq!(buffer, [7u8; 4]);
}

#[test]
fn read_fills_only_the_front_of_the_buffer() {
    let mut ext = host();
    let id = ext.http_request_start("GET", "http://a", &[]).unwrap();
    ext.http_request_write_body(id, &[1, 2, 3], None).unwrap();
    ext.http_request_write_body(id, &[], None).unwrap();
    let mut buffer = [9u8; 5];
    assert_eq!(ext.http_response_read_body(id, &mut buffer, None), Ok(3));
    assert_eq!(buffer, [1, 2, 3, 9, 9]);
    let mut small = [0u8; 2];
    assert_eq!(ext.http_response_read_body(id, &mut small, None), Ok(0));
}

#[test]
fn header_after_finalising_fails() {
    let mut ext = host();
    let id = ext.http_request_start("GET", "http://a", &[]).unwrap();
    assert_eq!(ext.http_request_add_header(id, "A", "1"), Ok(()));
    assert_eq!(ext.http_request_write_body(id, &[], None), Ok(()));
    assert_eq!(ext.http_request_add_header(id, "B", "2"), Err(()));
    assert_eq!(ext.http_request_write_body(id, b"more", None), Err(()));
    assert_eq!(ext.http_request_write_body(id, &[], None), Err(()));
    assert_eq!(ext.http_response_headers(id), vec![(b"A".to_vec(), b"1".to_vec())]);
}

#[test]
fn unknown_ids_fail_writes_and_read_as_unknown() {
    let mut ext = host();
    let known = ext.http_request_start("GET", "http://a", &[]).unwrap();
    let stranger = HttpRequestId(77);
    assert_eq!(ext.http_request_add_header(stranger, "A", "1"), Err(()));
    assert_eq!(ext.http_request_write_body(stranger, b"x", None), Err(()));
    assert_eq!(ext.http_response_headers(stranger), Vec::<(Vec<u8>, Vec<u8>)>::new());
    let mut buffer = [0u8; 4];
    assert_eq!(ext.http_response_read_body(stranger, &mut buffer, None), Err(()));
    ext.http_request_write_body(known, &[], None).unwrap();
    assert_eq!(
        ext.http_response_wait(&[stranger, known, stranger], None),
        vec![
            HttpRequestStatus::Unknown,
            HttpRequestStatus::Finished(200),
            HttpRequestStatus::Unknown
        ]
    );
}

#[test]
fn wait_reports_one_status_per_id_in_order() {
    let mut ext = host();
    let a = ext.http_request_start("GET", "http://a", &[]).unwrap();
    let b = ext.http_request_start("GET", "http://b", &[]).unwrap();
    assert_eq!(a, HttpRequestId(0));
    assert_eq!(b, HttpRequestId(1));
    ext.http_request_write_body(b, &[], None).unwrap();
    let deadline = Some(Timestamp::from_unix_millis(2_000));
    assert_eq!(
        ext.http_response_wait(&[a, b, a], deadline),
        vec![
            HttpRequestStatus::DeadlineReached,
            HttpRequestStatus::Finished(200),
            HttpRequestStatus::DeadlineReached
        ]
    );
    assert_eq!(
        ext.http_response_wait(&[b, a], None),
        vec![HttpRequestStatus::Finished(200), HttpRequestStatus::Timeout]
    );
    assert_eq!(ext.http_response_wait(&[], None), Vec::<HttpRequestStatus>::new());
    assert_eq!(ext.http_response_headers(a), Vec::<(Vec<u8>, Vec<u8>)>::new());
}

#[test]
fn passed_deadlines_fail_without_changing_the_request() {
    let mut ext = host();
    let id = ext.http_request_start("PUT", "http://a", b"meta").unwrap();
    ext.advance(Duration::from_millis(500));
    assert_eq!(ext.now().unix_millis(), 1_500);
    let past = Some(Timestamp::from_unix_millis(1_499));
    let future = Some(Timestamp::from_unix_millis(1_500));
    assert_eq!(ext.http_request_write_body(id, b"ab", past), Err(()));
    assert_eq!(ext.http_request_write_body(id, &[], past), Err(()));
    assert_eq!(ext.http_request_write_body(id, b"cd", future), Ok(()));
    assert_eq!(ext.http_request_write_body(id, &[], future), Ok(()));
    let mut buffer = [0u8; 8];
    assert_eq!(ext.http_response_read_body(id, &mut buffer, past), Err(()));
    assert_eq!(ext.http_response_read_body(id, &mut buffer, future), Ok(2));
    assert_eq!(&buffer[..2], b"cd");
}

#[test]
fn reading_before_the_body_is_finalised_fails() {
    let mut ext = host();
    let id = ext.http_request_start("GET", "http://a", &[]).unwrap();
    ext.http_request_write_body(id, b"abc", None).unwrap();
    let mut buffer = [0u8; 8];
    assert_eq!(ext.http_response_read_body(id, &mut buffer, None), Err(()));
    assert_eq!(ext.http_response_headers(id), Vec::<(Vec<u8>, Vec<u8>)>::new());
}

#[test]
fn submit_and_clock_need_the_capability() {
    let mut ext = host();
    assert_eq!(ext.timestamp(), Ok(1_000));
    assert_eq!(ext.submit_extrinsic(vec![1, 2, 3]), Ok(()));
    assert_eq!(ext.submitted_count(), 1);
    ext.set_available(false);
    assert_eq!(ext.timestamp(), Err(()));
    assert_eq!(ext.submit_extrinsic(vec![4]), Err(()));
    assert_eq!(ext.submitted_count(), 1);
    ext.set_available(true);
    ext.advance(Duration::from_millis(u64::MAX));
    assert_eq!(ext.timestamp(), Ok(u64::MAX));
}

#[test]
fn ids_run_out_after_every_u16_value() {
    let mut ext = host();
    for i in 0..=u16::MAX {
        assert_eq!(ext.http_request_start("GET", "http://a", &[]), Ok(HttpRequestId(i)));
    }
    assert_eq!(ext.http_request_start("GET", "http://a", &[]), Err(()));
}

fn script<E: Externalities>(ext: &mut E) -> Vec<String> {
    let mut log = Vec::new();
    log.push(format!("{:?}", ext.timestamp()));
    log.push(format!("{:?}", ext.submit_extrinsic(vec![9, 9])));
    let a = ext.http_request_start("GET", "http://a", &[1]);
    log.push(format!("{:?}", a));
    let a = a.unwrap();
    let b = ext.http_request_start("POST", "http://b", &[]).unwrap();
    log.push(format!("{:?}", ext.http_request_add_header(a, "K", "V")));
    log.push(format!("{:?}", ext.http_request_add_header(HttpRequestId(40), "K", "V")));
    log.push(format!("{:?}", ext.http_request_write_body(a, b"hello", None)));
    log.push(format!("{:?}", ext.http_request_write_body(a, &[], None)));
    log.push(format!("{:?}", ext.http_request_add_header(a, "L", "W")));
    log.push(format!(
        "{:?}",
        ext.http_response_wait(&[a, b, HttpRequestId(40)], Some(Timestamp::from_unix_millis(5)))
    ));
    log.push(format!("{:?}", ext.http_response_headers(a)));
    log.push(format!("{:?}", ext.http_response_headers(b)));
    let mut buffer = [0u8; 2];
    for _ in 0..4 {
        log.push(format!("{:?}", ext.http_response_read_body(a, &mut buffer, None)));
        log.push(format!("{:?}", buffer));
    }
    log.push(format!("{:?}", ext.http_response_read_body(b, &mut buffer, None)));
    log
}

#[test]
fn boxed_host_behaves_as_the_host_inside() {
    let mut direct = host();
    let mut boxed: Box<MockHost> = Box::new(host());
    let from_direct = script(&mut direct);
    let from_boxed = script(&mut boxed);
    assert_eq!(from_direct, from_boxed);
    assert_eq!(from_direct[8], "[Finished(200), DeadlineReached, Unknown]");
    assert_eq!(direct.submitted_count(), boxed.submitted_count());
}
