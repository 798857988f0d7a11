use echo_bench::payload::build_request;
use echo_bench::payload::is_transfer_complete;
use echo_bench::payload::reply_buffer;
use echo_bench::payload::TERMINATOR;

#[test]
fn terminator_is_a_line_feed() {
    assert_eq!(TERMINATOR, b'\n');
}

#[test]
fn request_of_length_one_is_the_terminator() {
    assert_eq!(build_request(1), vec![b'\n']);
}

#[test]
fn request_is_zeros_then_the_terminator() {
    assert_eq!(build_request(4), vec![0, 0, 0, b'\n']);
    let request = build_request(512);
    assert_eq!(request.len(), 512);
    assert_eq!(request[511], b'\n');
    assert!(request[..511].iter().all(|byte| *byte == 0));
}

#[test]
fn reply_buffer_is_zeroed() {
    assert_eq!(reply_buffer(0), Vec::<u8>::new());
    assert_eq!(reply_buffer(3), vec![0, 0, 0]);
    assert_eq!(reply_buffer(64).len(), 64);
}

#[test]
fn transfer_is_complete_only_with_all_bytes() {
    assert!(is_transfer_complete(64, Some(64)));
    assert!(!is_transfer_complete(64, Some(63)));
    assert!(!is_transfer_complete(64, Some(65)));
    assert!(!is_transfer_complete(64, Some(0)));
    assert!(!is_transfer_complete(64, None));
    assert!(is_transfer_complete(1, Some(1)));
}
