use euterpe_server::library::stream::{audio_response_plan, parse_bytes_range, AudioResponsePlan};

#[test]
fn parse_range_prefix() {
    let r = parse_bytes_range("bytes=0-1023", 5000).unwrap();
    assert_eq!(r.start, 0);
    assert_eq!(r.end, 1023);
}

#[test]
fn parse_range_suffix() {
    let r = parse_bytes_range("bytes=-500", 2000).unwrap();
    assert_eq!(r.start, 1500);
    assert_eq!(r.end, 1999);
}

#[test]
fn parse_range_open_end() {
    let r = parse_bytes_range("bytes=100-", 2000).unwrap();
    assert_eq!(r.start, 100);
    assert_eq!(r.end, 1999);
}

#[test]
fn ranges_are_clamped_or_refused() {
    assert_eq!(parse_bytes_range("bytes=10-99999", 100).unwrap().end, 99);
    assert_eq!(parse_bytes_range("bytes=-500", 100).unwrap().start, 0);
    assert!(parse_bytes_range("bytes=0-1,5-6", 100).is_err());
    assert!(parse_bytes_range("bytes=100-", 100).is_err());
    assert!(parse_bytes_range("bytes=5-2", 100).is_err());
    assert!(parse_bytes_range("bytes=-0", 100).is_err());
    assert!(parse_bytes_range("items=0-1", 100).is_err());
    assert!(parse_bytes_range("bytes=0-1", 0).is_err());
}

#[test]
fn response_plans() {
    match audio_response_plan(Some("bytes=2-5"), 10) {
        AudioResponsePlan::Partial {
            start,
            length,
            content_range,
        } => {
            assert_eq!(start, 2);
            assert_eq!(length, 4);
            assert_eq!(content_range, "bytes 2-5/10");
        }
        other => panic!("{other:?}"),
    }
    match audio_response_plan(Some("bytes=20-"), 10) {
        AudioResponsePlan::Unsatisfiable { content_range } => {
            assert_eq!(content_range, "bytes */10")
        }
        other => panic!("{other:?}"),
    }
    assert!(matches!(
        audio_response_plan(None, 10),
        AudioResponsePlan::Full { length: 10 }
    ));
}
