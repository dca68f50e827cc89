use notify_chime::negotiation::{
    is_valid_ladder, stream_buffer_frame_sizes, NegotiationStep, StreamNegotiation,
    StreamRequest,
};

/// Runs a negotiation against a device that accepts what `accepts` admits, and
/// gives the requests made and the last step.
fn drive(
    mut n: StreamNegotiation,
    accepts: impl Fn(StreamRequest) -> bool,
) -> (Vec<StreamRequest>, NegotiationStep) {
    let mut made = Vec::new();
    loop {
        let request = n.pending_request().expect("negotiation is pending");
        made.push(request);
        let step = n.report(accepts(request));
        match step {
            NegotiationStep::Retry { .. } => {}
            _ => {
                assert_eq!(n.pending_request(), None);
                return (made, step);
            }
        }
    }
}

#[test]
fn standard_sizes() {
    assert_eq!(stream_buffer_frame_sizes(), vec![16_384, 8_192, 4_096]);
}

#[test]
fn first_size_accepted_stops_at_once() {
    let (made, last) = drive(StreamNegotiation::standard(), |_| true);
    assert_eq!(made, vec![StreamRequest::Fixed(16_384)]);
    assert_eq!(last, NegotiationStep::Opened(StreamRequest::Fixed(16_384)));
}

#[test]
fn sizes_are_tried_in_descending_order() {
    let (made, last) =
        drive(StreamNegotiation::standard(), |r| r == StreamRequest::Fixed(4_096));
    assert_eq!(
        made,
        vec![
            StreamRequest::Fixed(16_384),
            StreamRequest::Fixed(8_192),
            StreamRequest::Fixed(4_096)
        ]
    );
    assert_eq!(last, NegotiationStep::Opened(StreamRequest::Fixed(4_096)));
}

#[test]
fn driver_default_after_every_size_fails() {
    let mut n = StreamNegotiation::standard();
    assert_eq!(n.pending_request(), Some(StreamRequest::Fixed(16_384)));
    assert_eq!(
        n.report(false),
        NegotiationStep::Retry { request: StreamRequest::Fixed(8_192), falling_back: false }
    );
    assert_eq!(
        n.report(false),
        NegotiationStep::Retry { request: StreamRequest::Fixed(4_096), falling_back: false }
    );
    assert_eq!(
        n.report(false),
        NegotiationStep::Retry { request: StreamRequest::DriverDefault, falling_back: true }
    );
    assert_eq!(n.report(true), NegotiationStep::Opened(StreamRequest::DriverDefault));
    assert_eq!(n.pending_request(), None);
}

#[test]
fn unhealthy_device_exhausts() {
    let (made, last) = drive(StreamNegotiation::standard(), |_| false);
    assert_eq!(made.len(), 4);
    assert_eq!(made[3], StreamRequest::DriverDefault);
    assert_eq!(last, NegotiationStep::Exhausted);
}

#[test]
fn single_size_ladder() {
    let n = StreamNegotiation::new(vec![512]).unwrap();
    let (made, last) = drive(n, |r| r == StreamRequest::DriverDefault);
    assert_eq!(made, vec![StreamRequest::Fixed(512), StreamRequest::DriverDefault]);
    assert_eq!(last, NegotiationStep::Opened(StreamRequest::DriverDefault));
}

#[test]
fn invalid_ladders_are_refused() {
    assert!(StreamNegotiation::new(Vec::new()).is_none());
    assert!(StreamNegotiation::new(vec![4_096, 8_192]).is_none());
    assert!(StreamNegotiation::new(vec![8_192, 8_192]).is_none());
    assert!(StreamNegotiation::new(vec![8_192, 0]).is_none());
    assert!(!is_valid_ladder(&vec![3, 2, 2]));
    assert!(is_valid_ladder(&vec![3, 2, 1]));
    assert!(StreamNegotiation::new(vec![u32::MAX, 1]).is_some());
}
