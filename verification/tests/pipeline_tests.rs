use tagmux::codec::{decode_envelope, encode_envelope, frame_wire};
use tagmux::deframer::Deframer;
use tagmux::error::MuxError;
use tagmux::frame::{handle_request, Frame};
use tagmux::mux::{CallOutcome, MuxClient};

fn frame(delay: i32, content: &str) -> Frame {
    Frame {
        delay,
        content: content.to_string(),
    }
}

#[test]
fn full_wire_round_trip_between_client_and_server() {
    let mut client = MuxClient::new();
    // the client's send path turns one call into one stream frame
    let (tag, wire) = client.send(frame(2, "Bob !")).unwrap();

    // the server's reader cuts the envelope back out of the stream
    let mut server_reader = Deframer::new();
    let request_bytes = server_reader.read_wire(&wire).unwrap();
    let request = decode_envelope(&request_bytes).unwrap();
    assert_eq!(request.tag, tag);
    assert_eq!(request.v.content, "Bob !");

    // the server answers under the unchanged tag, as one stream frame
    let response = handle_request(&request);
    let response_bytes = encode_envelope(&response).unwrap();
    let response_wire = frame_wire(&response_bytes).unwrap();

    // the client's reader and receive path route it to the original call
    let mut client_reader = Deframer::new();
    let envelope = client_reader.read_wire(&response_wire).unwrap();
    let done = client.receive(&envelope).unwrap();
    assert_eq!(done.tag, tag);
    assert_eq!(done.request.content, "Bob !");
    match done.outcome {
        CallOutcome::Response(p) => {
            assert_eq!(p.content, "Hello, Bob !");
            assert_eq!(p.delay, 2);
        }
        CallOutcome::Failed(e) => panic!("call failed: {:?}", e),
    }
}

#[test]
fn receive_rejects_garbage_without_disturbing_calls() {
    let mut client = MuxClient::new();
    let (tag, wire) = client.send(frame(1, "pending")).unwrap();

    // bytes that are no envelope are reported, not routed
    assert_eq!(client.receive(&[1, 2, 3]).err(), Some(MuxError::Malformed));

    // the pending call still completes normally afterwards
    let mut reader = Deframer::new();
    let request_bytes = reader.read_wire(&wire).unwrap();
    let request = decode_envelope(&request_bytes).unwrap();
    let response_bytes = encode_envelope(&handle_request(&request)).unwrap();
    let done = client.receive(&response_bytes).unwrap();
    assert_eq!(done.tag, tag);
    assert_eq!(done.request.content, "pending");
}

#[test]
fn receive_reports_unknown_tags_from_the_wire() {
    let mut client = MuxClient::new();
    let (_tag, _wire) = client.send(frame(1, "pending")).unwrap();
    // a well-formed envelope under a tag nobody is waiting on
    let spoofed = encode_envelope(&handle_request(&decode_envelope(
        &encode_envelope(&tagmux::frame::Tagged {
            tag: 7777,
            v: frame(0, "spoof"),
        })
        .unwrap(),
    )
    .unwrap()))
    .unwrap();
    assert_eq!(client.receive(&spoofed).err(), Some(MuxError::UnknownTag));
}
