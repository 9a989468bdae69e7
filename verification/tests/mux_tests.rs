use tagmux::error::MuxError;
use tagmux::frame::{handle_request, handler_body, Frame, Tagged};
use tagmux::mux::{CallOutcome, MuxClient};
use tagmux::tagger::Tagger;

fn frame(delay: i32, content: &str) -> Frame {
    Frame {
        delay,
        content: content.to_string(),
    }
}

#[test]
fn handler_greets_and_keeps_delay() {
    let resp = handler_body(&frame(7, "Bob !"));
    assert_eq!(resp.delay, 7);
    assert_eq!(resp.content, "Hello, Bob !");
}

#[test]
fn server_relays_the_request_tag() {
    let req = Tagged {
        tag: 42,
        v: frame(1, "x"),
    };
    let resp = handle_request(&req);
    assert_eq!(resp.tag, 42);
    assert_eq!(resp.v.content, "Hello, x");
    assert_eq!(resp.v.delay, 1);
}

#[test]
fn from_gives_the_placeholder_tag() {
    let t = Tagged::from(frame(5, "Bob !"));
    assert_eq!(t.tag, 0);
    assert_eq!(t.v, frame(5, "Bob !"));
}

#[test]
fn tags_unique_while_outstanding() {
    let mut tagger = Tagger::default();
    let mut seen = Vec::new();
    for _ in 0..10 {
        let t = tagger.allocate().unwrap();
        assert!(!seen.contains(&t), "tag {} handed out twice", t);
        seen.push(t);
    }
}

#[test]
fn tag_reuse_only_after_release() {
    let mut tagger = Tagger::new();
    let t1 = tagger.allocate().unwrap();
    let t2 = tagger.allocate().unwrap();
    assert_ne!(t1, t2);
    assert_eq!(tagger.release(t1), Ok(()));
    // releasing again is a detected logic error, not a silent no-op
    assert_eq!(tagger.release(t1), Err(MuxError::DuplicateRelease));
    // t2 is still outstanding, so a fresh tag must avoid it
    let t3 = tagger.allocate().unwrap();
    assert_ne!(t3, t2);
}

#[test]
fn assign_and_finish_tag() {
    let mut tagger = Tagger::default();
    let mut env = Tagged::from(frame(2, "payload"));
    let tag = tagger.assign_tag(&mut env).unwrap();
    assert_eq!(env.tag, tag);
    assert_eq!(env.v, frame(2, "payload"));
    let back = tagger.finish_tag(&env).unwrap();
    assert_eq!(back, tag);
    assert_eq!(tagger.finish_tag(&env), Err(MuxError::DuplicateRelease));
}

#[test]
fn responses_resolve_in_completion_order() {
    // client issues 5 calls with delays [5, 4, 1, 2, 1]; responses come back
    // in the order the delays elapse, and each must resolve its own call
    let delays = [5, 4, 1, 2, 1];
    let mut client = MuxClient::new();
    let mut envelopes = Vec::new();
    for (i, d) in delays.iter().enumerate() {
        assert!(client.ready());
        let env = client.begin_call(frame(*d, &format!("call-{}", i))).unwrap();
        envelopes.push(env);
    }
    // the server answers each request, echoing its tag
    let responses: Vec<Tagged<Frame>> = envelopes.iter().map(handle_request).collect();
    // delays elapse as [1, 1, 2, 4, 5]: calls 2, 4, 3, 1, 0 in that order
    for &i in &[2usize, 4, 3, 1, 0] {
        let done = client.on_response(&responses[i]).unwrap();
        assert_eq!(done.tag, envelopes[i].tag);
        assert_eq!(done.request, frame(delays[i], &format!("call-{}", i)));
        match done.outcome {
            CallOutcome::Response(p) => {
                assert_eq!(p.content, format!("Hello, call-{}", i));
                assert_eq!(p.delay, delays[i]);
            }
            CallOutcome::Failed(e) => panic!("call {} failed: {:?}", i, e),
        }
    }
}

#[test]
fn unknown_tag_leaves_other_calls_untouched() {
    let mut client = MuxClient::new();
    let mut envelopes = Vec::new();
    for i in 0..5 {
        envelopes.push(client.begin_call(frame(i, &format!("call-{}", i))).unwrap());
    }
    // a crafted response under a tag no outstanding request carries
    let spoof = Tagged {
        tag: 999,
        v: frame(0, "spoof"),
    };
    assert_eq!(
        client.on_response(&spoof).err(),
        Some(MuxError::UnknownTag)
    );
    // the 5 pending calls still complete normally
    for (i, env) in envelopes.iter().enumerate() {
        let done = client.on_response(&handle_request(env)).unwrap();
        assert_eq!(done.tag, env.tag);
        assert_eq!(done.request.content, format!("call-{}", i));
    }
}

#[test]
fn stream_failure_resolves_every_outstanding_call() {
    let mut client = MuxClient::new();
    let mut envelopes = Vec::new();
    for i in 0..4 {
        envelopes.push(client.begin_call(frame(i, &format!("call-{}", i))).unwrap());
    }
    let failed = client.fail_all();
    assert_eq!(failed.len(), 4);
    let mut tags: Vec<u32> = failed.iter().map(|c| c.tag).collect();
    tags.sort();
    tags.dedup();
    assert_eq!(tags.len(), 4, "every call resolved exactly once");
    for c in &failed {
        match c.outcome {
            CallOutcome::Failed(e) => assert_eq!(e, MuxError::Transport),
            CallOutcome::Response(_) => panic!("resolved with a response after failure"),
        }
        let env = envelopes.iter().find(|e| e.tag == c.tag).unwrap();
        assert_eq!(c.request, env.v);
    }
    // the connection is closed and its table empty
    assert!(!client.ready());
    assert_eq!(
        client.on_response(&handle_request(&envelopes[0])).err(),
        Some(MuxError::UnknownTag)
    );
}

#[test]
fn completion_pairs_response_with_its_own_request() {
    let mut client = MuxClient::new();
    let a = client.begin_call(frame(9, "first")).unwrap();
    let b = client.begin_call(frame(1, "second")).unwrap();
    // the second call's response arrives first
    let done_b = client.on_response(&handle_request(&b)).unwrap();
    assert_eq!(done_b.request.content, "second");
    let done_a = client.on_response(&handle_request(&a)).unwrap();
    assert_eq!(done_a.request.content, "first");
}
