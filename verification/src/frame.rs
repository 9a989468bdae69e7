use vstd::prelude::*;
use vstd::string::StringExecFns;

verus! {

/// The application payload carried by each exchange: a content string and an
/// artificial delay (in seconds) that the server's handler is asked to wait
/// before answering.
#[derive(Debug)]
pub struct Frame {
    pub delay: i32,
    pub content: String,
}

/// The mathematical model of a [`Frame`]: its delay and the characters of its
/// content.
pub struct FrameView {
    pub delay: i32,
    pub content: Seq<char>,
}

impl View for Frame {
    type V = FrameView;

    open spec fn view(&self) -> FrameView {
        FrameView { delay: self.delay, content: self.content@ }
    }
}

impl Frame {
    /// An exact copy; the multiplexer keeps one copy of a request in its
    /// outstanding table while the other travels to the wire.
    pub fn duplicate(&self) -> (r: Frame)
        ensures
            r == *self,
    {
        Frame { delay: self.delay, content: self.content.clone() }
    }
}

impl PartialEq for Frame {
    fn eq(&self, other: &Frame) -> (r: bool) {
        self.delay == other.delay && self.content == other.content
    }
}

impl vstd::std_specs::cmp::PartialEqSpecImpl for Frame {
    open spec fn obeys_eq_spec() -> bool {
        true
    }

    open spec fn eq_spec(&self, other: &Frame) -> bool {
        self@.delay == other@.delay && self@.content == other@.content
    }
}

/// The unit actually transmitted: a payload together with the tag that
/// correlates a response to its request.
#[derive(Debug)]
pub struct Tagged<T> {
    pub v: T,
    pub tag: u32,
}

/// The mathematical model of a [`Tagged`] envelope.
pub struct TaggedView<V> {
    pub tag: u32,
    pub v: V,
}

impl<T: View> View for Tagged<T> {
    type V = TaggedView<T::V>;

    open spec fn view(&self) -> TaggedView<T::V> {
        TaggedView { tag: self.tag, v: self.v@ }
    }
}

impl<T> From<T> for Tagged<T> {
    fn from(t: T) -> (r: Tagged<T>) {
        Tagged { tag: 0, v: t }
    }
}

impl<T> vstd::std_specs::convert::FromSpecImpl<T> for Tagged<T> {
    open spec fn obeys_from_spec() -> bool {
        true
    }

    open spec fn from_spec(t: T) -> Tagged<T> {
        Tagged { tag: 0, v: t }
    }
}

/// What the server's handler computes from a request payload: the delay is
/// kept and the content is greeted.
pub open spec fn handler_view(f: FrameView) -> FrameView {
    FrameView { delay: f.delay, content: "Hello, "@ + f.content }
}

/// The pure part of the server's handler: builds the response payload for a
/// request payload. The artificial delay itself is scheduled by the caller,
/// outside this core.
pub fn handler_body(req: &Frame) -> (r: Frame)
    ensures
        r@ == handler_view(req@),
{
    let mut content = String::from_str("Hello, ");
    content.append(req.content.as_str());
    let r = Frame { delay: req.delay, content };
    proof {
        assert(r@.content =~= handler_view(req@).content);
    }
    r
}

/// The server-side relay law: a response envelope carries the handler's
/// output under the unchanged tag of the request that produced it; the server
/// never assigns tags of its own.
pub fn handle_request(req: &Tagged<Frame>) -> (resp: Tagged<Frame>)
    ensures
        resp.tag == req.tag,
        resp.v@ == handler_view(req.v@),
{
    Tagged { tag: req.tag, v: handler_body(&req.v) }
}

} // verus!
