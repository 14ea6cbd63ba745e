//! The incremental decoder for streamed responses.
//!
//! A streamed body arrives as byte chunks cut at arbitrary places.  Each
//! event frame is the marker `data: ` followed by a payload and closed by
//! a blank line; the literal payload `[DONE]` is the sentinel that ends
//! the stream.  The decoder keeps the bytes after the last complete frame
//! in a pending buffer, hands out every complete frame as soon as it is
//! available, and discards whatever arrives after the sentinel.

use vstd::prelude::*;

verus! {

broadcast use vstd::std_specs::vec::group_vec_axioms, vstd::seq::group_seq_axioms;

/// One delimited frame handed to the consumer.
#[derive(Debug, Clone, PartialEq, Eq)]
pub enum Frame {
    /// The payload of a well-formed `data: ` frame.
    Data(Vec<u8>),
    /// A complete frame that did not carry the event marker; reported so
    /// the caller can decide whether to abort or continue.
    Malformed(Vec<u8>),
}

pub ghost enum FrameV {
    Data(Seq<u8>),
    Malformed(Seq<u8>),
}

impl View for Frame {
    type V = FrameV;

    open spec fn view(&self) -> FrameV {
        match self {
            Frame::Data(b) => FrameV::Data(b@),
            Frame::Malformed(b) => FrameV::Malformed(b@),
        }
    }
}

/// The views of a sequence of frames, element by element.
pub open spec fn frames_view(frames: Seq<Frame>) -> Seq<FrameV>
    decreases frames,
{
    if frames.len() == 0 {
        Seq::empty()
    } else {
        seq![frames[0]@] + frames_view(frames.drop_first())
    }
}

proof fn lemma_frames_view_snoc(frames: Seq<Frame>, f: Frame)
    ensures
        frames_view(frames.push(f)) == frames_view(frames) + seq![f@],
    decreases frames.len(),
{
    if frames.len() == 0 {
        assert(frames.push(f).drop_first() =~= Seq::<Frame>::empty());
        assert(frames_view(Seq::<Frame>::empty()) == Seq::<FrameV>::empty());
        assert(frames_view(frames.push(f)) =~= frames_view(frames) + seq![f@]);
    } else {
        lemma_frames_view_snoc(frames.drop_first(), f);
        assert(frames.push(f).drop_first() =~= frames.drop_first().push(f));
        assert(frames.push(f)[0] == frames[0]);
        assert(seq![frames[0]@] + (frames_view(frames.drop_first()) + seq![f@]) =~= (seq![
            frames[0]@,
        ] + frames_view(frames.drop_first())) + seq![f@]);
    }
}

/// The event marker every frame begins with: `data: `.
pub open spec fn data_prefix() -> Seq<u8> {
    seq![100u8, 97u8, 116u8, 97u8, 58u8, 32u8]
}

/// The sentinel payload that ends a stream: `[DONE]`.
pub open spec fn sentinel() -> Seq<u8> {
    seq![91u8, 68u8, 79u8, 78u8, 69u8, 93u8]
}

pub open spec fn has_data_prefix(f: Seq<u8>) -> bool {
    f.len() >= 6 && f.subrange(0, 6) == data_prefix()
}

pub open spec fn is_sentinel_frame(f: Seq<u8>) -> bool {
    has_data_prefix(f) && f.skip(6) == sentinel()
}

/// How one complete frame is handed out.
pub open spec fn spec_frame_of(f: Seq<u8>) -> FrameV {
    if has_data_prefix(f) {
        FrameV::Data(f.skip(6))
    } else {
        FrameV::Malformed(f)
    }
}

/// Position of the first blank line (`\n\n`) at or after `i`.
pub open spec fn spec_find_delim(s: Seq<u8>, i: int) -> Option<int>
    decreases crate::json::rem(s, i),
{
    if 0 <= i && i + 2 <= s.len() {
        if s[i] == 10 && s[i + 1] == 10 {
            Some(i)
        } else {
            spec_find_delim(s, i + 1)
        }
    } else {
        None
    }
}

proof fn lemma_find_delim_bounds(s: Seq<u8>, i: int)
    requires
        0 <= i,
    ensures
        spec_find_delim(s, i) matches Some(k) ==> i <= k && k + 2 <= s.len() && s[k] == 10 && s[k
            + 1] == 10,
    decreases crate::json::rem(s, i),
{
    if 0 <= i && i + 2 <= s.len() && !(s[i] == 10 && s[i + 1] == 10) {
        lemma_find_delim_bounds(s, i + 1);
    }
}

/// A delimiter found in a buffer is still the first one after more bytes
/// are appended.
proof fn lemma_find_delim_extend(x: Seq<u8>, y: Seq<u8>, i: int)
    requires
        0 <= i,
        spec_find_delim(x, i) is Some,
    ensures
        spec_find_delim(x + y, i) == spec_find_delim(x, i),
    decreases crate::json::rem(x, i),
{
    if i + 2 <= x.len() {
        assert((x + y)[i] == x[i]);
        assert((x + y)[i + 1] == x[i + 1]);
        if !(x[i] == 10 && x[i + 1] == 10) {
            lemma_find_delim_extend(x, y, i + 1);
        }
    }
}

/// Every complete frame in the buffer, processed in order: the frames
/// handed out before the sentinel, the remaining buffered bytes, and
/// whether the sentinel was seen.  Bytes after the sentinel are dropped.
pub open spec fn spec_drain(s: Seq<u8>) -> (Seq<FrameV>, Seq<u8>, bool)
    decreases s.len(),
{
    match spec_find_delim(s, 0) {
        Some(i) => if 0 <= i && i + 2 <= s.len() {
            let f = s.subrange(0, i);
            if is_sentinel_frame(f) {
                (Seq::empty(), Seq::empty(), true)
            } else {
                let (evs, rem2, closed) = spec_drain(s.subrange(i + 2, s.len() as int));
                (seq![spec_frame_of(f)] + evs, rem2, closed)
            }
        } else {
            (Seq::empty(), s, false)
        },
        None => (Seq::empty(), s, false),
    }
}

/// The decoder's state: the pending bytes and whether the stream ended.
pub ghost struct StreamStateV {
    pub buf: Seq<u8>,
    pub closed: bool,
}

/// What one chunk does to the decoder: no events once closed; otherwise
/// the chunk joins the pending buffer and every complete frame in it is
/// handed out.
pub open spec fn spec_feed(st: StreamStateV, chunk: Seq<u8>) -> (StreamStateV, Seq<FrameV>) {
    if st.closed {
        (st, Seq::empty())
    } else {
        let (evs, rem2, closed) = spec_drain(st.buf + chunk);
        (StreamStateV { buf: rem2, closed }, evs)
    }
}

// ---------------------------------------------------------------------------
// The laws of draining: cutting the byte stream differently never changes
// the events that come out.
// ---------------------------------------------------------------------------

/// Once the sentinel was found in a buffer, appending more bytes changes
/// nothing: the same events come out and the rest is discarded.
proof fn lemma_drain_closed_extend(x: Seq<u8>, y: Seq<u8>)
    requires
        spec_drain(x).2,
    ensures
        spec_drain(x + y) == spec_drain(x),
    decreases x.len(),
{
    lemma_find_delim_bounds(x, 0);
    match spec_find_delim(x, 0) {
        Some(i) => {
            lemma_find_delim_extend(x, y, 0);
            assert((x + y).subrange(0, i) =~= x.subrange(0, i));
            let f = x.subrange(0, i);
            if !is_sentinel_frame(f) {
                let restx = x.subrange(i + 2, x.len() as int);
                assert((x + y).subrange(i + 2, (x + y).len() as int) =~= restx + y);
                lemma_drain_closed_extend(restx, y);
            }
        },
        None => {},
    }
}

/// Draining a buffer and then draining its remainder with more bytes is
/// the same as draining everything at once — as long as the sentinel has
/// not been seen.
proof fn lemma_drain_extend(x: Seq<u8>, y: Seq<u8>)
    requires
        !spec_drain(x).2,
    ensures
        ({
            let (evs, rem, _) = spec_drain(x);
            let (evs2, rem2, closed2) = spec_drain(rem + y);
            spec_drain(x + y) == (evs + evs2, rem2, closed2)
        }),
    decreases x.len(),
{
    lemma_find_delim_bounds(x, 0);
    match spec_find_delim(x, 0) {
        Some(i) => {
            lemma_find_delim_extend(x, y, 0);
            assert((x + y).subrange(0, i) =~= x.subrange(0, i));
            let f = x.subrange(0, i);
            let restx = x.subrange(i + 2, x.len() as int);
            assert((x + y).subrange(i + 2, (x + y).len() as int) =~= restx + y);
            lemma_drain_extend(restx, y);
            let (evs, rem, _) = spec_drain(restx);
            let (evs2, rem2, closed2) = spec_drain(rem + y);
            assert(seq![spec_frame_of(f)] + (evs + evs2) =~= (seq![spec_frame_of(f)] + evs)
                + evs2);
        },
        None => {
            assert(spec_drain(x).1 == x);
            assert(Seq::<FrameV>::empty() + spec_drain(x + y).0 =~= spec_drain(x + y).0);
        },
    }
}

/// Feeding one chunk and then another produces the same state and the
/// same events, in order, as feeding their concatenation at once.  In
/// particular a frame cut at any byte offset across two chunks comes out
/// exactly as if it had arrived whole.
pub proof fn lemma_feed_split(st: StreamStateV, a: Seq<u8>, b: Seq<u8>)
    ensures
        ({
            let (st1, evs1) = spec_feed(st, a);
            let (st2, evs2) = spec_feed(st1, b);
            let (stw, evsw) = spec_feed(st, a + b);
            stw == st2 && evsw == evs1 + evs2
        }),
{
    if st.closed {
        let (st1, evs1) = spec_feed(st, a);
        assert(Seq::<FrameV>::empty() + Seq::<FrameV>::empty() =~= Seq::<FrameV>::empty());
    } else {
        let whole = st.buf + a;
        assert(st.buf + (a + b) =~= whole + b);
        let (evs1, rem1, closed1) = spec_drain(whole);
        if closed1 {
            lemma_drain_closed_extend(whole, b);
            assert(evs1 + Seq::<FrameV>::empty() =~= evs1);
        } else {
            lemma_drain_extend(whole, b);
        }
    }
}

/// After the sentinel the stream is over: whatever bytes arrive later,
/// no further event is ever produced.
pub proof fn lemma_closed_is_final(st: StreamStateV, chunk: Seq<u8>)
    requires
        st.closed,
    ensures
        spec_feed(st, chunk) == (st, Seq::<FrameV>::empty()),
{
}

// ---------------------------------------------------------------------------
// The executable decoder.
// ---------------------------------------------------------------------------

/// The stream decoder: a pending buffer and a closed flag.
pub struct EventStream {
    buf: Vec<u8>,
    closed: bool,
}

impl View for EventStream {
    type V = StreamStateV;

    closed spec fn view(&self) -> StreamStateV {
        StreamStateV { buf: self.buf@, closed: self.closed }
    }
}

fn find_delim(s: &[u8]) -> (r: Option<usize>)
    ensures
        match r {
            Some(k) => spec_find_delim(s@, 0) == Some(k as int),
            None => spec_find_delim(s@, 0) is None,
        },
{
    if s.len() < 2 {
        return None;
    }
    let mut k: usize = 0;
    while k <= s.len() - 2 && !(s[k] == 10 && s[k + 1] == 10)
        invariant
            k <= s@.len() - 1,
            s@.len() >= 2,
            spec_find_delim(s@, 0) == spec_find_delim(s@, k as int),
        decreases s@.len() - k,
    {
        k = k + 1;
    }
    if k <= s.len() - 2 {
        Some(k)
    } else {
        None
    }
}

fn has_prefix(f: &[u8]) -> (r: bool)
    ensures
        r == has_data_prefix(f@),
{
    let r = f.len() >= 6 && f[0] == 100 && f[1] == 97 && f[2] == 116 && f[3] == 97 && f[4] == 58
        && f[5] == 32;
    proof {
        if f@.len() >= 6 {
            assert(has_data_prefix(f@) <==> (f@.subrange(0, 6) =~= data_prefix()));
            if r {
                assert(f@.subrange(0, 6) =~= data_prefix());
            }
        }
    }
    r
}

fn is_sentinel(f: &[u8]) -> (r: bool)
    ensures
        r == is_sentinel_frame(f@),
{
    if !has_prefix(f) {
        return false;
    }
    let r = f.len() == 12 && f[6] == 91 && f[7] == 68 && f[8] == 79 && f[9] == 78 && f[10] == 69
        && f[11] == 93;
    proof {
        if r {
            assert(f@.skip(6) =~= sentinel());
        } else {
            if f@.skip(6) == sentinel() {
                assert(sentinel().len() == 6);
                assert(f@.skip(6).len() == f@.len() - 6);
                assert(f@.len() == 12);
                assert(f@[6] == f@.skip(6)[0]);
                assert(f@[7] == f@.skip(6)[1]);
                assert(f@[8] == f@.skip(6)[2]);
                assert(f@[9] == f@.skip(6)[3]);
                assert(f@[10] == f@.skip(6)[4]);
                assert(f@[11] == f@.skip(6)[5]);
            }
        }
    }
    r
}

impl EventStream {
    /// A decoder at stream start: nothing buffered, stream open.
    pub fn new() -> (r: EventStream)
        ensures
            r@ == (StreamStateV { buf: Seq::<u8>::empty(), closed: false }),
    {
        EventStream { buf: Vec::new(), closed: false }
    }

    /// Whether the sentinel has been seen.
    pub fn is_closed(&self) -> (r: bool)
        ensures
            r == self@.closed,
    {
        self.closed
    }

    /// Hands one arrived chunk to the decoder and returns every event
    /// frame completed by it, in order.
    #[verifier::rlimit(100)]
    pub fn feed(&mut self, chunk: &[u8]) -> (r: Vec<Frame>)
        ensures
            final(self)@ == spec_feed(old(self)@, chunk@).0,
            frames_view(r@) == spec_feed(old(self)@, chunk@).1,
    {
        if self.closed {
            let r: Vec<Frame> = Vec::new();
            proof {
                assert(frames_view(r@) =~= Seq::<FrameV>::empty());
            }
            return r;
        }
        let mut cur: Vec<u8> = Vec::new();
        crate::json::push_bytes(&mut cur, self.buf.as_slice());
        crate::json::push_bytes(&mut cur, chunk);
        let ghost whole = old(self)@.buf + chunk@;
        proof {
            assert(Seq::<u8>::empty() + self.buf@ =~= self.buf@);
            assert(cur@ =~= whole);
        }
        let mut out: Vec<Frame> = Vec::new();
        proof {
            assert(frames_view(out@) =~= Seq::<FrameV>::empty());
        }
        loop
            invariant
                !old(self)@.closed,
                self.closed == false,
                whole == old(self)@.buf + chunk@,
                ({
                    let (evs, rem2, closed) = spec_drain(cur@);
                    spec_drain(whole) == (frames_view(out@) + evs, rem2, closed)
                }),
            decreases cur@.len(),
        {
            match find_delim(cur.as_slice()) {
                None => {
                    proof {
                        assert(spec_drain(cur@) == (Seq::<FrameV>::empty(), cur@, false));
                        assert(frames_view(out@) + Seq::<FrameV>::empty() =~= frames_view(out@));
                        assert(spec_drain(whole).0 == frames_view(out@));
                        assert(spec_drain(whole).1 == cur@);
                        assert(spec_drain(whole).2 == false);
                    }
                    self.buf = cur;
                    return out;
                },
                Some(k) => {
                    proof {
                        lemma_find_delim_bounds(cur@, 0);
                    }
                    let f = crate::json::copy_range(cur.as_slice(), 0, k);
                    if is_sentinel(f.as_slice()) {
                        self.closed = true;
                        self.buf = Vec::new();
                        proof {
                            assert(frames_view(out@) + Seq::<FrameV>::empty() =~= frames_view(
                                out@,
                            ));
                        }
                        return out;
                    }
                    let ghost out0 = out@;
                    let ghost cur0 = cur@;
                    let fr = if has_prefix(f.as_slice()) {
                        let flen = f.len();
                        Frame::Data(crate::json::copy_range(f.as_slice(), 6, flen))
                    } else {
                        Frame::Malformed(f)
                    };
                    proof {
                        assert(fr@ == spec_frame_of(cur0.subrange(0, k as int)));
                    }
                    out.push(fr);
                    let clen = cur.len();
                    cur = crate::json::copy_range(cur.as_slice(), k + 2, clen);
                    proof {
                        lemma_frames_view_snoc(out0, fr);
                        let (evs, rem2, closed) = spec_drain(cur@);
                        assert((frames_view(out0) + seq![fr@]) + evs =~= frames_view(out0) + (seq![
                            fr@,
                        ] + evs));
                    }
                },
            }
        }
    }
}

} // verus!
