//! What a listener on the device node observes: events become visible a
//! whole frame at a time, when the synchronization event that closes the
//! frame arrives.

use vstd::prelude::*;
use crate::event::{InputEvent, is_sync_spec};

verus! {

/// Model of the stream: the events a listener has seen, and those of the
/// frame still open.
pub struct StreamView {
    pub delivered: Seq<InputEvent>,
    pub pending: Seq<InputEvent>,
}

/// The stream of events posted to one device, as its listeners see it.
pub struct EventStream {
    delivered: Vec<InputEvent>,
    pending: Vec<InputEvent>,
}

/// The stream after one more event: a synchronization event delivers the
/// open frame and itself; any other event joins the open frame.
pub open spec fn post_spec(s: StreamView, e: InputEvent) -> StreamView {
    if is_sync_spec(e) {
        StreamView { delivered: s.delivered + s.pending.push(e), pending: Seq::empty() }
    } else {
        StreamView { delivered: s.delivered, pending: s.pending.push(e) }
    }
}

/// The stream after posting `es`, in order, to a fresh stream.
pub open spec fn stream_after(es: Seq<InputEvent>) -> StreamView
    decreases es.len(),
{
    if es.len() == 0 {
        StreamView { delivered: Seq::empty(), pending: Seq::empty() }
    } else {
        post_spec(stream_after(es.drop_last()), es.last())
    }
}

/// Whether no event of `s` closes a frame.
pub open spec fn no_sync(s: Seq<InputEvent>) -> bool {
    forall|i: int| 0 <= i < s.len() ==> !is_sync_spec(#[trigger] s[i])
}

/// Events come out in the order they were posted, none lost or added, and
/// none is visible before the synchronization event that closes its frame:
/// what is delivered ends with one, and the open frame holds none.
pub proof fn lemma_stream_keeps_order(es: Seq<InputEvent>)
    ensures
        stream_after(es).delivered + stream_after(es).pending == es,
        stream_after(es).delivered.len() == 0 || is_sync_spec(stream_after(es).delivered.last()),
        no_sync(stream_after(es).pending),
    decreases es.len(),
{
    if es.len() > 0 {
        let prev = es.drop_last();
        lemma_stream_keeps_order(prev);
        let s = stream_after(prev);
        let e = es.last();
        assert(es =~= prev.push(e));
        if is_sync_spec(e) {
            assert(s.delivered + s.pending.push(e) + Seq::<InputEvent>::empty() =~= es);
        } else {
            assert(s.delivered + s.pending.push(e) =~= es);
            assert forall|i: int| 0 <= i < s.pending.push(e).len() implies !is_sync_spec(
                #[trigger] s.pending.push(e)[i],
            ) by {
                if i < s.pending.len() {
                    assert(s.pending.push(e)[i] == s.pending[i]);
                }
            }
        }
    }
}

fn copy_events(v: &Vec<InputEvent>) -> (r: Vec<InputEvent>)
    ensures
        r@ == v@,
{
    let mut out: Vec<InputEvent> = Vec::new();
    let mut i: usize = 0;
    while i < v.len()
        invariant
            i <= v@.len(),
            out@ == v@.subrange(0, i as int),
        decreases v@.len() - i,
    {
        out.push(v[i]);
        i = i + 1;
        assert(out@ =~= v@.subrange(0, i as int));
    }
    assert(v@.subrange(0, v@.len() as int) =~= v@);
    out
}

impl View for EventStream {
    type V = StreamView;

    closed spec fn view(&self) -> StreamView {
        StreamView { delivered: self.delivered@, pending: self.pending@ }
    }
}

impl EventStream {
    /// A stream on which nothing has been posted.
    pub fn new() -> (r: EventStream)
        ensures
            r@ == stream_after(Seq::empty()),
    {
        EventStream { delivered: Vec::new(), pending: Vec::new() }
    }

    /// Posts one event.
    pub fn post(&mut self, event: InputEvent)
        ensures
            final(self)@ == post_spec(old(self)@, event),
    {
        self.pending.push(event);
        if event.is_sync() {
            let mut i: usize = 0;
            let ghost before = self.delivered@;
            let n = self.pending.len();
            while i < n
                invariant
                    n == self.pending@.len(),
                    i <= n,
                    self.pending@ == old(self)@.pending.push(event),
                    self.delivered@ == before + self.pending@.subrange(0, i as int),
                decreases n - i,
            {
                let e = self.pending[i];
                self.delivered.push(e);
                i = i + 1;
                assert(self.delivered@ =~= before + self.pending@.subrange(0, i as int));
            }
            assert(self.pending@.subrange(0, n as int) =~= self.pending@);
            self.pending = Vec::new();
        }
    }

    /// The events a listener has seen, oldest first.
    pub fn delivered(&self) -> (r: Vec<InputEvent>)
        ensures
            r@ == self@.delivered,
    {
        copy_events(&self.delivered)
    }

    /// The events of the frame still open, which no listener sees yet.
    pub fn pending(&self) -> (r: Vec<InputEvent>)
        ensures
            r@ == self@.pending,
    {
        copy_events(&self.pending)
    }
}

} // verus!
