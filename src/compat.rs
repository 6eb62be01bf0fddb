//! The adapter: two independent pulls, one for payload chunks and one for
//! trailer sets, served from one ordered source of frames.
//!
//! The caller owns the source. It asks the adapter what to do; where the
//! adapter answers `Step::PullSource`, it pulls the source once and hands the
//! result to the next call of the same pull.
use crate::frame::{data_items, data_of, trailer_sets, trailers_of, lemma_items_push, Buffer, Frame, FrameView};
use crate::trailers::{fields_view, Field};
use vstd::prelude::*;

verus! {

/// What one pull of the source gave.
pub enum Pulled<D, E> {
    Frame(Frame<D>),
    End,
    Error(E),
}

/// The adapter's answer to a pull: a result for the consumer, or a request
/// to pull the source once more.
pub enum Step<R> {
    Ready(R),
    PullSource,
}

/// The frame that a pull of the source handed over, as a run of zero or one.
pub open spec fn pulled_frames<D, E>(p: Option<Pulled<D, E>>) -> Seq<FrameView<D>> {
    match p {
        Some(Pulled::Frame(f)) => seq![f@],
        _ => Seq::empty(),
    }
}

/// The payload chunk that a pull of the source handed over, as a run of zero
/// or one.
pub open spec fn pulled_data<D, E>(p: Option<Pulled<D, E>>) -> Seq<D> {
    match p {
        Some(Pulled::Frame(f)) => match data_of(f@) {
            Some(d) => seq![d],
            None => Seq::empty(),
        },
        _ => Seq::empty(),
    }
}

/// The converted trailer set that a pull of the source handed over, as a run
/// of zero or one.
pub open spec fn pulled_trailers<D, E>(p: Option<Pulled<D, E>>) -> Seq<Seq<(Seq<u8>, Seq<u8>)>> {
    match p {
        Some(Pulled::Frame(f)) => match trailers_of(f@) {
            Some(t) => seq![t],
            None => Seq::empty(),
        },
        _ => Seq::empty(),
    }
}

/// The adapter's state with its history: the frames pulled from the source so
/// far, what each pull delivered, and what waits in each queue.
pub ghost struct CompatView<D> {
    pub pulled: Seq<FrameView<D>>,
    pub data_out: Seq<D>,
    pub trailers_out: Seq<Seq<(Seq<u8>, Seq<u8>)>>,
    pub data_queue: Seq<D>,
    pub trailer_queue: Seq<Seq<(Seq<u8>, Seq<u8>)>>,
}

impl<D> CompatView<D> {
    /// Every frame pulled is accounted for exactly once: what was delivered
    /// and what waits, in order, are the frames' contributions in order.
    pub open spec fn wf(self) -> bool {
        &&& self.data_out + self.data_queue == data_items(self.pulled)
        &&& self.trailers_out + self.trailer_queue == trailer_sets(self.pulled)
    }
}

/// The adapter's queues, with the history that its invariant speaks of.
pub struct Compat<D> {
    buffer: Buffer<D>,
    pulled: Ghost<Seq<FrameView<D>>>,
    data_out: Ghost<Seq<D>>,
    trailers_out: Ghost<Seq<Seq<(Seq<u8>, Seq<u8>)>>>,
}

impl<D> View for Compat<D> {
    type V = CompatView<D>;

    closed spec fn view(&self) -> CompatView<D> {
        CompatView {
            pulled: self.pulled@,
            data_out: self.data_out@,
            trailers_out: self.trailers_out@,
            data_queue: self.buffer.data_queue(),
            trailer_queue: self.buffer.trailer_queue(),
        }
    }
}

impl<D> Compat<D> {
    /// A fresh adapter: nothing pulled, both queues empty.
    pub fn new() -> (r: Compat<D>)
        ensures
            r@.wf(),
            r@.pulled == Seq::<FrameView<D>>::empty(),
            r@.data_out == Seq::<D>::empty(),
            r@.trailers_out == Seq::<Seq<(Seq<u8>, Seq<u8>)>>::empty(),
            r@.data_queue == Seq::<D>::empty(),
            r@.trailer_queue == Seq::<Seq<(Seq<u8>, Seq<u8>)>>::empty(),
    {
        let r = Compat {
            buffer: Buffer::new(),
            pulled: Ghost(Seq::empty()),
            data_out: Ghost(Seq::empty()),
            trailers_out: Ghost(Seq::empty()),
        };
        assert(data_items(r.pulled@) =~= Seq::<D>::empty());
        assert(trailer_sets(r.pulled@) =~= Seq::<Seq<(Seq<u8>, Seq<u8>)>>::empty());
        assert(r@.data_out + r@.data_queue =~= Seq::<D>::empty());
        assert(r@.trailers_out + r@.trailer_queue =~= Seq::<Seq<(Seq<u8>, Seq<u8>)>>::empty());
        r
    }

    /// Routes a pulled frame into the queues and records it.
    fn take_pulled(&mut self, frame: Frame<D>)
        requires
            old(self)@.wf(),
        ensures
            final(self)@.wf(),
            final(self)@.pulled == old(self)@.pulled.push(frame@),
            final(self)@.data_out == old(self)@.data_out,
            final(self)@.trailers_out == old(self)@.trailers_out,
            final(self)@.data_queue == old(self)@.data_queue + match data_of(frame@) {
                Some(d) => seq![d],
                None => Seq::<D>::empty(),
            },
            final(self)@.trailer_queue == old(self)@.trailer_queue + match trailers_of(frame@) {
                Some(t) => seq![t],
                None => Seq::<Seq<(Seq<u8>, Seq<u8>)>>::empty(),
            },
    {
        let ghost fv = frame@;
        proof {
            lemma_items_push(self.pulled@, fv);
        }
        self.buffer.push_back(frame);
        self.pulled = Ghost(self.pulled@.push(fv));
        assert(self@.data_out + self@.data_queue =~= data_items(self@.pulled));
        assert(self@.trailers_out + self@.trailer_queue =~= trailer_sets(self@.pulled));
    }

    /// Records what one pull of the source gave: a frame joins the queues.
    fn record<E>(&mut self, pulled: Option<Pulled<D, E>>) -> (r: Option<Pulled<D, E>>)
        requires
            old(self)@.wf(),
        ensures
            final(self)@.wf(),
            final(self)@.pulled == old(self)@.pulled + pulled_frames(pulled),
            final(self)@.data_out == old(self)@.data_out,
            final(self)@.trailers_out == old(self)@.trailers_out,
            final(self)@.data_queue == old(self)@.data_queue + pulled_data(pulled),
            final(self)@.trailer_queue == old(self)@.trailer_queue + pulled_trailers(pulled),
            match pulled {
                Some(Pulled::Frame(_)) => r.is_none(),
                _ => r == pulled,
            },
    {
        match pulled {
            Some(Pulled::Frame(f)) => {
                self.take_pulled(f);
                None
            },
            other => {
                proof {
                    assert(pulled_frames(other) =~= Seq::<FrameView<D>>::empty());
                    assert(self@.data_queue + Seq::<D>::empty() =~= self@.data_queue);
                    assert(self@.trailer_queue + Seq::<Seq<(Seq<u8>, Seq<u8>)>>::empty()
                        =~= self@.trailer_queue);
                    assert(self@.pulled + Seq::<FrameView<D>>::empty() =~= self@.pulled);
                }
                other
            },
        }
    }

    /// One step of the data pull. `pulled` is what the source gave where the
    /// previous step asked for a pull, `None` on a fresh call.
    ///
    /// A pulled frame is routed first, whichever queue it joins. A source
    /// error is answered as it is. Otherwise the front chunk of the data
    /// queue is delivered; where that queue is empty, the answer is "no more"
    /// after the source ended, and a request to pull the source before that.
    pub fn poll_data<E>(&mut self, pulled: Option<Pulled<D, E>>) -> (r: Step<Option<Result<D, E>>>)
        requires
            old(self)@.wf(),
        ensures
            final(self)@.wf(),
            final(self)@.pulled == old(self)@.pulled + pulled_frames(pulled),
            final(self)@.trailers_out == old(self)@.trailers_out,
            final(self)@.trailer_queue == old(self)@.trailer_queue + pulled_trailers(pulled),
            ({
                let dq = old(self)@.data_queue + pulled_data(pulled);
                match pulled {
                    Some(Pulled::Error(e)) => {
                        &&& r == Step::<Option<Result<D, E>>>::Ready(Some(Err(e)))
                        &&& final(self)@.data_queue == dq
                        &&& final(self)@.data_out == old(self)@.data_out
                    },
                    _ => if dq.len() > 0 {
                        &&& r == Step::<Option<Result<D, E>>>::Ready(Some(Ok(dq[0])))
                        &&& final(self)@.data_queue == dq.drop_first()
                        &&& final(self)@.data_out == old(self)@.data_out.push(dq[0])
                    } else {
                        &&& r == if pulled == Some(Pulled::<D, E>::End) {
                            Step::<Option<Result<D, E>>>::Ready(None)
                        } else {
                            Step::<Option<Result<D, E>>>::PullSource
                        }
                        &&& final(self)@.data_queue == dq
                        &&& final(self)@.data_out == old(self)@.data_out
                    },
                }
            }),
    {
        let ended = match self.record(pulled) {
            Some(Pulled::Error(e)) => return Step::Ready(Some(Err(e))),
            Some(Pulled::End) => true,
            _ => false,
        };
        match self.buffer.pop_data() {
            Some(d) => {
                self.data_out = Ghost(self.data_out@.push(d));
                assert(self@.data_out + self@.data_queue =~= data_items(self@.pulled));
                Step::Ready(Some(Ok(d)))
            },
            None => if ended {
                Step::Ready(None)
            } else {
                Step::PullSource
            },
        }
    }

    /// One step of the trailer pull, the counterpart of `poll_data` on the
    /// trailer queue: a pulled frame is routed first, a source error is
    /// answered as it is, then the front trailer set is delivered, or "no
    /// more" after the source ended, or a request to pull the source.
    pub fn poll_trailers<E>(&mut self, pulled: Option<Pulled<D, E>>) -> (r: Step<
        Result<Option<Vec<Field>>, E>,
    >)
        requires
            old(self)@.wf(),
        ensures
            final(self)@.wf(),
            final(self)@.pulled == old(self)@.pulled + pulled_frames(pulled),
            final(self)@.data_out == old(self)@.data_out,
            final(self)@.data_queue == old(self)@.data_queue + pulled_data(pulled),
            ({
                let tq = old(self)@.trailer_queue + pulled_trailers(pulled);
                match pulled {
                    Some(Pulled::Error(e)) => {
                        &&& r == Step::<Result<Option<Vec<Field>>, E>>::Ready(Err(e))
                        &&& final(self)@.trailer_queue == tq
                        &&& final(self)@.trailers_out == old(self)@.trailers_out
                    },
                    _ => if tq.len() > 0 {
                        &&& r matches Step::Ready(Ok(Some(t)))
                        &&& fields_view(t@) == tq[0]
                        &&& final(self)@.trailer_queue == tq.drop_first()
                        &&& final(self)@.trailers_out == old(self)@.trailers_out.push(tq[0])
                    } else {
                        &&& r == if pulled == Some(Pulled::<D, E>::End) {
                            Step::<Result<Option<Vec<Field>>, E>>::Ready(Ok(None))
                        } else {
                            Step::<Result<Option<Vec<Field>>, E>>::PullSource
                        }
                        &&& final(self)@.trailer_queue == tq
                        &&& final(self)@.trailers_out == old(self)@.trailers_out
                    },
                }
            }),
    {
        let ended = match self.record(pulled) {
            Some(Pulled::Error(e)) => return Step::Ready(Err(e)),
            Some(Pulled::End) => true,
            _ => false,
        };
        match self.buffer.pop_trailers() {
            Some(t) => {
                self.trailers_out = Ghost(self.trailers_out@.push(fields_view(t@)));
                assert(self@.trailers_out + self@.trailer_queue =~= trailer_sets(self@.pulled));
                Step::Ready(Ok(Some(t)))
            },
            None => if ended {
                Step::Ready(Ok(None))
            } else {
                Step::PullSource
            },
        }
    }
}

/// Data pulls deliver the payload chunks of the frames pulled from the source
/// in the order the source gave them, none dropped or repeated, whatever
/// trailer pulls came between: what was delivered is a prefix of those
/// chunks, and all of them once the data queue is empty (as it is whenever a
/// data pull answers "no more").
pub proof fn lemma_data_in_source_order<D>(c: CompatView<D>)
    requires
        c.wf(),
    ensures
        c.data_out.len() <= data_items(c.pulled).len(),
        c.data_out == data_items(c.pulled).take(c.data_out.len() as int),
        c.data_queue.len() == 0 ==> c.data_out == data_items(c.pulled),
{
    assert((c.data_out + c.data_queue).take(c.data_out.len() as int) =~= c.data_out);
    assert(c.data_out + Seq::<D>::empty() =~= c.data_out);
}

/// Trailer pulls deliver the trailer sets of the frames pulled from the
/// source in the order the source gave them, each with the fields that do
/// not convert dropped, whatever data pulls came between: what was delivered
/// is a prefix of those sets, and all of them once the trailer queue is empty
/// (as it is whenever a trailer pull answers "no more").
pub proof fn lemma_trailers_in_source_order<D>(c: CompatView<D>)
    requires
        c.wf(),
    ensures
        c.trailers_out.len() <= trailer_sets(c.pulled).len(),
        c.trailers_out == trailer_sets(c.pulled).take(c.trailers_out.len() as int),
        c.trailer_queue.len() == 0 ==> c.trailers_out == trailer_sets(c.pulled),
{
    assert((c.trailers_out + c.trailer_queue).take(c.trailers_out.len() as int)
        =~= c.trailers_out);
    assert(c.trailers_out + Seq::<Seq<(Seq<u8>, Seq<u8>)>>::empty() =~= c.trailers_out);
}

} // verus!
