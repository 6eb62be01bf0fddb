//! Frames of the single-stream body, and the router that sorts them into a
//! data queue and a trailer queue.
use crate::trailers::{convert_fields, convert_trailers, fields_view, Field};
use std::collections::VecDeque;
use vstd::prelude::*;

verus! {

/// One unit of the single-stream body: a payload chunk or a trailer set.
pub enum Frame<D> {
    Data(D),
    Trailers(Vec<Field>),
}

pub ghost enum FrameView<D> {
    Data(D),
    Trailers(Seq<(Seq<u8>, Seq<u8>)>),
}

impl<D> View for Frame<D> {
    type V = FrameView<D>;

    open spec fn view(&self) -> FrameView<D> {
        match self {
            Frame::Data(d) => FrameView::Data(*d),
            Frame::Trailers(t) => FrameView::Trailers(fields_view(t@)),
        }
    }
}

/// The payload chunk a frame carries, if any.
pub open spec fn data_of<D>(f: FrameView<D>) -> Option<D> {
    match f {
        FrameView::Data(d) => Some(d),
        FrameView::Trailers(_) => None,
    }
}

/// The converted trailer set a frame carries, if any.
pub open spec fn trailers_of<D>(f: FrameView<D>) -> Option<Seq<(Seq<u8>, Seq<u8>)>> {
    match f {
        FrameView::Data(_) => None,
        FrameView::Trailers(t) => Some(convert_fields(t)),
    }
}

/// The payload chunks of a run of frames, in order.
pub open spec fn data_items<D>(frames: Seq<FrameView<D>>) -> Seq<D> {
    frames.filter_map(|f: FrameView<D>| data_of(f))
}

/// The converted trailer sets of a run of frames, in order.
pub open spec fn trailer_sets<D>(frames: Seq<FrameView<D>>) -> Seq<Seq<(Seq<u8>, Seq<u8>)>> {
    frames.filter_map(|f: FrameView<D>| trailers_of(f))
}

/// The frames' contributions in order, one frame after another.
pub proof fn lemma_items_push<D>(frames: Seq<FrameView<D>>, f: FrameView<D>)
    ensures
        data_items(frames.push(f)) == data_items(frames) + match data_of(f) {
            Some(d) => seq![d],
            None => Seq::<D>::empty(),
        },
        trailer_sets(frames.push(f)) == trailer_sets(frames) + match trailers_of(f) {
            Some(t) => seq![t],
            None => Seq::<Seq<(Seq<u8>, Seq<u8>)>>::empty(),
        },
{
    let s = frames.push(f);
    assert(s.drop_last() =~= frames);
    assert(data_items(frames) + Seq::<D>::empty() =~= data_items(frames));
    assert(trailer_sets(frames) + Seq::<Seq<(Seq<u8>, Seq<u8>)>>::empty() =~= trailer_sets(
        frames,
    ));
}

/// A data queue and a trailer queue, each in the order the frames came.
pub struct Buffer<D> {
    data: VecDeque<D>,
    trailers: VecDeque<Vec<Field>>,
}

impl<D> Buffer<D> {
    /// The payload chunks waiting, front first.
    pub closed spec fn data_queue(&self) -> Seq<D> {
        self.data@
    }

    /// The converted trailer sets waiting, front first.
    pub closed spec fn trailer_queue(&self) -> Seq<Seq<(Seq<u8>, Seq<u8>)>> {
        self.trailers@.map_values(|t: Vec<Field>| fields_view(t@))
    }

    pub fn new() -> (r: Buffer<D>)
        ensures
            r.data_queue() == Seq::<D>::empty(),
            r.trailer_queue() == Seq::<Seq<(Seq<u8>, Seq<u8>)>>::empty(),
    {
        let r = Buffer { data: VecDeque::new(), trailers: VecDeque::new() };
        assert(r.trailer_queue() =~= Seq::<Seq<(Seq<u8>, Seq<u8>)>>::empty());
        r
    }

    /// Sorts one frame: a payload chunk joins the data queue unchanged; a
    /// trailer set joins the trailer queue with its refused fields dropped.
    pub fn push_back(&mut self, frame: Frame<D>)
        ensures
            final(self).data_queue() == old(self).data_queue() + match data_of(frame@) {
                Some(d) => seq![d],
                None => Seq::<D>::empty(),
            },
            final(self).trailer_queue() == old(self).trailer_queue() + match trailers_of(frame@) {
                Some(t) => seq![t],
                None => Seq::<Seq<(Seq<u8>, Seq<u8>)>>::empty(),
            },
    {
        match frame {
            Frame::Trailers(fields) => {
                let converted = convert_trailers(&fields);
                self.trailers.push_back(converted);
                assert(self.trailer_queue() =~= old(self).trailer_queue().push(
                    fields_view(converted@),
                ));
                assert(self.data@ + Seq::<D>::empty() =~= self.data@);
            },
            Frame::Data(d) => {
                self.data.push_back(d);
                assert(self.trailer_queue() =~= old(self).trailer_queue());
                assert(self.trailer_queue() + Seq::<Seq<(Seq<u8>, Seq<u8>)>>::empty()
                    =~= self.trailer_queue());
            },
        }
    }

    /// Takes the front payload chunk, if any.
    pub fn pop_data(&mut self) -> (r: Option<D>)
        ensures
            old(self).data_queue().len() == 0 ==> r.is_none() && final(self).data_queue()
                == old(self).data_queue(),
            old(self).data_queue().len() > 0 ==> r == Some(old(self).data_queue()[0])
                && final(self).data_queue() == old(self).data_queue().drop_first(),
            final(self).trailer_queue() == old(self).trailer_queue(),
    {
        let r = self.data.pop_front();
        assert(self.trailer_queue() =~= old(self).trailer_queue());
        r
    }

    /// Takes the front trailer set, if any.
    pub fn pop_trailers(&mut self) -> (r: Option<Vec<Field>>)
        ensures
            old(self).trailer_queue().len() == 0 ==> r.is_none() && final(self).trailer_queue()
                == old(self).trailer_queue(),
            old(self).trailer_queue().len() > 0 ==> r.is_some() && fields_view(r.unwrap()@)
                == old(self).trailer_queue()[0] && final(self).trailer_queue()
                == old(self).trailer_queue().drop_first(),
            final(self).data_queue() == old(self).data_queue(),
    {
        let r = self.trailers.pop_front();
        if r.is_some() {
            assert(self.trailer_queue() =~= old(self).trailer_queue().drop_first());
        } else {
            assert(self.trailer_queue() =~= old(self).trailer_queue());
        }
        r
    }
}

} // verus!
