//! Writing a picture out, chunk by chunk, to an output that may be closed by
//! its reader before the picture is complete.
//!
//! The painter hands out the chunks of one picture in order; its caller
//! writes each and reports how the write went. A write that fails silences
//! the painter: it hands out nothing more, and that is no failure of the
//! call.

use crate::grid::PixelGrid;
use crate::printer::{joined, picture_chunks, print_rows, rendered};
use vstd::prelude::*;

verus! {

/// The mathematical content of a painter.
pub struct PainterView {
    /// The chunks of the picture, in the order in which they are written.
    pub chunks: Seq<Seq<u8>>,
    /// How many chunks have been written.
    pub written: nat,
    /// Whether a write has failed.
    pub silenced: bool,
}

impl PainterView {
    /// No more chunks are written than there are.
    pub open spec fn wf(self) -> bool {
        self.written <= self.chunks.len()
    }

    /// The chunk to write next, if one is left and no write has failed.
    pub open spec fn pending(self) -> Option<Seq<u8>> {
        if !self.silenced && self.written < self.chunks.len() {
            Some(self.chunks[self.written as int])
        } else {
            None
        }
    }

    /// The painter after the write of the pending chunk, which went through
    /// or failed. A painter with nothing pending stays as it is.
    pub open spec fn after(self, written: bool) -> PainterView {
        if self.pending() is None {
            self
        } else if written {
            PainterView { written: self.written + 1, ..self }
        } else {
            PainterView { silenced: true, ..self }
        }
    }

    /// The painter after a run of writes.
    pub open spec fn after_all(self, writes: Seq<bool>) -> PainterView
        decreases writes.len(),
    {
        if writes.len() == 0 {
            self
        } else {
            self.after_all(writes.drop_last()).after(writes.last())
        }
    }

    /// The bytes that have been written.
    pub open spec fn output(self) -> Seq<u8> {
        joined(self.chunks.take(self.written as int))
    }
}

/// One call to draw a picture.
pub struct Painter {
    chunks: Vec<Vec<u8>>,
    written: usize,
    silenced: bool,
}

impl View for Painter {
    type V = PainterView;

    closed spec fn view(&self) -> PainterView {
        PainterView {
            chunks: Seq::new(self.chunks@.len(), |k: int| self.chunks@[k]@),
            written: self.written as nat,
            silenced: self.silenced,
        }
    }
}

impl Painter {
    #[verifier::type_invariant]
    spec fn well_formed(self) -> bool {
        self.written <= self.chunks@.len()
    }

    /// A painter for a grid, with nothing written yet.
    pub fn new(img: &PixelGrid, transparent: bool, truecolor: bool) -> (painter: Painter)
        ensures
            painter@ == (PainterView {
                chunks: picture_chunks(rendered(img@, transparent), truecolor),
                written: 0,
                silenced: false,
            }),
    {
        let chunks = print_rows(img, transparent, truecolor);
        let painter = Painter { chunks, written: 0, silenced: false };
        assert(painter@.chunks == picture_chunks(rendered(img@, transparent), truecolor));
        painter
    }

    /// The chunk to write next, if one is left and no write has failed.
    pub fn pending(&self) -> (chunk: Option<&Vec<u8>>)
        ensures
            self@.wf(),
            chunk matches Some(bytes) ==> self@.pending() == Some(bytes@),
            chunk is None ==> self@.pending() is None,
    {
        proof {
            use_type_invariant(self);
        }
        if !self.silenced && self.written < self.chunks.len() {
            Some(&self.chunks[self.written])
        } else {
            None
        }
    }

    /// Takes note of how the write of the pending chunk went.
    pub fn report(&mut self, written: bool)
        ensures
            final(self)@ == old(self)@.after(written),
            final(self)@.wf(),
    {
        proof {
            use_type_invariant(&*self);
        }
        if !self.silenced && self.written < self.chunks.len() {
            if written {
                self.written = self.written + 1;
            } else {
                self.silenced = true;
            }
        }
    }

    /// Whether a write has failed, so that nothing more is written.
    pub fn is_silenced(&self) -> (silenced: bool)
        ensures
            silenced == self@.silenced,
    {
        self.silenced
    }

    /// Whether the whole picture has been written.
    pub fn is_complete(&self) -> (complete: bool)
        ensures
            complete == (self@.written == self@.chunks.len()),
    {
        self.written == self.chunks.len()
    }
}

/// A failed write silences the rest of the call. Whatever is reported to a
/// painter after a write has failed, it hands out no chunk and what has been
/// written stays as it is.
pub proof fn lemma_silenced_stays_silent(painter: PainterView, writes: Seq<bool>)
    requires
        painter.silenced,
    ensures
        painter.after_all(writes) == painter,
        painter.after_all(writes).pending() is None,
    decreases writes.len(),
{
    if writes.len() > 0 {
        lemma_silenced_stays_silent(painter, writes.drop_last());
    }
}

/// What has been written is always a run of whole chunks from the start of
/// the picture: a painter never skips a chunk and never goes back.
pub proof fn lemma_output_is_a_prefix(painter: PainterView, writes: Seq<bool>)
    requires
        painter.wf(),
    ensures
        painter.after_all(writes).wf(),
        painter.after_all(writes).chunks == painter.chunks,
        painter.written <= painter.after_all(writes).written <= painter.written + writes.len(),
        painter.silenced ==> painter.after_all(writes).silenced,
    decreases writes.len(),
{
    if writes.len() > 0 {
        lemma_output_is_a_prefix(painter, writes.drop_last());
    }
}

/// With every write going through, a fresh painter writes the whole picture
/// and then hands out nothing more.
pub proof fn lemma_undisturbed_painter(painter: PainterView, writes: Seq<bool>)
    requires
        painter.written == 0,
        !painter.silenced,
        forall|k: int| 0 <= k < writes.len() ==> writes[k],
    ensures
        !painter.after_all(writes).silenced,
        painter.after_all(writes).chunks == painter.chunks,
        painter.after_all(writes).written == if writes.len() <= painter.chunks.len() {
            writes.len()
        } else {
            painter.chunks.len()
        },
        writes.len() >= painter.chunks.len() ==> {
            &&& painter.after_all(writes).pending() is None
            &&& painter.after_all(writes).output() == joined(painter.chunks)
        },
    decreases writes.len(),
{
    if writes.len() > 0 {
        lemma_undisturbed_painter(painter, writes.drop_last());
    }
    assert(painter.chunks.take(painter.chunks.len() as int) == painter.chunks);
}

} // verus!
