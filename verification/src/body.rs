use vstd::prelude::*;

verus! {

use crate::errors::CoreError;

#[verifier::external_type_specification]
#[verifier::external_body]
pub struct ExBytes(bytes::Bytes);

/// The byte sequence a `bytes::Bytes` buffer holds.
pub uninterp spec fn byte_content(b: bytes::Bytes) -> Seq<u8>;

/// Relies on `<bytes::Bytes as From<Vec<u8>>>::from`: the buffer takes over
/// the vector's bytes unchanged.
#[verifier::external_body]
pub(crate) fn bytes_from_vec(v: Vec<u8>) -> (b: bytes::Bytes)
    ensures
        byte_content(b) == v@,
{
    bytes::Bytes::from(v)
}

/// Relies on `<bytes::Bytes as AsRef<[u8]>>::as_ref`: the slice is the
/// buffer's bytes unchanged.
#[verifier::external_body]
pub(crate) fn bytes_to_vec(b: &bytes::Bytes) -> (v: Vec<u8>)
    ensures
        v@ == byte_content(*b),
{
    b.as_ref().to_vec()
}

/// Relies on `Clone for bytes::Bytes`: the clone shares the same contents
/// without copying them.
#[verifier::external_body]
pub(crate) fn bytes_clone(b: &bytes::Bytes) -> (c: bytes::Bytes)
    ensures
        byte_content(c) == byte_content(*b),
{
    b.clone()
}

/// What the single-owner body slot holds.
#[derive(Debug)]
pub enum BodySlot {
    /// An unread async byte source is attached (the caller owns the actual
    /// stream); it can be streamed out once or buffered once.
    Streamable,
    /// The body was fully materialized; it can be reborrowed indefinitely.
    Reusable(bytes::Bytes),
    /// The body was streamed out, abandoned or closed; nothing is left.
    Empty,
    /// A buffering read is in flight; the source is checked out.
    CheckedOut,
}

/// Ghost mirror of [`BodySlot`].
pub enum SlotView {
    Streamable,
    Reusable(Seq<u8>),
    Empty,
    CheckedOut,
}

impl View for BodySlot {
    type V = SlotView;

    closed spec fn view(&self) -> SlotView {
        match self {
            BodySlot::Streamable => SlotView::Streamable,
            BodySlot::Reusable(b) => SlotView::Reusable(byte_content(*b)),
            BodySlot::Empty => SlotView::Empty,
            BodySlot::CheckedOut => SlotView::CheckedOut,
        }
    }
}

/// What a read request obliges the caller to do next.
#[derive(Debug)]
pub enum ReadPlan {
    /// The body is already buffered: build the response view over these
    /// bytes; no I/O happens.
    FromBuffer(bytes::Bytes),
    /// Stream the attached source directly; the slot is now empty, since
    /// streaming is single-shot.
    StreamOut,
    /// Drain the attached source into a buffer, then hand the bytes back
    /// through `finish_buffer` (or give up through `abandon`).
    Buffer,
}

/// Ghost mirror of [`ReadPlan`].
pub enum PlanView {
    FromBuffer(Seq<u8>),
    StreamOut,
    Buffer,
}

impl View for ReadPlan {
    type V = PlanView;

    closed spec fn view(&self) -> PlanView {
        match self {
            ReadPlan::FromBuffer(b) => PlanView::FromBuffer(byte_content(*b)),
            ReadPlan::StreamOut => PlanView::StreamOut,
            ReadPlan::Buffer => PlanView::Buffer,
        }
    }
}

/// What one read request does to the slot, and what it answers.
pub open spec fn spec_read(s: SlotView, stream: bool) -> (SlotView, Result<PlanView, CoreError>) {
    match s {
        SlotView::CheckedOut => (s, Err(CoreError::BorrowConflict)),
        SlotView::Empty => (s, Err(CoreError::StreamAlreadyConsumed)),
        SlotView::Reusable(data) => (s, Ok(PlanView::FromBuffer(data))),
        SlotView::Streamable => if stream {
            (SlotView::Empty, Ok(PlanView::StreamOut))
        } else {
            (SlotView::CheckedOut, Ok(PlanView::Buffer))
        },
    }
}

/// The result of a read request, at the model level.
pub open spec fn plan_view(r: Result<ReadPlan, CoreError>) -> Result<PlanView, CoreError> {
    match r {
        Ok(p) => Ok(p@),
        Err(e) => Err(e),
    }
}

/// A single-owner-at-a-time slot holding a response body: either an unread
/// async byte source or a fully materialized buffer.
///
/// Converting the source into the buffer is a one-time, idempotent step;
/// the buffered form can be reborrowed indefinitely; streaming the source
/// out is single-shot.  A read that arrives while a buffering read has the
/// source checked out fails with `BorrowConflict` instead of blocking:
/// concurrent double-reads are a programming error, not a race to recover
/// from silently.
#[derive(Debug)]
pub struct ResponseBodyHolder {
    slot: BodySlot,
}

impl ResponseBodyHolder {
    /// The slot's model.
    pub closed spec fn slot_view(&self) -> SlotView {
        self.slot@
    }

    /// A holder for a response whose body has not been read: the unread
    /// source is attached.
    pub fn new_streaming() -> (h: ResponseBodyHolder)
        ensures
            h.slot_view() is Streamable,
    {
        ResponseBodyHolder { slot: BodySlot::Streamable }
    }

    /// A holder whose body is already materialized.
    pub fn new_buffered(data: Vec<u8>) -> (h: ResponseBodyHolder)
        ensures
            h.slot_view() == SlotView::Reusable(data@),
    {
        ResponseBodyHolder { slot: BodySlot::Reusable(bytes_from_vec(data)) }
    }

    /// Request the body, either streaming (`stream == true`) or buffered.
    ///
    /// The answer tells the caller what to do: reuse the stored buffer,
    /// stream the attached source out once, or drain the source and hand
    /// the bytes back through [`Self::finish_buffer`].
    pub fn begin_read(&mut self, stream: bool) -> (r: Result<ReadPlan, CoreError>)
        ensures
            final(self).slot_view() == spec_read(old(self).slot_view(), stream).0,
            plan_view(r) == spec_read(old(self).slot_view(), stream).1,
    {
        match &self.slot {
            BodySlot::CheckedOut => Err(CoreError::BorrowConflict),
            BodySlot::Empty => Err(CoreError::StreamAlreadyConsumed),
            BodySlot::Reusable(b) => {
                let copy = bytes_clone(b);
                Ok(ReadPlan::FromBuffer(copy))
            },
            BodySlot::Streamable => {
                if stream {
                    self.slot = BodySlot::Empty;
                    Ok(ReadPlan::StreamOut)
                } else {
                    self.slot = BodySlot::CheckedOut;
                    Ok(ReadPlan::Buffer)
                }
            },
        }
    }

    /// Complete a buffering read: store the drained bytes so that every
    /// later read reuses them, and hand back a cheap copy for the current
    /// response view.
    pub fn finish_buffer(&mut self, data: Vec<u8>) -> (r: bytes::Bytes)
        requires
            old(self).slot_view() is CheckedOut,
        ensures
            final(self).slot_view() == SlotView::Reusable(data@),
            byte_content(r) == data@,
    {
        let stored = bytes_from_vec(data);
        let copy = bytes_clone(&stored);
        self.slot = BodySlot::Reusable(stored);
        copy
    }

    /// Give up a buffering read that failed: the body is gone.
    pub fn abandon(&mut self)
        requires
            old(self).slot_view() is CheckedOut,
        ensures
            final(self).slot_view() is Empty,
    {
        self.slot = BodySlot::Empty;
    }

    /// Drop whatever the slot holds.  Runs under the interpreter lock in
    /// the embedding, since releasing the source may trigger
    /// interpreter-visible finalization.
    pub fn close(&mut self)
        ensures
            final(self).slot_view() is Empty,
    {
        self.slot = BodySlot::Empty;
    }

    /// The materialized body, if the slot holds one.
    pub fn buffered(&self) -> (r: Option<Vec<u8>>)
        ensures
            match self.slot_view() {
                SlotView::Reusable(data) => r matches Some(v) && v@ == data,
                _ => r is None,
            },
    {
        match &self.slot {
            BodySlot::Reusable(b) => Some(bytes_to_vec(b)),
            _ => None,
        }
    }
}

/// Body reuse idempotence: once a buffering read has materialized the
/// body, every subsequent read — buffered or streaming — answers the very
/// same bytes straight from the buffer and leaves the slot unchanged; in
/// particular no read is ever again asked to drain the source, so no
/// further I/O happens.
pub proof fn lemma_body_reuse(data: Seq<u8>, stream: bool)
    ensures
        spec_read(SlotView::Reusable(data), stream) == (
            SlotView::Reusable(data),
            Result::<PlanView, CoreError>::Ok(PlanView::FromBuffer(data)),
        ),
        spec_read(spec_read(SlotView::Reusable(data), stream).0, stream) == spec_read(
            SlotView::Reusable(data),
            stream,
        ),
{
}

} // verus!
