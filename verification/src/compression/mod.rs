//! Streaming decoders.
//!
//! A decoder owns the codec's state and a scratch buffer. One transform call
//! runs in three steps: the decoder says what the call is to be made with, the
//! call is made, and the decoder turns the status and the positions that the
//! call left behind into the caller's result. A decoder whose codec has failed
//! for good never hands its state out again: asked for another call, it gives
//! the error that the codec failed with.

pub mod deflate;
pub mod gzip;
pub mod lzw;
pub mod zlib;

use crate::boxed::{zeroed, WuffsBox};
use crate::buf::{initial_meta, WuffsBuf, WuffsBufMeta};
use crate::slice::{WuffsNativeSlice, WuffsSliceOwned};
use crate::status::{
    result_of, result_view, ErrorView, StatusView, WuffsError, WuffsStatus,
};
use vstd::prelude::*;

verus! {

/// What one transform call is made with.
pub struct WuffsTransformCall<'a> {
    /// The address of the codec's state.
    pub handle: usize,
    /// The buffer that the codec writes to.
    pub dst: WuffsBuf<'a>,
    /// The buffer that the codec reads from and never writes to.
    pub src: WuffsBuf<'a>,
    /// The codec's scratch space.
    pub work: WuffsNativeSlice,
}

/// What a call that switches a quirk of the decoder on or off is made with.
#[derive(Debug, Clone, Copy, PartialEq, Eq)]
pub struct WuffsQuirkCall {
    /// The address of the codec's state.
    pub handle: usize,
    /// The quirk to set.
    pub quirk: u32,
    /// Whether the quirk is to be on.
    pub enabled: bool,
}

/// Whether a codec has failed for good once a call has returned `status`:
/// an error is final, and nothing undoes it.
pub open spec fn fatal_after(fatal: bool, status: StatusView<()>) -> bool {
    fatal || status is Error
}

/// The message that a codec has failed for good with, if it has, once a call
/// has returned `status`: the first error stays, whatever comes later.
pub open spec fn failure_after(failure: Option<Seq<char>>, status: StatusView<()>) -> Option<
    Seq<char>,
> {
    match failure {
        Some(_) => failure,
        None => match status {
            StatusView::Error(message) => Some(message),
            _ => None,
        },
    }
}

/// What a transform call amounts to for the caller, given the status that it
/// returned, the read position that it left in the source and the write
/// position that it left in the destination. Success reports both counts. A
/// suspension is a failure that carries both counts too, since the call has
/// made that much progress. A note and an error are failures of their own.
pub open spec fn decode_result_of(status: StatusView<()>, consumed: usize, produced: usize)
    -> Result<(usize, usize), ErrorView> {
    match status {
        StatusView::Success(_) => Ok((consumed, produced)),
        StatusView::Suspension(suspension) => Err(
            ErrorView::Partial { suspension, consumed, produced },
        ),
        StatusView::Note(note) => Err(ErrorView::Note(note)),
        StatusView::Error(message) => Err(ErrorView::Message(message)),
    }
}

/// Turns the outcome of a transform call into the caller's result.
pub fn decode_result(status: WuffsStatus<()>, src: &WuffsBuf, dst: &WuffsBuf) -> (result: Result<
    (usize, usize),
    WuffsError,
>)
    ensures
        result_view(result) == decode_result_of(
            status@,
            src.spec_meta().ri,
            dst.spec_meta().wi,
        ),
        result is Ok ==> result->Ok_0.0 <= src.spec_data().len && result->Ok_0.1
            <= dst.spec_data().len,
        result is Err ==> (result->Err_0 matches WuffsError::Partial { consumed, produced, .. }
            ==> consumed <= src.spec_data().len && produced <= dst.spec_data().len),
{
    let consumed: usize = src.read();
    let produced: usize = dst.written();
    match status.into_result() {
        Ok(_) => Ok((consumed, produced)),
        Err(WuffsError::Suspension(suspension)) => Err(
            WuffsError::Partial { suspension, consumed, produced },
        ),
        Err(err) => Err(err),
    }
}

/// The state of a decoder of kind `T`: the codec's state, the scratch buffer,
/// and the error that the codec has failed for good with, if it has.
pub struct WuffsDecoder<T> {
    work: WuffsSliceOwned<u8>,
    inner: WuffsBox<T>,
    failure: Option<String>,
}

impl<T> WuffsDecoder<T> {
    /// The message of the error that the codec has failed for good with, if
    /// it has.
    pub closed spec fn spec_failure(&self) -> Option<Seq<char>> {
        match self.failure {
            Some(message) => Some(message@),
            None => None,
        }
    }

    /// Whether the codec has failed for good.
    pub open spec fn spec_fatal(&self) -> bool {
        self.spec_failure() is Some
    }

    /// The bytes of the codec's state as this library last left them.
    pub closed spec fn spec_handle(&self) -> Seq<u8> {
        self.inner@
    }

    /// The address of the codec's state.
    pub closed spec fn spec_addr(&self) -> usize {
        self.inner.spec_addr()
    }

    /// The bytes of the scratch buffer as this library last left them.
    pub closed spec fn spec_work(&self) -> Seq<u8> {
        self.work@
    }

    /// The codec's picture of the scratch buffer: where the decoder keeps it
    /// and how long it is.
    pub closed spec fn spec_work_slice(&self) -> WuffsNativeSlice {
        self.work.native()
    }

    /// Makes a decoder of a state block that the codec's initialize call has
    /// been run on, given the status of that call. Anything but plain
    /// success fails, and then there is no decoder. The scratch buffer is
    /// `work_len` zero bytes.
    pub fn new(inner: WuffsBox<T>, work_len: usize, status: WuffsStatus<()>) -> (result: Result<
        Self,
        WuffsError,
    >)
        requires
            inner.spec_initialized(),
        ensures
            result is Ok <==> status@ is Success,
            result is Ok ==> {
                &&& result->Ok_0.spec_handle() == inner@
                &&& result->Ok_0.spec_addr() == inner.spec_addr()
                &&& result->Ok_0.spec_work() == zeroed(work_len)
                &&& result->Ok_0.spec_work_slice().len == work_len
                &&& !result->Ok_0.spec_fatal()
            },
            result is Err ==> Err::<(), ErrorView>(result->Err_0@) == result_of(status@),
    {
        match status.into_result() {
            Ok(_) => {
                let work: Vec<u8> = vec![0u8; work_len];
                assert(work@ =~= zeroed(work_len));
                Ok(WuffsDecoder { work: WuffsSliceOwned::new(work), inner, failure: None })
            },
            Err(err) => Err(err),
        }
    }

    /// Whether the codec has failed for good.
    pub fn is_fatal(&self) -> (fatal: bool)
        ensures
            fatal == self.spec_fatal(),
    {
        self.failure.is_some()
    }

    /// The number of bytes in the codec's state.
    pub fn size(&self) -> (size: usize)
        ensures
            size == self.spec_handle().len(),
    {
        self.inner.size()
    }

    /// Says what the call that switches `quirk` on or off is to be made with.
    /// A decoder whose codec has failed for good gives nothing.
    pub fn set_quirk_enabled(&mut self, quirk: u32, enabled: bool) -> (call: Option<
        WuffsQuirkCall,
    >)
        ensures
            call is Some <==> !old(self).spec_fatal(),
            call is Some ==> call->0 == (WuffsQuirkCall {
                handle: old(self).spec_addr(),
                quirk,
                enabled,
            }),
            final(self).spec_failure() == old(self).spec_failure(),
            final(self).spec_handle() == old(self).spec_handle(),
            final(self).spec_addr() == old(self).spec_addr(),
            final(self).spec_work() == old(self).spec_work(),
            final(self).spec_work_slice() == old(self).spec_work_slice(),
    {
        if self.failure.is_some() {
            None
        } else {
            Some(WuffsQuirkCall { handle: self.inner.as_mut_ptr(), quirk, enabled })
        }
    }

    /// Says what the next transform call is to be made with: the whole of
    /// `src` as a full, closed source, the whole of `dst` as an empty
    /// destination, and the decoder's own scratch buffer. A decoder whose
    /// codec has failed for good gives the error that it failed with.
    pub fn prepare<'a>(&mut self, src: &'a [u8], dst: &'a mut [u8]) -> (call: Result<
        WuffsTransformCall<'a>,
        WuffsError,
    >)
        ensures
            call is Ok <==> !old(self).spec_fatal(),
            call is Ok ==> {
                &&& call->Ok_0.handle == old(self).spec_addr()
                &&& call->Ok_0.src.spec_data().len == src@.len()
                &&& call->Ok_0.src.spec_meta() == initial_meta(
                    call->Ok_0.src.spec_data().len,
                    true,
                )
                &&& call->Ok_0.dst.spec_data().len == old(dst)@.len()
                &&& call->Ok_0.dst.spec_meta() == initial_meta(
                    call->Ok_0.dst.spec_data().len,
                    false,
                )
                &&& call->Ok_0.work == old(self).spec_work_slice()
                &&& call->Ok_0.work.len == old(self).spec_work().len()
            },
            call is Err ==> call->Err_0@ == ErrorView::Message(old(self).spec_failure()->0),
            final(dst)@ == old(dst)@,
            final(self).spec_failure() == old(self).spec_failure(),
            final(self).spec_handle() == old(self).spec_handle(),
            final(self).spec_addr() == old(self).spec_addr(),
            final(self).spec_work() == old(self).spec_work(),
            final(self).spec_work_slice() == old(self).spec_work_slice(),
    {
        match &self.failure {
            Some(message) => Err(WuffsError::Message(message.clone())),
            None => {
                let src: WuffsBuf<'a> = WuffsBuf::from_slice_readonly(src);
                let dst: WuffsBuf<'a> = WuffsBuf::from_slice(dst);
                let work: WuffsNativeSlice = *self.work.inner();
                let handle: usize = self.inner.as_mut_ptr();
                Ok(WuffsTransformCall { handle, dst, src, work })
            },
        }
    }

    /// Takes the status that the transform call returned and the call with
    /// the positions that it left, and gives the caller's result. After an
    /// error the codec has failed for good, with the first such error.
    pub fn decode(&mut self, status: WuffsStatus<()>, call: &WuffsTransformCall<'_>) -> (result:
        Result<(usize, usize), WuffsError>)
        ensures
            result_view(result) == decode_result_of(
                status@,
                call.src.spec_meta().ri,
                call.dst.spec_meta().wi,
            ),
            result is Ok ==> result->Ok_0.0 <= call.src.spec_data().len && result->Ok_0.1
                <= call.dst.spec_data().len,
            result is Err ==> (result->Err_0 matches WuffsError::Partial { consumed, produced, .. }
                ==> consumed <= call.src.spec_data().len && produced
                <= call.dst.spec_data().len),
            final(self).spec_failure() == failure_after(old(self).spec_failure(), status@),
            final(self).spec_fatal() == fatal_after(old(self).spec_fatal(), status@),
            final(self).spec_handle() == old(self).spec_handle(),
            final(self).spec_addr() == old(self).spec_addr(),
            final(self).spec_work() == old(self).spec_work(),
            final(self).spec_work_slice() == old(self).spec_work_slice(),
    {
        if self.failure.is_none() {
            if let WuffsStatus::Error(message) = &status {
                self.failure = Some(message.clone());
            }
        }
        decode_result(status, &call.src, &call.dst)
    }
}

/// A codec that has failed for good stays so whatever its later calls return,
/// and an error makes any codec fail for good.
pub proof fn lemma_fatal_is_final(fatal: bool, first: StatusView<()>, second: StatusView<()>)
    ensures
        fatal ==> fatal_after(fatal, first),
        first is Error ==> fatal_after(fatal, first),
        fatal_after(fatal, first) ==> fatal_after(fatal_after(fatal, first), second),
        !fatal && !(first is Error) ==> !fatal_after(fatal, first),
{
}

/// The error that a codec has failed for good with is its first: later calls
/// neither change nor clear it, and a codec fails with an error exactly when
/// it has failed for good.
pub proof fn lemma_first_failure_stays(
    failure: Option<Seq<char>>,
    first: StatusView<()>,
    second: StatusView<()>,
)
    ensures
        failure is Some ==> failure_after(failure, first) == failure,
        failure is None && first is Error ==> failure_after(failure, first) == Some(
            first->Error_0,
        ),
        failure is None && !(first is Error) ==> failure_after(failure, first) is None,
        failure_after(failure, first) is Some ==> failure_after(
            failure_after(failure, first),
            second,
        ) == failure_after(failure, first),
        failure_after(failure, first) is Some <==> fatal_after(failure is Some, first),
{
}

/// The counts that a transform call reports never exceed the buffers that it
/// was made with: whatever status the call returned and whatever bookkeeping
/// the buffers admitted, what was consumed lies within the source and what
/// was produced within the destination. This holds of a suspension as of
/// success.
pub proof fn lemma_progress_within_buffers(
    status: StatusView<()>,
    src: WuffsBuf<'_>,
    src_meta: WuffsBufMeta,
    dst: WuffsBuf<'_>,
    dst_meta: WuffsBufMeta,
)
    requires
        src.admits(src_meta),
        dst.admits(dst_meta),
    ensures
        match decode_result_of(status, src_meta.ri, dst_meta.wi) {
            Ok((consumed, produced)) => consumed <= src.spec_data().len && produced
                <= dst.spec_data().len,
            Err(ErrorView::Partial { suspension, consumed, produced }) => consumed
                <= src.spec_data().len && produced <= dst.spec_data().len,
            Err(_) => true,
        },
        decode_result_of(status, src_meta.ri, dst_meta.wi) is Err && decode_result_of(
            status,
            src_meta.ri,
            dst_meta.wi,
        )->Err_0 is Partial <==> status is Suspension,
{
}

} // verus!
