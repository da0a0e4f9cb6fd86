//! The zlib decoder.

use crate::boxed::{zeroed, WuffsBox};
use crate::buf::initial_meta;
use crate::compression::{
    decode_result_of, failure_after, fatal_after, WuffsDecoder, WuffsQuirkCall,
    WuffsTransformCall,
};
use crate::status::{result_of, result_view, ErrorView, WuffsError, WuffsStatus};
use vstd::prelude::*;

verus! {

/// The kind of state that the codec keeps for a zlib decoder.
#[derive(Debug, Clone, Copy)]
pub struct ZlibState;

/// A streaming zlib decoder.
pub struct WuffsZlibDecoder(pub WuffsDecoder<ZlibState>);

impl WuffsZlibDecoder {
    /// Makes a decoder of a state block that the codec's initialize call has
    /// been run on, given the status of that call and the size of
    /// scratch buffer that the codec asks for. Anything but plain success
    /// fails, and then there is no decoder.
    pub fn new(inner: WuffsBox<ZlibState>, work_len: usize, status: WuffsStatus<()>) -> (result:
        Result<Self, WuffsError>)
        requires
            inner.spec_initialized(),
        ensures
            result is Ok <==> status@ is Success,
            result is Ok ==> {
                &&& result->Ok_0.0.spec_handle() == inner@
                &&& result->Ok_0.0.spec_addr() == inner.spec_addr()
                &&& result->Ok_0.0.spec_work() == zeroed(work_len)
                &&& result->Ok_0.0.spec_work_slice().len == work_len
                &&& !result->Ok_0.0.spec_fatal()
            },
            result is Err ==> Err::<(), ErrorView>(result->Err_0@) == result_of(status@),
    {
        match WuffsDecoder::new(inner, work_len, status) {
            Ok(decoder) => Ok(WuffsZlibDecoder(decoder)),
            Err(err) => Err(err),
        }
    }

    /// Says what the call that switches `quirk` on or off is to be made with.
    /// A decoder whose codec has failed for good gives nothing.
    pub fn set_quirk_enabled(&mut self, quirk: u32, enabled: bool) -> (call: Option<
        WuffsQuirkCall,
    >)
        ensures
            call is Some <==> !old(self).0.spec_fatal(),
            call is Some ==> call->0 == (WuffsQuirkCall {
                handle: old(self).0.spec_addr(),
                quirk,
                enabled,
            }),
            final(self).0.spec_failure() == old(self).0.spec_failure(),
            final(self).0.spec_handle() == old(self).0.spec_handle(),
            final(self).0.spec_addr() == old(self).0.spec_addr(),
            final(self).0.spec_work() == old(self).0.spec_work(),
            final(self).0.spec_work_slice() == old(self).0.spec_work_slice(),
    {
        self.0.set_quirk_enabled(quirk, enabled)
    }

    /// Says what the next transform call is to be made with: the whole of
    /// `src` as a full, closed source, the whole of `dst` as an empty
    /// destination, and the decoder's own scratch buffer. A decoder whose
    /// codec has failed for good gives the error that it failed with.
    pub fn prepare<'a>(&mut self, src: &'a [u8], dst: &'a mut [u8]) -> (call: Result<
        WuffsTransformCall<'a>,
        WuffsError,
    >)
        ensures
            call is Ok <==> !old(self).0.spec_fatal(),
            call is Ok ==> {
                &&& call->Ok_0.handle == old(self).0.spec_addr()
                &&& call->Ok_0.src.spec_data().len == src@.len()
                &&& call->Ok_0.src.spec_meta() == initial_meta(
                    call->Ok_0.src.spec_data().len,
                    true,
                )
                &&& call->Ok_0.dst.spec_data().len == old(dst)@.len()
                &&& call->Ok_0.dst.spec_meta() == initial_meta(
                    call->Ok_0.dst.spec_data().len,
                    false,
                )
                &&& call->Ok_0.work == old(self).0.spec_work_slice()
                &&& call->Ok_0.work.len == old(self).0.spec_work().len()
            },
            call is Err ==> call->Err_0@ == ErrorView::Message(old(self).0.spec_failure()->0),
            final(dst)@ == old(dst)@,
            final(self).0.spec_failure() == old(self).0.spec_failure(),
            final(self).0.spec_handle() == old(self).0.spec_handle(),
            final(self).0.spec_addr() == old(self).0.spec_addr(),
            final(self).0.spec_work() == old(self).0.spec_work(),
            final(self).0.spec_work_slice() == old(self).0.spec_work_slice(),
    {
        self.0.prepare(src, dst)
    }

    /// Takes the status that the transform call returned and the call with
    /// the positions that it left, and gives the caller's result: both counts
    /// on success, both counts inside the failure on a suspension, the note
    /// or the error otherwise. The counts lie within the two buffers. After
    /// an error the codec has failed for good, with the first such error.
    pub fn decode(&mut self, status: WuffsStatus<()>, call: &WuffsTransformCall<'_>) -> (result:
        Result<(usize, usize), WuffsError>)
        ensures
            result_view(result) == decode_result_of(
                status@,
                call.src.spec_meta().ri,
                call.dst.spec_meta().wi,
            ),
            result is Ok ==> result->Ok_0.0 <= call.src.spec_data().len && result->Ok_0.1
                <= call.dst.spec_data().len,
            result is Err ==> (result->Err_0 matches WuffsError::Partial { consumed, produced, .. }
                ==> consumed <= call.src.spec_data().len && produced
                <= call.dst.spec_data().len),
            final(self).0.spec_failure() == failure_after(old(self).0.spec_failure(), status@),
            final(self).0.spec_fatal() == fatal_after(old(self).0.spec_fatal(), status@),
            final(self).0.spec_handle() == old(self).0.spec_handle(),
            final(self).0.spec_addr() == old(self).0.spec_addr(),
            final(self).0.spec_work() == old(self).0.spec_work(),
            final(self).0.spec_work_slice() == old(self).0.spec_work_slice(),
    {
        self.0.decode(status, call)
    }
}

} // verus!
