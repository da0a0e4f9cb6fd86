//! The CRC-32 hasher.

use crate::boxed::WuffsBox;
use crate::hash::{WuffsHashCall, WuffsHasher};
use crate::status::{result_of, ErrorView, WuffsError, WuffsStatus};
use vstd::prelude::*;

verus! {

/// The kind of state that the codec keeps for a CRC-32 hasher.
#[derive(Debug, Clone, Copy)]
pub struct Crc32State;

/// A streaming CRC-32 hasher.
pub struct WuffsCrc32(pub WuffsHasher<Crc32State>);

impl WuffsCrc32 {
    /// Makes a hasher of a state block that the codec's initialize call has
    /// been run on, given the status of that call. Anything but plain
    /// success fails, and then there is no hasher.
    pub fn new(inner: WuffsBox<Crc32State>, status: WuffsStatus<()>) -> (result: Result<
        Self,
        WuffsError,
    >)
        requires
            inner.spec_initialized(),
        ensures
            result is Ok <==> status@ is Success,
            result is Ok ==> result->Ok_0.0.spec_handle() == inner@ && result->Ok_0.0.spec_addr()
                == inner.spec_addr(),
            result is Err ==> Err::<(), ErrorView>(result->Err_0@) == result_of(status@),
    {
        match WuffsHasher::new(inner, status) {
            Ok(hasher) => Ok(WuffsCrc32(hasher)),
            Err(err) => Err(err),
        }
    }

    /// Says what the next update call is to be made with: the codec's state
    /// and the whole of `buf`.
    pub fn prepare<'a>(&'a mut self, buf: &'a [u8]) -> (call: WuffsHashCall<'a>)
        ensures
            call.handle == old(self).0.spec_addr(),
            call.data.native().len == buf@.len(),
            final(self).0.spec_handle() == old(self).0.spec_handle(),
            final(self).0.spec_addr() == old(self).0.spec_addr(),
    {
        self.0.prepare(buf)
    }
}

} // verus!
