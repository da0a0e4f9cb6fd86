//! Streaming hashers.
//!
//! A hasher owns the codec's state. An update is a single codec call that
//! cannot fail: the hasher says what the call is to be made with, and the
//! value that the call returns is the checksum of everything fed so far.

pub mod adler32;
pub mod crc32;

use crate::boxed::WuffsBox;
use crate::slice::WuffsSlice;
use crate::status::{result_of, ErrorView, WuffsError, WuffsStatus};
use vstd::prelude::*;

verus! {

/// A checksum that is fed piece by piece.
pub trait WuffsHash {
    /// Feeds `buf` and returns the checksum of everything fed so far.
    fn update(&mut self, buf: &[u8]) -> u32;
}

/// What one update call is made with. It keeps the hasher and the bytes
/// borrowed until the call has been made.
pub struct WuffsHashCall<'a> {
    /// The address of the codec's state.
    pub handle: usize,
    /// The bytes to feed, which the codec only reads.
    pub data: WuffsSlice<'a, u8>,
}

/// The state of a hasher of kind `T`.
pub struct WuffsHasher<T> {
    inner: WuffsBox<T>,
}

impl<T> WuffsHasher<T> {
    /// The bytes of the codec's state as this library last left them.
    pub closed spec fn spec_handle(&self) -> Seq<u8> {
        self.inner@
    }

    /// The address of the codec's state.
    pub closed spec fn spec_addr(&self) -> usize {
        self.inner.spec_addr()
    }

    /// Makes a hasher of a state block that the codec's initialize call has
    /// been run on, given the status of that call. Anything but plain
    /// success fails, and then there is no hasher.
    pub fn new(inner: WuffsBox<T>, status: WuffsStatus<()>) -> (result: Result<Self, WuffsError>)
        requires
            inner.spec_initialized(),
        ensures
            result is Ok <==> status@ is Success,
            result is Ok ==> result->Ok_0.spec_handle() == inner@ && result->Ok_0.spec_addr()
                == inner.spec_addr(),
            result is Err ==> Err::<(), ErrorView>(result->Err_0@) == result_of(status@),
    {
        match status.into_result() {
            Ok(_) => Ok(WuffsHasher { inner }),
            Err(err) => Err(err),
        }
    }

    /// The number of bytes in the codec's state.
    pub fn size(&self) -> (size: usize)
        ensures
            size == self.spec_handle().len(),
    {
        self.inner.size()
    }

    /// Says what the next update call is to be made with: the codec's state
    /// and the whole of `buf`.
    pub fn prepare<'a>(&'a mut self, buf: &'a [u8]) -> (call: WuffsHashCall<'a>)
        ensures
            call.handle == old(self).spec_addr(),
            call.data.native().len == buf@.len(),
            final(self).spec_handle() == old(self).spec_handle(),
            final(self).spec_addr() == old(self).spec_addr(),
    {
        let data: WuffsSlice<'a, u8> = WuffsSlice::from(WuffsSlice::<u8>::from_readonly(buf));
        let handle: usize = self.inner.as_mut_ptr();
        WuffsHashCall { handle, data }
    }
}

} // verus!
