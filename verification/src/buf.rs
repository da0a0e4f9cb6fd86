//! Stream buffers.
//!
//! A stream buffer is a range together with the bookkeeping of a stream that
//! runs through it: how far it has been written, how far it has been read,
//! where its first byte lies in the whole stream, and whether more data will
//! ever arrive.

use crate::slice::{WuffsNativeSlice, WuffsSlice};
use vstd::prelude::*;

verus! {

/// The positions and the closed flag of a stream buffer.
#[derive(Debug, Clone, Copy, PartialEq, Eq)]
pub struct WuffsBufMeta {
    /// The bytes before this index hold data.
    pub wi: usize,
    /// The bytes before this index have been consumed.
    pub ri: usize,
    /// The position of the buffer's first byte in the whole stream.
    pub pos: u64,
    /// No data will be added to the stream after what the buffer holds.
    pub closed: bool,
}

/// A view of a range with the bookkeeping of the stream that runs through it.
///
/// The read position never passes the write position, and the write position
/// never passes the end of the range. The buffer keeps the range alive, or
/// borrowed, for as long as it lives.
pub struct WuffsBuf<'a> {
    data: WuffsSlice<'a, u8>,
    meta: WuffsBufMeta,
}

/// Whether positions fit a range of `len` bytes.
pub open spec fn positions_fit(len: usize, meta: WuffsBufMeta) -> bool {
    meta.ri <= meta.wi && meta.wi <= len
}

/// The bookkeeping of a buffer that has just been wrapped round a range of
/// `len` bytes: a closed buffer is full of data to read, an open one is empty
/// space to write to.
pub open spec fn initial_meta(len: usize, closed: bool) -> WuffsBufMeta {
    WuffsBufMeta { wi: if closed { len } else { 0 }, ri: 0, pos: 0, closed }
}

impl<'a> WuffsBuf<'a> {
    #[verifier::type_invariant]
    spec fn well_formed(&self) -> bool {
        positions_fit(self.data.native().len, self.meta)
    }

    /// The range that the buffer covers, as the codec sees it.
    pub closed spec fn spec_data(&self) -> WuffsNativeSlice {
        self.data.native()
    }

    /// The buffer's bookkeeping.
    pub closed spec fn spec_meta(&self) -> WuffsBufMeta {
        self.meta
    }

    /// Whether the buffer may take on `meta` after a codec call: the positions
    /// fit the range, and a closed stream stays closed.
    pub open spec fn admits(&self, meta: WuffsBufMeta) -> bool {
        &&& positions_fit(self.spec_data().len, meta)
        &&& self.spec_meta().closed ==> meta.closed
    }

    /// Wraps a view as a stream buffer. A closed buffer starts out full, an
    /// open one empty; nothing has been read, and the stream starts here.
    pub fn new(data: WuffsSlice<'a, u8>, closed: bool) -> (buf: Self)
        ensures
            buf.spec_data() == data.native(),
            buf.spec_meta() == initial_meta(data.native().len, closed),
    {
        let wi: usize = if closed {
            data.inner().len
        } else {
            0
        };
        WuffsBuf { data, meta: WuffsBufMeta { wi, ri: 0, pos: 0, closed } }
    }

    /// An empty buffer over `buf` for the codec to write to.
    pub fn from_slice(buf: &'a mut [u8]) -> (wrapped: Self)
        ensures
            wrapped.spec_data().len == old(buf)@.len(),
            wrapped.spec_meta() == initial_meta(wrapped.spec_data().len, false),
            final(buf)@ == old(buf)@,
    {
        WuffsBuf::new(WuffsSlice::borrowed(buf), false)
    }

    /// A full, closed buffer over `buf` for the codec to read from.
    ///
    /// The buffer does not remember that the range is read-only: it may be
    /// handed to the codec only as the source of a call.
    pub fn from_slice_readonly(buf: &'a [u8]) -> (wrapped: Self)
        ensures
            wrapped.spec_data().len == buf@.len(),
            wrapped.spec_meta() == initial_meta(wrapped.spec_data().len, true),
    {
        WuffsBuf::new(WuffsSlice::from(WuffsSlice::<u8>::from_readonly(buf)), true)
    }

    /// The range that the buffer covers, as the codec sees it.
    pub fn data(&self) -> (data: WuffsNativeSlice)
        ensures
            data == self.spec_data(),
    {
        *self.data.inner()
    }

    /// The buffer's bookkeeping.
    pub fn meta(&self) -> (meta: WuffsBufMeta)
        ensures
            meta == self.spec_meta(),
            positions_fit(self.spec_data().len, meta),
    {
        proof {
            use_type_invariant(self);
        }
        self.meta
    }

    /// Takes on the bookkeeping that a codec call left behind, if the buffer
    /// admits it; otherwise the buffer stays as it is. The positions are taken
    /// as they are, never adjusted.
    pub fn set_meta(&mut self, meta: WuffsBufMeta) -> (accepted: bool)
        ensures
            accepted == old(self).admits(meta),
            final(self).spec_data() == old(self).spec_data(),
            final(self).spec_meta() == if accepted {
                meta
            } else {
                old(self).spec_meta()
            },
    {
        if meta.ri <= meta.wi && meta.wi <= self.data.inner().len && (!self.meta.closed
            || meta.closed) {
            self.meta = meta;
            true
        } else {
            false
        }
    }

    /// The number of bytes in the range.
    pub fn len(&self) -> (len: usize)
        ensures
            len == self.spec_data().len,
    {
        self.data.inner().len
    }

    /// Whether the range holds no byte at all.
    pub fn is_empty(&self) -> (empty: bool)
        ensures
            empty == (self.spec_data().len == 0),
    {
        self.len() == 0
    }

    /// The position of the buffer's first byte in the whole stream.
    pub fn pos(&self) -> (pos: u64)
        ensures
            pos == self.spec_meta().pos,
    {
        self.meta.pos
    }

    /// The number of bytes that have been consumed from the buffer.
    pub fn read(&self) -> (read: usize)
        ensures
            read == self.spec_meta().ri,
            read <= self.spec_meta().wi,
            read <= self.spec_data().len,
    {
        proof {
            use_type_invariant(self);
        }
        self.meta.ri
    }

    /// The number of bytes that have been put into the buffer.
    pub fn written(&self) -> (written: usize)
        ensures
            written == self.spec_meta().wi,
            written <= self.spec_data().len,
    {
        proof {
            use_type_invariant(self);
        }
        self.meta.wi
    }

    /// Whether the stream ends with what the buffer holds.
    pub fn closed(&self) -> (closed: bool)
        ensures
            closed == self.spec_meta().closed,
    {
        self.meta.closed
    }
}

/// Whatever bookkeeping a buffer admits leaves the read position at or before
/// the write position and both within the range, and never reopens a closed
/// stream.
pub proof fn lemma_admitted_positions_in_range(buf: WuffsBuf<'_>, meta: WuffsBufMeta)
    requires
        buf.admits(meta),
    ensures
        meta.ri <= meta.wi <= buf.spec_data().len,
        buf.spec_meta().closed ==> meta.closed,
{
}

} // verus!
