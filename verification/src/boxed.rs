//! The codec's opaque state.
//!
//! A codec keeps its state in a block of memory whose size only the codec
//! knows, and only at run time. The block is allocated here, zero-filled, and
//! belongs to exactly one value; the codec gets its address and nothing else.
//! A block is initialized by the codec once, before anything else is done
//! with it. It is never resized, so it stays at the address at which it was
//! allocated for as long as it lives, wherever its owner moves.

use crate::slice::address_of_mut;
use core::marker::PhantomData;
use vstd::prelude::*;

verus! {

/// A codec state whose size the codec reports at run time.
pub trait WuffsBoxed {
    /// The number of bytes that a state of this kind takes.
    spec fn spec_size() -> usize;

    /// The number of bytes that a state of this kind takes, as the codec
    /// reports it.
    fn size() -> (size: usize)
        ensures
            size == Self::spec_size(),
    ;
}

/// The initialize option that tells the codec that the state block holds
/// nothing but zero bytes, so that the codec need not clear it again.
pub const WUFFS_INITIALIZE_ALREADY_ZEROED: u32 = 0x0000_0001;

/// What the codec's initialize call is made with.
#[derive(Debug, Clone, Copy, PartialEq, Eq)]
pub struct WuffsInitCall {
    /// The address of the state block.
    pub handle: usize,
    /// The number of bytes in the state block.
    pub size: usize,
    /// The version of the codec that the caller was built for.
    pub version: u64,
    /// The initialize options.
    pub flags: u32,
}

/// `len` zero bytes.
pub open spec fn zeroed(len: usize) -> Seq<u8> {
    Seq::new(len as nat, |i: int| 0u8)
}

/// A heap-allocated block for a codec state of kind `T`. The kind only keeps
/// the blocks of different codecs apart; nothing here looks into the block.
pub struct WuffsBox<T> {
    handle: Vec<u8>,
    /// Where `handle` keeps its bytes, taken when they were allocated.
    addr: usize,
    initialized: bool,
    phantom: PhantomData<T>,
}

impl<T> View for WuffsBox<T> {
    type V = Seq<u8>;

    /// The bytes of the block as this library last left them.
    closed spec fn view(&self) -> Seq<u8> {
        self.handle@
    }
}

impl<T> WuffsBox<T> {
    /// Whether the initialize call for the block has been asked for.
    pub closed spec fn spec_initialized(&self) -> bool {
        self.initialized
    }

    /// The address of the block: the one that it was allocated at. Which
    /// address that is, is the allocator's choice.
    pub closed spec fn spec_addr(&self) -> usize {
        self.addr
    }

    /// Allocates a zero-filled block of `size` bytes that is yet to be
    /// initialized.
    pub fn new(size: usize) -> (boxed: Self)
        ensures
            boxed@ == zeroed(size),
            !boxed.spec_initialized(),
    {
        let mut handle: Vec<u8> = vec![0u8; size];
        assert(handle@ =~= zeroed(size));
        let addr: usize = address_of_mut(handle.as_mut_slice());
        WuffsBox { handle, addr, initialized: false, phantom: PhantomData }
    }

    /// Whether the initialize call for the block has been asked for.
    pub fn is_initialized(&self) -> (initialized: bool)
        ensures
            initialized == self.spec_initialized(),
    {
        self.initialized
    }

    /// The number of bytes in the block.
    pub fn size(&self) -> (size: usize)
        ensures
            size == self@.len(),
    {
        self.handle.len()
    }

    /// Says what the codec's initialize call is to be made with. The block is
    /// announced at its address, with its true size and, since it was
    /// allocated zero-filled, as already zeroed. A block is initialized once:
    /// asked again, it gives nothing.
    pub fn initialize(&mut self, version: u64) -> (call: Option<WuffsInitCall>)
        ensures
            call is Some <==> !old(self).spec_initialized(),
            call is Some ==> {
                &&& call->0.handle == old(self).spec_addr()
                &&& call->0.size == old(self)@.len()
                &&& call->0.version == version
                &&& call->0.flags == WUFFS_INITIALIZE_ALREADY_ZEROED
            },
            final(self).spec_initialized(),
            final(self).spec_addr() == old(self).spec_addr(),
            final(self)@ == old(self)@,
    {
        if self.initialized {
            None
        } else {
            self.initialized = true;
            let size: usize = self.handle.len();
            let handle: usize = self.addr;
            Some(WuffsInitCall { handle, size, version, flags: WUFFS_INITIALIZE_ALREADY_ZEROED })
        }
    }

    /// The address of the block, for a codec call that only reads the state.
    /// Every call gives the same address, the one that `as_mut_ptr` gives.
    pub fn as_ptr(&self) -> (ptr: usize)
        ensures
            ptr == self.spec_addr(),
    {
        self.addr
    }

    /// The address of the block, for a codec call that may change the state.
    /// Every call gives the same address. The block stays where it is and
    /// keeps its size, and this library leaves its bytes alone.
    pub fn as_mut_ptr(&mut self) -> (ptr: usize)
        ensures
            ptr == old(self).spec_addr(),
            final(self).spec_addr() == old(self).spec_addr(),
            final(self)@ == old(self)@,
            final(self).spec_initialized() == old(self).spec_initialized(),
    {
        self.addr
    }
}

impl<T: WuffsBoxed> Default for WuffsBox<T> {
    /// Allocates a zero-filled block of the size that the kind reports,
    /// yet to be initialized.
    fn default() -> (boxed: Self)
        ensures
            boxed@ == zeroed(T::spec_size()),
            !boxed.spec_initialized(),
    {
        let size: usize = T::size();
        WuffsBox::new(size)
    }
}

} // verus!
