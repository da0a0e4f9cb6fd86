//! Byte ranges as the codec sees them.
//!
//! The codec takes a range as the address of its first element and its length.
//! A view pairs that picture with the borrow or the storage that keeps the
//! range alive for as long as the view lives.

use core::marker::PhantomData;
use vstd::prelude::*;

verus! {

/// The codec's picture of a range: where it starts and how many elements it
/// holds.
#[derive(Debug, Clone, Copy, PartialEq, Eq)]
pub struct WuffsNativeSlice {
    pub ptr: usize,
    pub len: usize,
}

/// What the library reads of a range in the codec's representation.
pub trait WuffsSliceNative<T> {
    /// The number of elements in the range.
    spec fn spec_len(&self) -> usize;

    /// The number of elements in the range.
    fn len(&self) -> (len: usize)
        ensures
            len == self.spec_len(),
    ;
}

/// An element type whose ranges can be handed to the codec.
pub trait WuffsSliceImpl: Sized + Clone {
    type Native: WuffsSliceNative<Self> + Clone;

    /// The codec's picture of a range that the codec may write to.
    fn from(slice: &mut [Self]) -> (native: Self::Native)
        ensures
            native.spec_len() == old(slice)@.len(),
            final(slice)@ == old(slice)@,
    ;

    /// The codec's picture of a range that the codec only reads.
    ///
    /// The picture does not remember that the range is read-only: it may be
    /// handed only to codec calls that do not write through it.
    fn from_readonly(slice: &[Self]) -> (native: Self::Native)
        ensures
            native.spec_len() == slice@.len(),
    ;
}

impl WuffsSliceNative<u8> for WuffsNativeSlice {
    open spec fn spec_len(&self) -> usize {
        self.len
    }

    fn len(&self) -> (len: usize) {
        self.len
    }
}

/// The address of the first byte of `slice`, through `<[u8]>::as_ptr`. Nothing
/// is claimed of the address.
#[verifier::external_body]
pub(crate) fn address_of(slice: &[u8]) -> (ptr: usize) {
    slice.as_ptr() as usize
}

/// The address of the first byte of `slice`, through `<[u8]>::as_mut_ptr`.
/// Nothing is claimed of the address; taking it leaves the bytes as they are.
#[verifier::external_body]
pub(crate) fn address_of_mut(slice: &mut [u8]) -> (ptr: usize)
    ensures
        final(slice)@ == old(slice)@,
{
    slice.as_mut_ptr() as usize
}

impl WuffsSliceImpl for u8 {
    type Native = WuffsNativeSlice;

    fn from(slice: &mut [u8]) -> (native: WuffsNativeSlice) {
        let len: usize = slice.len();
        let ptr: usize = address_of_mut(slice);
        let native = WuffsNativeSlice { ptr, len };
        assert(native.spec_len() == len);
        native
    }

    fn from_readonly(slice: &[u8]) -> (native: WuffsNativeSlice) {
        let native = WuffsNativeSlice { ptr: address_of(slice), len: slice.len() };
        assert(native.spec_len() == slice@.len());
        native
    }
}

/// Bytes that can be handed to the codec for reading as they are.
pub trait IntoWuffsSlice: Sized {
    /// The bytes that the codec will see.
    spec fn spec_bytes(self) -> Seq<u8>;

    /// The codec's picture of the bytes, for calls that only read them.
    fn into_wuffs_slice_u8(self) -> (native: WuffsNativeSlice)
        ensures
            native.len == self.spec_bytes().len(),
    ;
}

impl<'a> IntoWuffsSlice for &'a [u8] {
    open spec fn spec_bytes(self) -> Seq<u8> {
        self@
    }

    fn into_wuffs_slice_u8(self) -> (native: WuffsNativeSlice) {
        <u8 as WuffsSliceImpl>::from_readonly(self)
    }
}

impl<'a> IntoWuffsSlice for &'a Vec<u8> {
    open spec fn spec_bytes(self) -> Seq<u8> {
        self@
    }

    fn into_wuffs_slice_u8(self) -> (native: WuffsNativeSlice) {
        <u8 as WuffsSliceImpl>::from_readonly(self.as_slice())
    }
}

/// A view that owns the storage of its range.
pub struct WuffsSliceOwned<T: WuffsSliceImpl> {
    data: Vec<T>,
    inner: T::Native,
}

impl<T: WuffsSliceImpl> WuffsSliceOwned<T> {
    #[verifier::type_invariant]
    spec fn consistent(&self) -> bool {
        self.inner.spec_len() == self.data@.len()
    }

    /// The elements that the view owns.
    pub closed spec fn view(&self) -> Seq<T> {
        self.data@
    }

    /// The codec's picture of the owned range.
    pub closed spec fn native(&self) -> T::Native {
        self.inner
    }

    /// Takes `data` as the storage of a new view.
    pub fn new(data: Vec<T>) -> (owned: Self)
        ensures
            owned@ == data@,
            owned.native().spec_len() == data@.len(),
    {
        let mut data = data;
        let inner = T::from(data.as_mut_slice());
        WuffsSliceOwned { data, inner }
    }

    /// Gives the storage back.
    pub fn into_data(self) -> (data: Vec<T>)
        ensures
            data@ == self@,
    {
        self.data
    }

    /// The codec's picture of the owned range.
    pub fn inner(&self) -> (native: &T::Native)
        ensures
            *native == self.native(),
            native.spec_len() == self@.len(),
    {
        proof {
            use_type_invariant(self);
        }
        &self.inner
    }
}

/// A view of a range that belongs to the caller, who cannot touch the range
/// while the view lives.
pub struct WuffsSliceBorrowed<'a, T: WuffsSliceImpl> {
    inner: T::Native,
    phantom: PhantomData<&'a mut [T]>,
}

impl<'a, T: WuffsSliceImpl> WuffsSliceBorrowed<'a, T> {
    /// The codec's picture of the borrowed range.
    pub closed spec fn native(&self) -> T::Native {
        self.inner
    }

    /// Borrows `slice` for the codec to write to.
    pub fn new(slice: &'a mut [T]) -> (borrowed: Self)
        ensures
            borrowed.native().spec_len() == old(slice)@.len(),
            final(slice)@ == old(slice)@,
    {
        WuffsSliceBorrowed { inner: T::from(slice), phantom: PhantomData }
    }

    /// Wraps a picture of a range that something else keeps alive.
    pub fn from(inner: T::Native) -> (borrowed: Self)
        ensures
            borrowed.native() == inner,
    {
        WuffsSliceBorrowed { inner, phantom: PhantomData }
    }

    /// The codec's picture of the borrowed range.
    pub fn inner(&self) -> (native: &T::Native)
        ensures
            *native == self.native(),
    {
        &self.inner
    }
}

/// A range on its way to the codec, together with what keeps it alive.
pub enum WuffsSlice<'a, T: WuffsSliceImpl> {
    Owned(WuffsSliceOwned<T>),
    Borrowed(WuffsSliceBorrowed<'a, T>),
}

impl<'a, T: WuffsSliceImpl> WuffsSlice<'a, T> {
    /// The codec's picture of the range.
    pub open spec fn native(&self) -> T::Native {
        match *self {
            WuffsSlice::Owned(owned) => owned.native(),
            WuffsSlice::Borrowed(borrowed) => borrowed.native(),
        }
    }

    /// Wraps a picture of a range that something else keeps alive.
    pub fn from(inner: T::Native) -> (slice: Self)
        ensures
            slice is Borrowed,
            slice.native() == inner,
    {
        WuffsSlice::Borrowed(WuffsSliceBorrowed::from(inner))
    }

    /// The codec's picture of a range that the codec only reads.
    pub fn from_readonly(slice: &[T]) -> (native: T::Native)
        ensures
            native.spec_len() == slice@.len(),
    {
        T::from_readonly(slice)
    }

    /// Borrows `slice` for the codec to write to.
    pub fn borrowed(slice: &'a mut [T]) -> (view: Self)
        ensures
            view is Borrowed,
            view.native().spec_len() == old(slice)@.len(),
            final(slice)@ == old(slice)@,
    {
        WuffsSlice::Borrowed(WuffsSliceBorrowed::new(slice))
    }

    /// Takes `data` as the storage of a new owning view.
    pub fn owned(data: Vec<T>) -> (view: Self)
        ensures
            view == WuffsSlice::<'a, T>::Owned(view->Owned_0),
            view->Owned_0@ == data@,
            view.native().spec_len() == data@.len(),
    {
        WuffsSlice::Owned(WuffsSliceOwned::new(data))
    }

    /// The codec's picture of the range.
    pub fn inner(&self) -> (native: &T::Native)
        ensures
            *native == self.native(),
    {
        match self {
            WuffsSlice::Owned(owned) => owned.inner(),
            WuffsSlice::Borrowed(borrowed) => borrowed.inner(),
        }
    }
}

} // verus!
