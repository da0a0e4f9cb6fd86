use wuffs::boxed::{WuffsBox, WuffsBoxed, WuffsInitCall, WUFFS_INITIALIZE_ALREADY_ZEROED};
use wuffs::buf::{WuffsBuf, WuffsBufMeta};
use wuffs::slice::{
    IntoWuffsSlice, WuffsNativeSlice, WuffsSlice, WuffsSliceBorrowed, WuffsSliceImpl,
    WuffsSliceNative, WuffsSliceOwned,
};

struct SevenBytes;

impl WuffsBoxed for SevenBytes {
    fn spec_size() -> usize {
        7
    }

    fn size() -> usize {
        7
    }
}

struct Tag;

#[test]
fn box_has_the_size_it_was_given() {
    assert_eq!(WuffsBox::<Tag>::new(0).size(), 0);
    assert_eq!(WuffsBox::<Tag>::new(1).size(), 1);
    assert_eq!(WuffsBox::<Tag>::new(4096).size(), 4096);
}

#[test]
fn default_box_has_the_size_of_its_kind() {
    let boxed: WuffsBox<SevenBytes> = WuffsBox::default();
    assert_eq!(boxed.size(), 7);
}

#[test]
fn box_address_is_stable_and_not_null() {
    let mut boxed = WuffsBox::<Tag>::new(64);
    let first = boxed.as_mut_ptr();
    let second = boxed.as_mut_ptr();
    assert_ne!(first, 0);
    assert_eq!(first, second);
    assert_eq!(boxed.as_ptr(), first);
    assert_eq!(boxed.size(), 64);
}

#[test]
fn box_keeps_its_address_when_it_moves() {
    let mut boxed = WuffsBox::<Tag>::new(128);
    let before = boxed.as_mut_ptr();
    let mut shelf = vec![boxed];
    shelf.reserve(64);
    let mut moved = shelf.pop().unwrap();
    assert_eq!(moved.as_ptr(), before);
    assert_eq!(moved.as_mut_ptr(), before);
    assert_eq!(moved.initialize(0x30000).unwrap().handle, before);
    assert_eq!(moved.as_ptr(), before);
}

#[test]
fn boxes_do_not_share_memory() {
    let mut a = WuffsBox::<Tag>::new(32);
    let mut b = WuffsBox::<Tag>::new(32);
    assert_ne!(a.as_mut_ptr(), b.as_mut_ptr());
}

#[test]
fn initialize_announces_size_version_and_zeroed_memory() {
    let mut boxed = WuffsBox::<Tag>::new(48);
    let ptr = boxed.as_mut_ptr();
    assert!(!boxed.is_initialized());
    let call = boxed.initialize(0x30000);
    assert_eq!(
        call,
        Some(WuffsInitCall { handle: ptr, size: 48, version: 0x30000, flags: 0x0000_0001 })
    );
    assert_eq!(WUFFS_INITIALIZE_ALREADY_ZEROED, 1);
    assert!(boxed.is_initialized());
    assert_eq!(boxed.size(), 48);
}

#[test]
fn a_block_is_initialized_once() {
    let mut boxed = WuffsBox::<Tag>::new(8);
    assert!(boxed.initialize(0x30000).is_some());
    assert_eq!(boxed.initialize(0x30000), None);
    assert_eq!(boxed.initialize(0x20000), None);
    assert!(boxed.is_initialized());
}

#[test]
fn taking_the_address_does_not_initialize() {
    let mut boxed = WuffsBox::<Tag>::new(8);
    boxed.as_mut_ptr();
    boxed.as_ptr();
    assert!(!boxed.is_initialized());
    let fresh: WuffsBox<SevenBytes> = WuffsBox::default();
    assert!(!fresh.is_initialized());
}

#[test]
fn native_picture_of_a_mutable_range() {
    let mut bytes = [1u8, 2, 3, 4, 5];
    let expected = bytes.as_ptr() as usize;
    let native = <u8 as WuffsSliceImpl>::from(&mut bytes[..]);
    assert_eq!(native, WuffsNativeSlice { ptr: expected, len: 5 });
    assert_eq!(WuffsSliceNative::len(&native), 5);
    assert_eq!(bytes, [1u8, 2, 3, 4, 5]);
}

#[test]
fn native_picture_of_a_readonly_range() {
    let bytes = [9u8; 12];
    let native = WuffsSlice::<u8>::from_readonly(&bytes[2..]);
    assert_eq!(native.len, 10);
    assert_eq!(native.ptr, bytes.as_ptr() as usize + 2);
}

#[test]
fn native_picture_of_an_empty_range() {
    let native = WuffsSlice::<u8>::from_readonly(&[]);
    assert_eq!(native.len, 0);
}

#[test]
fn into_wuffs_slice_of_slice_and_vec() {
    let v = vec![1u8, 2, 3];
    let from_vec = (&v).into_wuffs_slice_u8();
    assert_eq!(from_vec, WuffsNativeSlice { ptr: v.as_ptr() as usize, len: 3 });
    let from_slice = (&v[1..]).into_wuffs_slice_u8();
    assert_eq!(from_slice, WuffsNativeSlice { ptr: v.as_ptr() as usize + 1, len: 2 });
}

#[test]
fn owned_view_gives_its_storage_back() {
    let data = vec![7u8, 8, 9];
    let ptr = data.as_ptr() as usize;
    let owned = WuffsSliceOwned::new(data);
    assert_eq!(*owned.inner(), WuffsNativeSlice { ptr, len: 3 });
    assert_eq!(owned.into_data(), vec![7u8, 8, 9]);
}

#[test]
fn owned_view_of_nothing() {
    let owned = WuffsSliceOwned::<u8>::new(Vec::new());
    assert_eq!(owned.inner().len, 0);
    assert_eq!(owned.into_data(), Vec::<u8>::new());
}

#[test]
fn borrowed_view_pictures_the_callers_range() {
    let mut bytes = [0u8; 16];
    let ptr = bytes.as_ptr() as usize;
    let view = WuffsSliceBorrowed::new(&mut bytes[4..]);
    assert_eq!(*view.inner(), WuffsNativeSlice { ptr: ptr + 4, len: 12 });
}

#[test]
fn borrowed_view_from_a_picture_keeps_it() {
    let native = WuffsNativeSlice { ptr: 0x5000, len: 3 };
    assert_eq!(*WuffsSliceBorrowed::<u8>::from(native).inner(), native);
}

#[test]
fn slice_from_a_picture_is_borrowed() {
    let native = WuffsNativeSlice { ptr: 0x5000, len: 3 };
    let view = WuffsSlice::<u8>::from(native);
    assert!(matches!(view, WuffsSlice::Borrowed(_)));
    assert_eq!(*view.inner(), native);
}

#[test]
fn slice_owned_and_borrowed_constructors() {
    let view = WuffsSlice::<u8>::owned(vec![1, 2, 3, 4]);
    assert!(matches!(view, WuffsSlice::Owned(_)));
    assert_eq!(view.inner().len, 4);

    let mut bytes = [0u8; 9];
    let view = WuffsSlice::borrowed(&mut bytes[..]);
    assert!(matches!(view, WuffsSlice::Borrowed(_)));
    assert_eq!(view.inner().len, 9);
}

#[test]
fn writable_buffer_starts_empty_and_open() {
    let mut dst = [0u8; 1024];
    let ptr = dst.as_ptr() as usize;
    let buf = WuffsBuf::from_slice(&mut dst);
    assert_eq!(buf.data(), WuffsNativeSlice { ptr, len: 1024 });
    assert_eq!(buf.meta(), WuffsBufMeta { wi: 0, ri: 0, pos: 0, closed: false });
    assert_eq!(buf.len(), 1024);
    assert!(!buf.is_empty());
    assert_eq!(buf.pos(), 0);
    assert_eq!(buf.read(), 0);
    assert_eq!(buf.written(), 0);
    assert!(!buf.closed());
}

#[test]
fn readonly_buffer_starts_full_and_closed() {
    let src = [1u8; 33];
    let buf = WuffsBuf::from_slice_readonly(&src);
    assert_eq!(buf.data(), WuffsNativeSlice { ptr: src.as_ptr() as usize, len: 33 });
    assert_eq!(buf.meta(), WuffsBufMeta { wi: 33, ri: 0, pos: 0, closed: true });
    assert_eq!(buf.written(), 33);
    assert_eq!(buf.read(), 0);
    assert!(buf.closed());
}

#[test]
fn zero_length_buffers_are_valid() {
    let src = WuffsBuf::from_slice_readonly(&[]);
    assert!(src.is_empty());
    assert_eq!(src.meta(), WuffsBufMeta { wi: 0, ri: 0, pos: 0, closed: true });
    let mut nothing: [u8; 0] = [];
    let dst = WuffsBuf::from_slice(&mut nothing);
    assert!(dst.is_empty());
    assert_eq!(dst.meta(), WuffsBufMeta { wi: 0, ri: 0, pos: 0, closed: false });
}

#[test]
fn buffer_over_owned_storage() {
    let data = vec![0u8; 6];
    let ptr = data.as_ptr() as usize;
    let buf = WuffsBuf::new(WuffsSlice::owned(data), false);
    assert_eq!(buf.data(), WuffsNativeSlice { ptr, len: 6 });
    assert_eq!(buf.meta(), WuffsBufMeta { wi: 0, ri: 0, pos: 0, closed: false });
}

#[test]
fn buffer_from_a_picture() {
    let native = WuffsNativeSlice { ptr: 0x7000, len: 10 };
    assert_eq!(
        WuffsBuf::new(WuffsSlice::from(native), true).meta(),
        WuffsBufMeta { wi: 10, ri: 0, pos: 0, closed: true }
    );
    assert_eq!(
        WuffsBuf::new(WuffsSlice::from(native), false).meta(),
        WuffsBufMeta { wi: 0, ri: 0, pos: 0, closed: false }
    );
}

#[test]
fn buffer_takes_on_positions_unchanged() {
    let mut buf = WuffsBuf::new(WuffsSlice::from(WuffsNativeSlice { ptr: 0x7000, len: 10 }), false);
    let meta = WuffsBufMeta { wi: 7, ri: 3, pos: 99, closed: false };
    assert!(buf.set_meta(meta));
    assert_eq!(buf.meta(), meta);
    assert_eq!(buf.read(), 3);
    assert_eq!(buf.written(), 7);
    assert_eq!(buf.pos(), 99);
    assert_eq!(buf.len(), 10);

    let full = WuffsBufMeta { wi: 10, ri: 10, pos: 0, closed: true };
    assert!(buf.set_meta(full));
    assert_eq!(buf.meta(), full);
}

#[test]
fn buffer_refuses_positions_out_of_range() {
    let mut buf = WuffsBuf::new(WuffsSlice::from(WuffsNativeSlice { ptr: 0x7000, len: 10 }), false);
    let before = buf.meta();
    assert!(!buf.set_meta(WuffsBufMeta { wi: 11, ri: 0, pos: 0, closed: false }));
    assert_eq!(buf.meta(), before);
    assert!(!buf.set_meta(WuffsBufMeta { wi: 4, ri: 5, pos: 0, closed: false }));
    assert_eq!(buf.meta(), before);
}

#[test]
fn closed_buffer_stays_closed() {
    let mut buf = WuffsBuf::new(WuffsSlice::from(WuffsNativeSlice { ptr: 0x7000, len: 10 }), true);
    let before = buf.meta();
    assert!(!buf.set_meta(WuffsBufMeta { wi: 10, ri: 2, pos: 0, closed: false }));
    assert_eq!(buf.meta(), before);
    assert!(buf.set_meta(WuffsBufMeta { wi: 10, ri: 2, pos: 0, closed: true }));
    assert!(buf.closed());
    assert_eq!(buf.read(), 2);
}
