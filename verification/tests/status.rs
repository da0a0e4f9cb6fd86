use wuffs::status::{
    IntoResult, WuffsError, WuffsNote, WuffsRawStatus, WuffsStatus, WuffsStatusTable,
    WuffsSuspension,
};

fn table() -> WuffsStatusTable {
    WuffsStatusTable {
        suspension_even_more_information: 0x1000,
        suspension_mispositioned_read: 0x1020,
        suspension_mispositioned_write: 0x1040,
        suspension_short_read: 0x1060,
        suspension_short_write: 0x1080,
        note_end_of_data: 0x2000,
        note_i_o_redirect: 0x2020,
        note_metadata_reported: 0x2040,
    }
}

fn raw(ptr: usize, text: &str) -> WuffsRawStatus {
    WuffsRawStatus { ptr, repr: Some(text.to_string()) }
}

#[test]
fn null_status_is_success() {
    let status = WuffsStatus::from(&WuffsRawStatus::null(), &table());
    assert_eq!(status, WuffsStatus::Success(()));
    assert_eq!(status.into_result(), Ok(()));
}

#[test]
fn null_status_ignores_the_address() {
    let status = WuffsStatus::from(&WuffsRawStatus { ptr: 0x1060, repr: None }, &table());
    assert_eq!(status, WuffsStatus::Success(()));
}

#[test]
fn empty_message_is_success() {
    assert_eq!(WuffsStatus::from(&raw(0x9000, ""), &table()), WuffsStatus::Success(()));
}

#[test]
fn unknown_sigil_is_success() {
    assert_eq!(
        WuffsStatus::from(&raw(0x9000, "base: something"), &table()),
        WuffsStatus::Success(())
    );
    assert_eq!(WuffsStatus::from(&raw(0x1060, "?"), &table()), WuffsStatus::Success(()));
}

#[test]
fn hash_is_error_without_its_sigil() {
    let status = WuffsStatus::from(&raw(0x9000, "#gzip: bad checksum"), &table());
    assert_eq!(status, WuffsStatus::Error("gzip: bad checksum".to_string()));
    assert_eq!(
        status.into_result(),
        Err(WuffsError::Message("gzip: bad checksum".to_string()))
    );
}

#[test]
fn hash_alone_is_error_with_empty_message() {
    assert_eq!(
        WuffsStatus::from(&raw(0x9000, "#"), &table()),
        WuffsStatus::Error(String::new())
    );
}

#[test]
fn error_ignores_known_addresses() {
    assert_eq!(
        WuffsStatus::from(&raw(0x1060, "#base: bad argument"), &table()),
        WuffsStatus::Error("base: bad argument".to_string())
    );
}

#[test]
fn error_message_keeps_non_ascii_text() {
    assert_eq!(
        WuffsStatus::from(&raw(0x9000, "#caf\u{e9}: \u{1f600}"), &table()),
        WuffsStatus::Error("caf\u{e9}: \u{1f600}".to_string())
    );
}

#[test]
fn known_suspensions_are_found_by_address() {
    let t = table();
    let cases = [
        (0x1000, WuffsSuspension::EvenMoreInformation),
        (0x1020, WuffsSuspension::MispositionedRead),
        (0x1040, WuffsSuspension::MispositionedWrite),
        (0x1060, WuffsSuspension::ShortRead),
        (0x1080, WuffsSuspension::ShortWrite),
    ];
    for (ptr, expected) in cases {
        assert_eq!(
            WuffsStatus::from(&raw(ptr, "$base: whatever"), &t),
            WuffsStatus::Suspension(expected.clone())
        );
        assert_eq!(WuffsSuspension::from_ptr(ptr, "$base: whatever", &t), expected);
    }
}

#[test]
fn unknown_suspension_keeps_its_text() {
    assert_eq!(
        WuffsStatus::from(&raw(0x9000, "$base: short read"), &table()),
        WuffsStatus::Suspension(WuffsSuspension::Other("base: short read".to_string()))
    );
}

#[test]
fn suspension_is_not_found_at_a_note_address() {
    assert_eq!(
        WuffsStatus::from(&raw(0x2000, "$odd"), &table()),
        WuffsStatus::Suspension(WuffsSuspension::Other("odd".to_string()))
    );
}

#[test]
fn known_notes_are_found_by_address() {
    let t = table();
    let cases = [
        (0x2000, WuffsNote::EndOfData),
        (0x2020, WuffsNote::IoRedirect),
        (0x2040, WuffsNote::MetadataReported),
    ];
    for (ptr, expected) in cases {
        assert_eq!(
            WuffsStatus::from(&raw(ptr, "@base: whatever"), &t),
            WuffsStatus::Note(expected.clone())
        );
        assert_eq!(WuffsNote::from_ptr(ptr, "@base: whatever", &t), expected);
    }
}

#[test]
fn unknown_note_keeps_its_text() {
    assert_eq!(
        WuffsStatus::from(&raw(0x1060, "@base: end of data"), &table()),
        WuffsStatus::Note(WuffsNote::Other("base: end of data".to_string()))
    );
}

#[test]
fn from_ptr_of_empty_text_is_empty_other() {
    assert_eq!(
        WuffsSuspension::from_ptr(0x9000, "", &table()),
        WuffsSuspension::Other(String::new())
    );
    assert_eq!(WuffsNote::from_ptr(0x9000, "", &table()), WuffsNote::Other(String::new()));
}

#[test]
fn from_ptr_drops_only_the_sigil_of_its_own_class() {
    let t = table();
    assert_eq!(
        WuffsSuspension::from_ptr(0x9000, "base: short read", &t),
        WuffsSuspension::Other("base: short read".to_string())
    );
    assert_eq!(
        WuffsSuspension::from_ptr(0x9000, "@base: end of data", &t),
        WuffsSuspension::Other("@base: end of data".to_string())
    );
    assert_eq!(
        WuffsSuspension::from_ptr(0x9000, "$$twice", &t),
        WuffsSuspension::Other("$twice".to_string())
    );
    assert_eq!(
        WuffsNote::from_ptr(0x9000, "base: end of data", &t),
        WuffsNote::Other("base: end of data".to_string())
    );
    assert_eq!(
        WuffsNote::from_ptr(0x9000, "$base: short read", &t),
        WuffsNote::Other("$base: short read".to_string())
    );
    assert_eq!(WuffsNote::from_ptr(0x9000, "@", &t), WuffsNote::Other(String::new()));
    assert_eq!(WuffsNote::from_ptr(0x9000, "#", &t), WuffsNote::Other("#".to_string()));
}

#[test]
fn first_matching_table_entry_wins() {
    let mut t = table();
    t.suspension_short_read = t.suspension_even_more_information;
    t.note_metadata_reported = t.note_end_of_data;
    assert_eq!(
        WuffsSuspension::from_ptr(0x1000, "$x", &t),
        WuffsSuspension::EvenMoreInformation
    );
    assert_eq!(WuffsNote::from_ptr(0x2000, "@x", &t), WuffsNote::EndOfData);
}

#[test]
fn into_result_keeps_the_value_of_success() {
    assert_eq!(WuffsStatus::Success(7u32).into_result(), Ok(7u32));
}

#[test]
fn into_result_turns_each_class_into_its_failure() {
    assert_eq!(
        WuffsStatus::<u32>::Error("bad".to_string()).into_result(),
        Err(WuffsError::Message("bad".to_string()))
    );
    assert_eq!(
        WuffsStatus::<u32>::Note(WuffsNote::EndOfData).into_result(),
        Err(WuffsError::Note(WuffsNote::EndOfData))
    );
    assert_eq!(
        WuffsStatus::<u32>::Suspension(WuffsSuspension::ShortWrite).into_result(),
        Err(WuffsError::Suspension(WuffsSuspension::ShortWrite))
    );
}

#[test]
fn into_result_through_the_trait_agrees() {
    fn collapse<S: IntoResult<u8>>(s: S) -> Result<u8, WuffsError> {
        s.into_result()
    }
    assert_eq!(collapse(WuffsStatus::Success(3u8)), Ok(3u8));
    assert_eq!(
        collapse(WuffsStatus::<u8>::Note(WuffsNote::IoRedirect)),
        Err(WuffsError::Note(WuffsNote::IoRedirect))
    );
}

#[test]
fn raw_status_collapses_through_its_table() {
    let t = table();
    assert_eq!((&WuffsRawStatus::null(), &t).into_result(), Ok(()));
    assert_eq!(
        (&raw(0x1060, "$base: short read"), &t).into_result(),
        Err(WuffsError::Suspension(WuffsSuspension::ShortRead))
    );
    assert_eq!(
        (&raw(0x9000, "#base: bad argument"), &t).into_result(),
        Err(WuffsError::Message("base: bad argument".to_string()))
    );
    assert_eq!(
        (&raw(0x2000, "@base: end of data"), &t).into_result(),
        Err(WuffsError::Note(WuffsNote::EndOfData))
    );
}

#[test]
fn is_suspension_compares_kind_and_text() {
    let short_read: WuffsStatus = WuffsStatus::Suspension(WuffsSuspension::ShortRead);
    assert!(short_read.is_suspension(WuffsSuspension::ShortRead));
    assert!(!short_read.is_suspension(WuffsSuspension::ShortWrite));
    assert!(!short_read.is_suspension(WuffsSuspension::Other("base: short read".to_string())));

    let other: WuffsStatus = WuffsStatus::Suspension(WuffsSuspension::Other("a".to_string()));
    assert!(other.is_suspension(WuffsSuspension::Other("a".to_string())));
    assert!(!other.is_suspension(WuffsSuspension::Other("b".to_string())));

    let ok: WuffsStatus = WuffsStatus::Success(());
    assert!(!ok.is_suspension(WuffsSuspension::ShortRead));
    let note: WuffsStatus = WuffsStatus::Note(WuffsNote::EndOfData);
    assert!(!note.is_suspension(WuffsSuspension::ShortRead));
}

#[test]
fn same_agrees_with_equality() {
    let all = [
        WuffsSuspension::Other("x".to_string()),
        WuffsSuspension::Other("y".to_string()),
        WuffsSuspension::EvenMoreInformation,
        WuffsSuspension::MispositionedRead,
        WuffsSuspension::MispositionedWrite,
        WuffsSuspension::ShortRead,
        WuffsSuspension::ShortWrite,
    ];
    for a in &all {
        for b in &all {
            assert_eq!(a.same(b), a == b);
        }
    }
}

#[test]
fn decoding_twice_gives_the_same_status() {
    let t = table();
    for (ptr, text) in [(0x1060, "$a"), (0x9000, "#b"), (0x2000, "@c"), (0x9000, "d")] {
        let r = raw(ptr, text);
        assert_eq!(WuffsStatus::from(&r, &t), WuffsStatus::from(&r, &t));
    }
}
