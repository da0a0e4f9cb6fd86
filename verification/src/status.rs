//! The codec's status protocol.
//!
//! A codec reports the outcome of a call as a pointer to a constant string, or
//! as a null pointer. The first character of the string tells the class of the
//! outcome; the well-known messages of a class are told apart by the address
//! of the constant that holds them.

use vstd::prelude::*;
use vstd::string::*;

verus! {

/// A call stopped early and can be made again once its buffers are adjusted.
#[derive(Debug, Clone, PartialEq, Eq, PartialOrd, Ord)]
pub enum WuffsSuspension {
    /// A message that is none of the codec's well-known constants, without its sigil.
    Other(String),
    EvenMoreInformation,
    MispositionedRead,
    MispositionedWrite,
    ShortRead,
    ShortWrite,
}

/// An informational outcome that ends a stream without being a failure.
#[derive(Debug, Clone, PartialEq, Eq, PartialOrd, Ord)]
pub enum WuffsNote {
    /// A message that is none of the codec's well-known constants, without its sigil.
    Other(String),
    IoRedirect,
    EndOfData,
    MetadataReported,
}

/// Everything but plain success, as a caller of the library sees it.
#[derive(Debug, Clone, PartialEq, Eq, PartialOrd, Ord)]
pub enum WuffsError {
    /// The codec failed for good; its state can no longer be used.
    Message(String),
    Note(WuffsNote),
    Suspension(WuffsSuspension),
    /// A decoder stopped early after it had consumed and produced some bytes.
    Partial { suspension: WuffsSuspension, consumed: usize, produced: usize },
}

/// The outcome of one call into the codec.
#[derive(Debug, Clone, PartialEq, Eq, PartialOrd, Ord)]
pub enum WuffsStatus<T = ()> {
    /// The call did all of its work.
    Success(T),
    /// The codec failed for good; the message says why.
    Error(String),
    Note(WuffsNote),
    Suspension(WuffsSuspension),
}

/// Mathematical value of a [`WuffsSuspension`].
pub enum SuspensionView {
    Other(Seq<char>),
    EvenMoreInformation,
    MispositionedRead,
    MispositionedWrite,
    ShortRead,
    ShortWrite,
}

/// Mathematical value of a [`WuffsNote`].
pub enum NoteView {
    Other(Seq<char>),
    IoRedirect,
    EndOfData,
    MetadataReported,
}

/// Mathematical value of a [`WuffsError`].
pub enum ErrorView {
    Message(Seq<char>),
    Note(NoteView),
    Suspension(SuspensionView),
    Partial { suspension: SuspensionView, consumed: usize, produced: usize },
}

/// Mathematical value of a [`WuffsStatus`].
pub enum StatusView<T> {
    Success(T),
    Error(Seq<char>),
    Note(NoteView),
    Suspension(SuspensionView),
}

impl View for WuffsSuspension {
    type V = SuspensionView;

    open spec fn view(&self) -> SuspensionView {
        match *self {
            WuffsSuspension::Other(text) => SuspensionView::Other(text@),
            WuffsSuspension::EvenMoreInformation => SuspensionView::EvenMoreInformation,
            WuffsSuspension::MispositionedRead => SuspensionView::MispositionedRead,
            WuffsSuspension::MispositionedWrite => SuspensionView::MispositionedWrite,
            WuffsSuspension::ShortRead => SuspensionView::ShortRead,
            WuffsSuspension::ShortWrite => SuspensionView::ShortWrite,
        }
    }
}

impl View for WuffsNote {
    type V = NoteView;

    open spec fn view(&self) -> NoteView {
        match *self {
            WuffsNote::Other(text) => NoteView::Other(text@),
            WuffsNote::IoRedirect => NoteView::IoRedirect,
            WuffsNote::EndOfData => NoteView::EndOfData,
            WuffsNote::MetadataReported => NoteView::MetadataReported,
        }
    }
}

impl View for WuffsError {
    type V = ErrorView;

    open spec fn view(&self) -> ErrorView {
        match *self {
            WuffsError::Message(text) => ErrorView::Message(text@),
            WuffsError::Note(note) => ErrorView::Note(note@),
            WuffsError::Suspension(suspension) => ErrorView::Suspension(suspension@),
            WuffsError::Partial { suspension, consumed, produced } => (ErrorView::Partial {
                suspension: suspension@,
                consumed,
                produced,
            }),
        }
    }
}

impl<T> View for WuffsStatus<T> {
    type V = StatusView<T>;

    open spec fn view(&self) -> StatusView<T> {
        match *self {
            WuffsStatus::Success(value) => StatusView::Success(value),
            WuffsStatus::Error(message) => StatusView::Error(message@),
            WuffsStatus::Note(note) => StatusView::Note(note@),
            WuffsStatus::Suspension(suspension) => StatusView::Suspension(suspension@),
        }
    }
}

/// The addresses at which the codec keeps its well-known status messages.
///
/// The codec returns these very constants, so a status is recognised by
/// comparing its address with the entries of this table, in the order of the
/// fields within each class.
#[derive(Debug, Clone, Copy, PartialEq, Eq)]
pub struct WuffsStatusTable {
    pub suspension_even_more_information: usize,
    pub suspension_mispositioned_read: usize,
    pub suspension_mispositioned_write: usize,
    pub suspension_short_read: usize,
    pub suspension_short_write: usize,
    pub note_end_of_data: usize,
    pub note_i_o_redirect: usize,
    pub note_metadata_reported: usize,
}

/// A status as the codec returns it: the address of its message and the
/// message itself, or no message at all where the codec returned null.
#[derive(Debug, Clone, PartialEq, Eq)]
pub struct WuffsRawStatus {
    pub ptr: usize,
    pub repr: Option<String>,
}

/// A message without the sigil of its class: a message that begins with
/// `sigil` loses that one character, and any other message stays whole.
pub open spec fn without_sigil(repr: Seq<char>, sigil: char) -> Seq<char> {
    if repr.len() > 0 && repr[0] == sigil {
        repr.subrange(1, repr.len() as int)
    } else {
        repr
    }
}

/// The suspension that a message at address `ptr` stands for: the well-known
/// one that the codec keeps there, or else the message as free text without
/// its `$`.
pub open spec fn suspension_at(ptr: usize, repr: Seq<char>, table: WuffsStatusTable)
    -> SuspensionView {
    if ptr == table.suspension_even_more_information {
        SuspensionView::EvenMoreInformation
    } else if ptr == table.suspension_mispositioned_read {
        SuspensionView::MispositionedRead
    } else if ptr == table.suspension_mispositioned_write {
        SuspensionView::MispositionedWrite
    } else if ptr == table.suspension_short_read {
        SuspensionView::ShortRead
    } else if ptr == table.suspension_short_write {
        SuspensionView::ShortWrite
    } else {
        SuspensionView::Other(without_sigil(repr, '$'))
    }
}

/// The note that a message at address `ptr` stands for: the well-known one
/// that the codec keeps there, or else the message as free text without its
/// `@`.
pub open spec fn note_at(ptr: usize, repr: Seq<char>, table: WuffsStatusTable) -> NoteView {
    if ptr == table.note_end_of_data {
        NoteView::EndOfData
    } else if ptr == table.note_i_o_redirect {
        NoteView::IoRedirect
    } else if ptr == table.note_metadata_reported {
        NoteView::MetadataReported
    } else {
        NoteView::Other(without_sigil(repr, '@'))
    }
}

/// The status that a raw status stands for: null and the empty message are
/// success, `$` opens a suspension, `#` an error, `@` a note, and any other
/// first character is success again.
pub open spec fn status_of(ptr: usize, repr: Option<Seq<char>>, table: WuffsStatusTable)
    -> StatusView<()> {
    match repr {
        None => StatusView::Success(()),
        Some(text) => {
            if text.len() == 0 {
                StatusView::Success(())
            } else if text[0] == '$' {
                StatusView::Suspension(suspension_at(ptr, text, table))
            } else if text[0] == '#' {
                StatusView::Error(without_sigil(text, '#'))
            } else if text[0] == '@' {
                StatusView::Note(note_at(ptr, text, table))
            } else {
                StatusView::Success(())
            }
        },
    }
}

/// What a status collapses to when only plain success counts as success.
pub open spec fn result_of<T>(status: StatusView<T>) -> Result<T, ErrorView> {
    match status {
        StatusView::Success(value) => Ok(value),
        StatusView::Error(message) => Err(ErrorView::Message(message)),
        StatusView::Note(note) => Err(ErrorView::Note(note)),
        StatusView::Suspension(suspension) => Err(ErrorView::Suspension(suspension)),
    }
}

/// Mathematical value of a result whose error is a [`WuffsError`].
pub open spec fn result_view<T>(result: Result<T, WuffsError>) -> Result<T, ErrorView> {
    match result {
        Ok(value) => Ok(value),
        Err(err) => Err(err@),
    }
}

impl WuffsRawStatus {
    /// The message of the status as a sequence of characters, if it has one.
    pub open spec fn text(&self) -> Option<Seq<char>> {
        match self.repr {
            None => None,
            Some(text) => Some(text@),
        }
    }

    /// The status that the codec returns as a null pointer.
    pub fn null() -> (raw: Self)
        ensures
            raw.ptr == 0,
            raw.repr is None,
    {
        WuffsRawStatus { ptr: 0, repr: None }
    }
}

/// The text of `repr` without a leading `sigil`, as an owned string.
fn strip_sigil(repr: &str, sigil: char) -> (text: String)
    ensures
        text@ == without_sigil(repr@, sigil),
{
    let len: usize = repr.unicode_len();
    if len > 0 && repr.get_char(0) == sigil {
        String::from_str(repr.substring_char(1, len))
    } else {
        String::from_str(repr)
    }
}

impl WuffsSuspension {
    /// Classifies the suspension whose message `repr` the codec keeps at
    /// address `ptr`. A message at none of the well-known addresses is kept
    /// as free text, without a leading `$`.
    pub fn from_ptr(ptr: usize, repr: &str, table: &WuffsStatusTable) -> (suspension: Self)
        ensures
            suspension@ == suspension_at(ptr, repr@, *table),
    {
        if ptr == table.suspension_even_more_information {
            WuffsSuspension::EvenMoreInformation
        } else if ptr == table.suspension_mispositioned_read {
            WuffsSuspension::MispositionedRead
        } else if ptr == table.suspension_mispositioned_write {
            WuffsSuspension::MispositionedWrite
        } else if ptr == table.suspension_short_read {
            WuffsSuspension::ShortRead
        } else if ptr == table.suspension_short_write {
            WuffsSuspension::ShortWrite
        } else {
            WuffsSuspension::Other(strip_sigil(repr, '$'))
        }
    }

    /// Whether two suspensions are the same kind with the same message.
    pub fn same(&self, other: &WuffsSuspension) -> (same: bool)
        ensures
            same == (self@ == other@),
    {
        match (self, other) {
            (WuffsSuspension::Other(a), WuffsSuspension::Other(b)) => *a == *b,
            (WuffsSuspension::EvenMoreInformation, WuffsSuspension::EvenMoreInformation) => true,
            (WuffsSuspension::MispositionedRead, WuffsSuspension::MispositionedRead) => true,
            (WuffsSuspension::MispositionedWrite, WuffsSuspension::MispositionedWrite) => true,
            (WuffsSuspension::ShortRead, WuffsSuspension::ShortRead) => true,
            (WuffsSuspension::ShortWrite, WuffsSuspension::ShortWrite) => true,
            _ => false,
        }
    }
}

impl WuffsNote {
    /// Classifies the note whose message `repr` the codec keeps at address
    /// `ptr`. A message at none of the well-known addresses is kept as free
    /// text, without a leading `@`.
    pub fn from_ptr(ptr: usize, repr: &str, table: &WuffsStatusTable) -> (note: Self)
        ensures
            note@ == note_at(ptr, repr@, *table),
    {
        if ptr == table.note_end_of_data {
            WuffsNote::EndOfData
        } else if ptr == table.note_i_o_redirect {
            WuffsNote::IoRedirect
        } else if ptr == table.note_metadata_reported {
            WuffsNote::MetadataReported
        } else {
            WuffsNote::Other(strip_sigil(repr, '@'))
        }
    }
}

impl WuffsStatus<()> {
    /// Decodes a raw status.
    pub fn from(raw: &WuffsRawStatus, table: &WuffsStatusTable) -> (status: Self)
        ensures
            status@ == status_of(raw.ptr, raw.text(), *table),
    {
        match &raw.repr {
            None => WuffsStatus::Success(()),
            Some(text) => {
                let repr: &str = text.as_str();
                if repr.unicode_len() == 0 {
                    WuffsStatus::Success(())
                } else {
                    let sigil: char = repr.get_char(0);
                    if sigil == '$' {
                        WuffsStatus::Suspension(WuffsSuspension::from_ptr(raw.ptr, repr, table))
                    } else if sigil == '#' {
                        WuffsStatus::Error(strip_sigil(repr, '#'))
                    } else if sigil == '@' {
                        WuffsStatus::Note(WuffsNote::from_ptr(raw.ptr, repr, table))
                    } else {
                        WuffsStatus::Success(())
                    }
                }
            },
        }
    }
}

impl<T> WuffsStatus<T> {
    /// Collapses the status to a result: plain success stays success, and a
    /// suspension, a note and an error each become a failure of their own.
    /// A caller that wants to go on after a suspension has to look at the
    /// status before it calls this.
    pub fn into_result(self) -> (result: Result<T, WuffsError>)
        ensures
            result_view(result) == result_of(self@),
    {
        match self {
            WuffsStatus::Success(value) => Ok(value),
            WuffsStatus::Error(message) => Err(WuffsError::Message(message)),
            WuffsStatus::Note(note) => Err(WuffsError::Note(note)),
            WuffsStatus::Suspension(suspension) => Err(WuffsError::Suspension(suspension)),
        }
    }

    /// Whether the status is the suspension `other`.
    pub fn is_suspension(&self, other: WuffsSuspension) -> (found: bool)
        ensures
            found == (self@ == StatusView::<T>::Suspension(other@)),
    {
        match self {
            WuffsStatus::Suspension(suspension) => suspension.same(&other),
            _ => false,
        }
    }
}

/// Anything that stands for a status collapses to a result as that status
/// does.
pub trait IntoResult<T>: Sized {
    /// The status that the value stands for.
    spec fn status(self) -> StatusView<T>;

    /// Collapses the status to a result: only plain success is success.
    fn into_result(self) -> (result: Result<T, WuffsError>)
        ensures
            result_view(result) == result_of(self.status()),
    ;
}

impl<T> IntoResult<T> for WuffsStatus<T> {
    open spec fn status(self) -> StatusView<T> {
        self@
    }

    fn into_result(self) -> (result: Result<T, WuffsError>) {
        WuffsStatus::into_result(self)
    }
}

/// A raw status together with the table to decode it by.
impl<'a> IntoResult<()> for (&'a WuffsRawStatus, &'a WuffsStatusTable) {
    open spec fn status(self) -> StatusView<()> {
        status_of(self.0.ptr, self.0.text(), *self.1)
    }

    fn into_result(self) -> (result: Result<(), WuffsError>) {
        WuffsStatus::from(self.0, self.1).into_result()
    }
}

/// The null status is success, whatever the table holds.
pub proof fn lemma_null_is_ok(ptr: usize, table: WuffsStatusTable)
    ensures
        status_of(ptr, None, table) == StatusView::<()>::Success(()),
{
}

/// A message that begins with `#` is an error whose text is the message
/// without that first character, wherever the message is kept.
pub proof fn lemma_hash_is_error(ptr: usize, repr: Seq<char>, table: WuffsStatusTable)
    requires
        repr.len() > 0,
        repr[0] == '#',
    ensures
        status_of(ptr, Some(repr), table) == StatusView::<()>::Error(
            repr.subrange(1, repr.len() as int),
        ),
        result_of(status_of(ptr, Some(repr), table)) == Err::<(), ErrorView>(
            ErrorView::Message(repr.subrange(1, repr.len() as int)),
        ),
{
}

/// The first character of a message alone decides the class of its status.
pub proof fn lemma_sigil_decides_class(ptr: usize, repr: Seq<char>, table: WuffsStatusTable)
    requires
        repr.len() > 0,
    ensures
        status_of(ptr, Some(repr), table) is Suspension <==> repr[0] == '$',
        status_of(ptr, Some(repr), table) is Error <==> repr[0] == '#',
        status_of(ptr, Some(repr), table) is Note <==> repr[0] == '@',
        status_of(ptr, Some(repr), table) is Success <==> (repr[0] != '$' && repr[0] != '#' && repr[0]
            != '@'),
{
}

} // verus!
