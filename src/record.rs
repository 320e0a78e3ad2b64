use vstd::prelude::*;
use crate::errors::FetchError;

verus! {

/// The identifier of an uploaded file: the 128 bits of a UUID.
/// It is the lookup key of its record and the file name of its blob.
#[derive(Clone, Copy, Debug, PartialEq, Eq, Structural)]
pub struct FileId {
    pub value: u128,
}

/// A point in time in UTC: whole seconds since the Unix epoch and the
/// nanoseconds past that second.
#[derive(Clone, Copy, Debug, PartialEq, Eq, Structural)]
pub struct Timestamp {
    pub secs: i64,
    pub nanos: u32,
}

impl Timestamp {
    pub open spec fn wf(self) -> bool {
        self.nanos < 1_000_000_000
    }
}

/// The metadata of one uploaded file.
#[derive(Clone, Debug, PartialEq, Eq)]
pub struct FileRecord {
    /// Generated at upload time; its text is also the name of the blob.
    pub id: FileId,
    /// The name the client gave the file; for display only, never a path.
    pub name: String,
    /// Who uploaded the file, if known.
    pub by: Option<String>,
    /// Assigned by the store from the server clock.
    pub uploaded_at: Timestamp,
    /// Free text about the file.
    pub description: Option<String>,
    /// The MIME type the client gave; used only to frame downloads.
    pub content_type: Option<String>,
}

/// The lower-case hex digit of `n`, for `n < 16`.
pub open spec fn hex_digit(n: u128) -> char {
    seq!['0', '1', '2', '3', '4', '5', '6', '7', '8', '9', 'a', 'b', 'c', 'd', 'e', 'f'][n as int]
}

/// The `k`-th of the 32 hex digits of `v`, most significant first.
pub open spec fn nibble(v: u128, k: int) -> u128 {
    (v >> ((124 - 4 * k) as u128)) & 15u128
}

/// How many hyphens stand before position `p` of the hyphenated form.
pub open spec fn hyphens_before(p: int) -> int {
    if p < 8 {
        0
    } else if p < 13 {
        1
    } else if p < 18 {
        2
    } else if p < 23 {
        3
    } else {
        4
    }
}

/// The canonical text of a UUID: its 32 hex digits in lower case, in groups
/// of 8, 4, 4, 4 and 12 joined by hyphens.
pub open spec fn uuid_text(v: u128) -> Seq<char> {
    Seq::new(
        36,
        |p: int|
            if p == 8 || p == 13 || p == 18 || p == 23 {
                '-'
            } else {
                hex_digit(nibble(v, p - hyphens_before(p)))
            },
    )
}

/// The UUID that a text denotes, when it denotes one.
pub uninterp spec fn uuid_parsed(s: Seq<char>) -> Option<u128>;

/// Relies on uuid::Uuid::new_v4: random bits with the version nibble set
/// to 4 and the variant bits set to `10`.
#[verifier::external_body]
pub(crate) fn random_uuid() -> (r: u128)
    ensures
        (r >> 76u128) & 15u128 == 4,
        (r >> 62u128) & 3u128 == 2,
{
    uuid::Uuid::new_v4().as_u128()
}

/// Relies on uuid::Uuid::hyphenated and its `Display`: the lower-case
/// hyphenated form of the UUID's bytes, most significant first.
#[verifier::external_body]
fn uuid_to_string(v: u128) -> (r: String)
    ensures
        r@ == uuid_text(v),
{
    uuid::Uuid::from_u128(v).hyphenated().to_string()
}

/// Relies on uuid::Uuid::parse_str, which reads the hyphenated, simple,
/// braced and URN forms; the hyphenated text of a UUID reads back as it.
#[verifier::external_body]
fn parse_uuid(s: &str) -> (r: Option<u128>)
    ensures
        r == uuid_parsed(s@),
        forall|v: u128| s@ == #[trigger] uuid_text(v) ==> r == Some(v),
{
    match uuid::Uuid::parse_str(s) {
        Ok(u) => Some(u.as_u128()),
        Err(_) => None,
    }
}

/// Relies on chrono::Utc::now, which builds its value from the system
/// clock's whole seconds and sub-second nanoseconds.
#[verifier::external_body]
pub(crate) fn utc_now() -> (r: Timestamp)
    ensures
        r.wf(),
{
    let now = chrono::Utc::now();
    Timestamp { secs: now.timestamp(), nanos: now.timestamp_subsec_nanos() }
}

impl FileId {
    /// The identifier in its canonical text form, which names its blob.
    pub fn to_text(&self) -> (r: String)
        ensures
            r@ == uuid_text(self.value),
            r@.len() == 36,
    {
        uuid_to_string(self.value)
    }

    /// Reads the identifier of a download request; text that is not a UUID
    /// is refused as `Malformed` before any store is consulted.
    pub fn for_download(s: &str) -> (r: Result<FileId, FetchError>)
        ensures
            r == (match uuid_parsed(s@) {
                Some(v) => Ok::<FileId, FetchError>(FileId { value: v }),
                None => Err::<FileId, FetchError>(FetchError::Malformed),
            }),
            forall|v: u128| s@ == #[trigger] uuid_text(v) ==> r == Ok::<FileId, FetchError>(FileId { value: v }),
    {
        match FileId::parse(s) {
            Some(id) => Ok(id),
            None => Err(FetchError::Malformed),
        }
    }

    /// Reads an identifier; `None` where the text is not a UUID.
    pub fn parse(s: &str) -> (r: Option<FileId>)
        ensures
            r == (match uuid_parsed(s@) {
                Some(v) => Some(FileId { value: v }),
                None => None,
            }),
            forall|v: u128| s@ == #[trigger] uuid_text(v) ==> r == Some(FileId { value: v }),
    {
        match parse_uuid(s) {
            Some(v) => Some(FileId { value: v }),
            None => None,
        }
    }
}

} // verus!
