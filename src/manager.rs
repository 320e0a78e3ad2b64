use vstd::prelude::*;
use vstd::string::*;
use crate::config::AppConfig;
use crate::errors::{AppError, FetchError, IngestError, InitError};
use crate::record::{random_uuid, utc_now, uuid_text, FileId, FileRecord, Timestamp};

verus! {

/// Some record in `s` has identifier `id`.
pub open spec fn has_id(s: Seq<FileRecord>, id: FileId) -> bool {
    exists|i: int| 0 <= i < s.len() && #[trigger] s[i].id == id
}

/// No two records in `s` share an identifier.
pub open spec fn ids_distinct(s: Seq<FileRecord>) -> bool {
    forall|i: int, j: int|
        0 <= i < s.len() && 0 <= j < s.len() && i != j ==> #[trigger] s[i].id != #[trigger] s[j].id
}

/// A position of a record with identifier `id`, where there is one.
pub open spec fn index_of(s: Seq<FileRecord>, id: FileId) -> int {
    choose|i: int| 0 <= i < s.len() && #[trigger] s[i].id == id
}

/// The record stored under `id`.
pub open spec fn lookup(s: Seq<FileRecord>, id: FileId) -> Option<FileRecord> {
    if has_id(s, id) {
        Some(s[index_of(s, id)])
    } else {
        None
    }
}

/// The records with the one under `id` taken out.
pub open spec fn without_id(s: Seq<FileRecord>, id: FileId) -> Seq<FileRecord> {
    if has_id(s, id) {
        s.remove(index_of(s, id))
    } else {
        s
    }
}

/// `name` appended to `dir` as a relative path component: a separator is
/// put in between unless `dir` is empty or already ends in one.
pub open spec fn joined(dir: Seq<char>, name: Seq<char>) -> Seq<char> {
    if dir.len() == 0 || dir.last() == '/' {
        dir + name
    } else {
        dir + "/"@ + name
    }
}

/// The path of the blob of `id` inside directory `dir`.
pub open spec fn blob_path(dir: Seq<char>, id: FileId) -> Seq<char> {
    joined(dir, uuid_text(id.value))
}

/// What probing the upload path found.
#[derive(Clone, Copy, Debug, PartialEq, Eq, Structural)]
pub enum PathState {
    /// It exists and is a directory.
    Directory,
    /// It exists and is something else.
    NotADirectory,
    /// Nothing is there.
    Missing,
    /// It was missing and creating it failed.
    CreateFailed,
    /// Its metadata could not be read.
    Unreadable,
}

/// The error `from_config` gives for a probed upload path, if any.
pub open spec fn init_failure(state: PathState) -> Option<InitError> {
    match state {
        PathState::Directory => None,
        PathState::NotADirectory => Some(InitError::NotADirectory),
        PathState::Missing => Some(InitError::MissingDirectory),
        PathState::CreateFailed => Some(InitError::CreateFailed),
        PathState::Unreadable => Some(InitError::Unreadable),
    }
}

impl AppConfig {
    /// Whether the upload directory is to be created before the manager
    /// is built: it is missing and the configuration allows it.
    pub fn should_create(&self, state: PathState) -> (r: bool)
        ensures
            r == (state == PathState::Missing && self.spec_create_dir()),
    {
        state == PathState::Missing && self.creates_missing_dir()
    }
}

/// The metadata store of uploaded files, rooted at the upload directory.
/// Records are kept in insertion order and no two share an identifier.
pub struct FileManager {
    config: AppConfig,
    records: Vec<FileRecord>,
}

impl FileManager {
    #[verifier::type_invariant]
    spec fn inv(self) -> bool {
        ids_distinct(self.records@)
    }

    /// The stored records, in insertion order.
    pub closed spec fn records_view(&self) -> Seq<FileRecord> {
        self.records@
    }

    /// The upload directory, which holds the blobs.
    pub closed spec fn dir_view(&self) -> Seq<char> {
        self.config.spec_upload_dir()
    }

    /// Builds an empty manager over the probed upload directory, which
    /// must be a directory; every other state is a configuration error.
    pub fn from_config(config: AppConfig, state: PathState) -> (r: Result<Self, AppError>)
        ensures
            match init_failure(state) {
                None => r matches Ok(fm) && fm.records_view() == Seq::<FileRecord>::empty()
                    && fm.dir_view() == config.spec_upload_dir(),
                Some(e) => r == Err::<Self, AppError>(AppError::ConfigError(e)),
            },
    {
        match state {
            PathState::Directory => Ok(FileManager { config, records: Vec::new() }),
            PathState::NotADirectory => Err(AppError::ConfigError(InitError::NotADirectory)),
            PathState::Missing => Err(AppError::ConfigError(InitError::MissingDirectory)),
            PathState::CreateFailed => Err(AppError::ConfigError(InitError::CreateFailed)),
            PathState::Unreadable => Err(AppError::ConfigError(InitError::Unreadable)),
        }
    }

    /// Brings the manager up: the probed upload path must be a directory,
    /// and the records read back from the record file (`None` where there is
    /// none) must not name one identifier twice.
    pub fn new(config: AppConfig, state: PathState, stored: Option<Vec<FileRecord>>) -> (r: Result<Self, AppError>)
        ensures
            match init_failure(state) {
                Some(e) => r == Err::<Self, AppError>(AppError::ConfigError(e)),
                None => match stored {
                    None => r matches Ok(fm) && fm.records_view() == Seq::<FileRecord>::empty()
                        && fm.dir_view() == config.spec_upload_dir(),
                    Some(v) => if ids_distinct(v@) {
                        r matches Ok(fm) && fm.records_view() == v@ && fm.dir_view()
                            == config.spec_upload_dir()
                    } else {
                        r matches Err(AppError::ConfigError(InitError::DuplicateRecord(id)))
                            && exists|i: int, j: int| 0 <= i < j < v@.len()
                                && v@[i].id == id && v@[j].id == id
                    },
                },
            },
    {
        let mut fm = match FileManager::from_config(config, state) {
            Ok(fm) => fm,
            Err(e) => return Err(e),
        };
        match fm.init_or_read(stored) {
            Ok(()) => Ok(fm),
            Err(e) => Err(e),
        }
    }

    /// Takes the records read back from the record file (`None` where there
    /// is no such file). A file that names one identifier twice is refused
    /// and the manager is left as it was.
    pub fn init_or_read(&mut self, stored: Option<Vec<FileRecord>>) -> (r: Result<(), AppError>)
        ensures
            match stored {
                None => r is Ok && final(self).records_view() == old(self).records_view(),
                Some(v) => if ids_distinct(v@) {
                    r is Ok && final(self).records_view() == v@
                } else {
                    (r matches Err(AppError::ConfigError(InitError::DuplicateRecord(id)))
                        && exists|i: int, j: int| 0 <= i < j < v@.len()
                            && v@[i].id == id && v@[j].id == id)
                    && final(self).records_view() == old(self).records_view()
                },
            },
            final(self).dir_view() == old(self).dir_view(),
    {
        match stored {
            None => Ok(()),
            Some(v) => match first_duplicate(&v) {
                Some(id) => Err(AppError::ConfigError(InitError::DuplicateRecord(id))),
                None => {
                    self.records = v;
                    Ok(())
                },
            },
        }
    }

    pub fn upload_dir(&self) -> (r: &str)
        ensures
            r@ == self.dir_view(),
    {
        self.config.upload_dir()
    }

    /// Stores a new record at the end. Fails, changing nothing, where its
    /// identifier is taken; otherwise returns the record's row.
    pub fn add_record(&mut self, record: FileRecord) -> (r: Result<usize, IngestError>)
        ensures
            has_id(old(self).records_view(), record.id) ==> r == Err::<usize, IngestError>(
                IngestError::AlreadyExists,
            ) && final(self).records_view() == old(self).records_view(),
            !has_id(old(self).records_view(), record.id) ==> r == Ok::<usize, IngestError>(
                old(self).records_view().len() as usize,
            ) && final(self).records_view() == old(self).records_view().push(record),
            final(self).dir_view() == old(self).dir_view(),
    {
        if self.contains_id(&record.id) {
            return Err(IngestError::AlreadyExists);
        }
        proof {
            use_type_invariant(&*self);
        }
        let row = self.records.len();
        let mut recs: Vec<FileRecord> = Vec::new();
        std::mem::swap(&mut recs, &mut self.records);
        recs.push(record);
        std::mem::swap(&mut recs, &mut self.records);
        Ok(row)
    }

    fn contains_id(&self, id: &FileId) -> (r: bool)
        ensures
            r == has_id(self.records_view(), *id),
    {
        match self.find(id) {
            Some(_) => true,
            None => false,
        }
    }

    /// The position of the record under `id`.
    fn find(&self, id: &FileId) -> (r: Option<usize>)
        ensures
            match r {
                Some(i) => has_id(self.records_view(), *id) && i == index_of(self.records_view(), *id),
                None => !has_id(self.records_view(), *id),
            },
    {
        proof {
            use_type_invariant(self);
        }
        let mut i: usize = 0;
        while i < self.records.len()
            invariant
                i <= self.records@.len(),
                ids_distinct(self.records@),
                forall|j: int| 0 <= j < i ==> #[trigger] self.records@[j].id != *id,
            decreases self.records@.len() - i,
        {
            if self.records[i].id == *id {
                assert(self.records@[i as int].id == *id);
                assert(has_id(self.records@, *id));
                let ghost k = index_of(self.records@, *id);
                assert(0 <= k < self.records@.len() && self.records@[k].id == *id);
                proof {
                    if k != i as int {
                        assert(self.records@[k].id != self.records@[i as int].id);
                    }
                }
                return Some(i);
            }
            i += 1;
        }
        None
    }

    /// The record stored under `id`, if any.
    pub fn get_record(&self, id: &FileId) -> (r: Option<&FileRecord>)
        ensures
            match r {
                Some(x) => lookup(self.records_view(), *id) == Some(*x),
                None => lookup(self.records_view(), *id) == None::<FileRecord>,
            },
    {
        match self.find(id) {
            Some(i) => Some(&self.records[i]),
            None => None,
        }
    }

    /// The record that an upload with these fields becomes under identifier
    /// `id` at time `uploaded_at`. Fails where `id` is already taken.
    pub fn record_for(
        &self,
        id: FileId,
        uploaded_at: Timestamp,
        name: String,
        by: Option<String>,
        description: Option<String>,
        content_type: Option<String>,
    ) -> (r: Result<FileRecord, IngestError>)
        ensures
            has_id(self.records_view(), id) ==> r == Err::<FileRecord, IngestError>(
                IngestError::AlreadyExists,
            ),
            !has_id(self.records_view(), id) ==> r == Ok::<FileRecord, IngestError>(
                FileRecord { id, name, by, uploaded_at, description, content_type },
            ),
    {
        if self.contains_id(&id) {
            Err(IngestError::AlreadyExists)
        } else {
            Ok(FileRecord { id, name, by, uploaded_at, description, content_type })
        }
    }

    /// Starts an upload: draws a fresh random identifier and stamps the
    /// record with the server clock. Fails where the drawn identifier is
    /// already taken.
    pub fn new_upload(
        &self,
        name: String,
        by: Option<String>,
        description: Option<String>,
        content_type: Option<String>,
    ) -> (r: Result<FileRecord, IngestError>)
        ensures
            match r {
                Ok(rec) => !has_id(self.records_view(), rec.id) && rec.name == name && rec.by == by
                    && rec.description == description && rec.content_type == content_type
                    && rec.uploaded_at.wf(),
                Err(e) => e == IngestError::AlreadyExists && self.records_view().len() > 0,
            },
    {
        let id = FileId { value: random_uuid() };
        let now = utc_now();
        let r = self.record_for(id, now, name, by, description, content_type);
        proof {
            if self.records_view().len() == 0 {
                assert(!has_id(self.records_view(), id));
            }
        }
        r
    }

    /// Records an upload once its blob write has finished. Where the blob
    /// was not written nothing changes and the upload fails with
    /// `StorageFailure`; otherwise it is stored as by `add_record`.
    pub fn ingest(&mut self, record: FileRecord, blob_written: bool) -> (r: Result<usize, IngestError>)
        ensures
            !blob_written ==> r == Err::<usize, IngestError>(IngestError::StorageFailure)
                && final(self).records_view() == old(self).records_view(),
            blob_written && has_id(old(self).records_view(), record.id) ==> r == Err::<
                usize,
                IngestError,
            >(IngestError::AlreadyExists) && final(self).records_view() == old(self).records_view(),
            blob_written && !has_id(old(self).records_view(), record.id) ==> r == Ok::<
                usize,
                IngestError,
            >(old(self).records_view().len() as usize) && final(self).records_view() == old(
                self,
            ).records_view().push(record),
            final(self).dir_view() == old(self).dir_view(),
    {
        if !blob_written {
            return Err(IngestError::StorageFailure);
        }
        self.add_record(record)
    }

    /// Takes back the record under `id` after saving the metadata failed;
    /// the upload then fails with `MetadataFailure`.
    pub fn undo_ingest(&mut self, id: &FileId) -> (r: IngestError)
        ensures
            r == IngestError::MetadataFailure,
            final(self).records_view() == without_id(old(self).records_view(), *id),
            final(self).dir_view() == old(self).dir_view(),
    {
        match self.find(id) {
            Some(i) => {
                proof {
                    use_type_invariant(&*self);
                }
                let mut recs: Vec<FileRecord> = Vec::new();
                std::mem::swap(&mut recs, &mut self.records);
                proof {
                    assert(ids_distinct(recs@));
                    assert forall|a: int, b: int|
                        0 <= a < recs@.len() - 1 && 0 <= b < recs@.len() - 1 && a != b implies
                        #[trigger] recs@.remove(i as int)[a].id != #[trigger] recs@.remove(
                        i as int,
                    )[b].id by {
                        let a2 = if a < i { a } else { a + 1 };
                        let b2 = if b < i { b } else { b + 1 };
                        assert(recs@[a2].id != recs@[b2].id);
                    }
                }
                recs.remove(i);
                std::mem::swap(&mut recs, &mut self.records);
            },
            None => {},
        }
        IngestError::MetadataFailure
    }

    /// Decides a download: the record under `id` where there is one and its
    /// blob could be opened, `NotFound` otherwise.
    pub fn fetch_for_download(&self, id: &FileId, blob_opened: bool) -> (r: Result<&FileRecord, FetchError>)
        ensures
            match r {
                Ok(x) => blob_opened && lookup(self.records_view(), *id) == Some(*x),
                Err(e) => e == FetchError::NotFound && (!blob_opened || lookup(
                    self.records_view(),
                    *id,
                ) == None::<FileRecord>),
            },
    {
        match self.get_record(id) {
            Some(x) => if blob_opened {
                Ok(x)
            } else {
                Err(FetchError::NotFound)
            },
            None => Err(FetchError::NotFound),
        }
    }

    /// Every stored record, in insertion order.
    pub fn get_records(&self) -> (r: &Vec<FileRecord>)
        ensures
            r@ == self.records_view(),
            ids_distinct(r@),
    {
        proof {
            use_type_invariant(self);
        }
        &self.records
    }

    /// Where the blob of `record` lives: its identifier's text inside the
    /// upload directory. The client's file name plays no part in it.
    pub fn get_file_path(&self, record: &FileRecord) -> (r: String)
        ensures
            r@ == blob_path(self.dir_view(), record.id),
    {
        let dir_str = self.config.upload_dir();
        let n = dir_str.unicode_len();
        let dir = String::from_str(dir_str);
        let name = record.id.to_text();
        if n == 0 || dir_str.get_char(n - 1) == '/' {
            dir.concat(name.as_str())
        } else {
            dir.concat("/").concat(name.as_str())
        }
    }
}

/// An identifier that two records of `v` share, if any.
fn first_duplicate(v: &Vec<FileRecord>) -> (r: Option<FileId>)
    ensures
        match r {
            Some(id) => exists|i: int, j: int| 0 <= i < j < v@.len() && v@[i].id == id && v@[j].id == id,
            None => ids_distinct(v@),
        },
{
    let mut j: usize = 0;
    while j < v.len()
        invariant
            j <= v@.len(),
            forall|a: int, b: int| 0 <= a < b < j ==> #[trigger] v@[a].id != #[trigger] v@[b].id,
        decreases v@.len() - j,
    {
        let mut i: usize = 0;
        while i < j
            invariant
                i <= j < v@.len(),
                forall|a: int| 0 <= a < i ==> #[trigger] v@[a].id != v@[j as int].id,
            decreases j - i,
        {
            if v[i].id == v[j].id {
                return Some(v[j].id);
            }
            i += 1;
        }
        j += 1;
    }
    proof {
        assert forall|a: int, b: int| 0 <= a < v@.len() && 0 <= b < v@.len() && a != b implies
            #[trigger] v@[a].id != #[trigger] v@[b].id by {
            if a > b {
                assert(v@[b].id != v@[a].id);
            }
        }
    }
    None
}

} // verus!
