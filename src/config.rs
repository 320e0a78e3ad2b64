use vstd::prelude::*;
use vstd::string::*;

verus! {

/// The directory that uploads go to when nothing else is configured.
pub open spec fn default_upload_dir() -> Seq<char> {
    "uploads"@
}

/// Where uploaded files are kept, and whether that directory may be
/// created when it is missing.
#[derive(Debug)]
pub struct AppConfig {
    upload_dir: String,
    create_dir_if_ne: bool,
}

impl AppConfig {
    pub closed spec fn spec_upload_dir(&self) -> Seq<char> {
        self.upload_dir@
    }

    pub closed spec fn spec_create_dir(&self) -> bool {
        self.create_dir_if_ne
    }

    /// The default configuration: `uploads`, created when missing.
    pub fn new() -> (r: Self)
        ensures
            r.spec_upload_dir() == default_upload_dir(),
            r.spec_create_dir(),
    {
        AppConfig { upload_dir: String::from_str("uploads"), create_dir_if_ne: true }
    }

    pub fn set_dir(self, dir: String) -> (r: Self)
        ensures
            r.spec_upload_dir() == dir@,
            r.spec_create_dir() == self.spec_create_dir(),
    {
        let mut this = self;
        this.upload_dir = dir;
        this
    }

    /// Whether a missing upload directory is created.
    pub fn create_dir(self, yes: bool) -> (r: Self)
        ensures
            r.spec_upload_dir() == self.spec_upload_dir(),
            r.spec_create_dir() == yes,
    {
        let mut this = self;
        this.create_dir_if_ne = yes;
        this
    }

    /// Back to the default directory and policy.
    pub fn set_defaults(self) -> (r: Self)
        ensures
            r.spec_upload_dir() == default_upload_dir(),
            r.spec_create_dir(),
    {
        let mut this = self;
        this.upload_dir = String::from_str("uploads");
        this.create_dir_if_ne = true;
        this
    }

    pub fn upload_dir(&self) -> (r: &str)
        ensures
            r@ == self.spec_upload_dir(),
    {
        self.upload_dir.as_str()
    }

    pub fn creates_missing_dir(&self) -> (r: bool)
        ensures
            r == self.spec_create_dir(),
    {
        self.create_dir_if_ne
    }
}

impl Default for AppConfig {
    fn default() -> (r: Self)
        ensures
            r.spec_upload_dir() == default_upload_dir(),
            r.spec_create_dir(),
    {
        AppConfig::new()
    }
}

} // verus!
