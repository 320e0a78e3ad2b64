use vstd::prelude::*;
use vstd::string::*;

verus! {

/// The static pages that the server hands out.
#[derive(Clone, Copy, Debug, PartialEq, Eq, Structural)]
pub enum StaticFile {
    Index,
    NotFound,
    Upload,
}

/// The file name of each static page inside the static directory.
pub open spec fn static_file_name(f: StaticFile) -> Seq<char> {
    match f {
        StaticFile::Index => "indexv2.html"@,
        StaticFile::NotFound => "not_found.html"@,
        StaticFile::Upload => "uploadv2.html"@,
    }
}

impl StaticFile {
    pub fn file_name(&self) -> (r: String)
        ensures
            r@ == static_file_name(*self),
    {
        match self {
            StaticFile::Index => String::from_str("indexv2.html"),
            StaticFile::NotFound => String::from_str("not_found.html"),
            StaticFile::Upload => String::from_str("uploadv2.html"),
        }
    }
}

/// The names of the static pages to lay out in the static directory.
pub struct Assets(Vec<String>);

impl Assets {
    pub closed spec fn view_names(&self) -> Seq<Seq<char>> {
        self.0@.map_values(|s: String| s@)
    }

    /// Every static page, in the order index, not-found, upload.
    pub fn new() -> (r: Self)
        ensures
            r.view_names() == seq![
                static_file_name(StaticFile::Index),
                static_file_name(StaticFile::NotFound),
                static_file_name(StaticFile::Upload),
            ],
    {
        let mut assets: Vec<String> = Vec::new();
        assets.push(StaticFile::Index.file_name());
        assets.push(StaticFile::NotFound.file_name());
        assets.push(StaticFile::Upload.file_name());
        let r = Assets(assets);
        assert(r.view_names() =~= seq![
            static_file_name(StaticFile::Index),
            static_file_name(StaticFile::NotFound),
            static_file_name(StaticFile::Upload),
        ]);
        r
    }

    pub fn files(&self) -> (r: &Vec<String>)
        ensures
            r@.map_values(|s: String| s@) == self.view_names(),
    {
        &self.0
    }
}

} // verus!
