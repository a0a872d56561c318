//! The file-operations service, as far as it needs no file system.

use vstd::prelude::*;

verus! {

/// The file extensions of the image formats that the library takes in.
pub open spec fn supported_formats() -> Seq<Seq<char>> {
    seq!["jpg"@, "jpeg"@, "png"@, "gif"@]
}

/// The service for files below one primary path.
pub struct FileOperationService {
    primary_path: String,
}

impl FileOperationService {
    /// The path that the service works below.
    pub closed spec fn root(&self) -> Seq<char> {
        self.primary_path@
    }

    /// A service for the files below `primary_path`.
    pub fn new(primary_path: String) -> (service: Self)
        ensures
            service.root() == primary_path@,
    {
        FileOperationService { primary_path }
    }

    /// The path that the service works below.
    pub fn primary_path(&self) -> (path: &String)
        ensures
            path@ == self.root(),
    {
        &self.primary_path
    }

    /// The extensions of the supported image formats, lower case, without
    /// the dot.
    pub fn get_supported_formats() -> (formats: Vec<&'static str>)
        ensures
            formats@.map_values(|format: &'static str| format@) == supported_formats(),
    {
        let mut formats: Vec<&'static str> = Vec::new();
        formats.push("jpg");
        formats.push("jpeg");
        formats.push("png");
        formats.push("gif");
        assert(formats@.map_values(|format: &'static str| format@) =~= supported_formats());
        formats
    }
}

} // verus!
