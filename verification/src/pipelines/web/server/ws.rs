//! Which file answers a request to the development server.
use vstd::prelude::*;
use vstd::string::*;

verus! {

/// The file that answers a request.
#[derive(Debug, Clone, Copy, PartialEq, Eq)]
pub enum ServedFile {
    /// `index.html` of the output directory.
    IndexHtml,
    /// The requested path under the output directory.
    OutputFile,
    /// The requested path under the public directory.
    PublicFile,
    /// Nothing: the answer is 404.
    NotFound,
}

/// The file that answers a request, given the extension of the requested
/// path, whether that path exists under the output directory, and whether a
/// public directory is set. A path with no extension, or with the extension
/// `html`, is answered by `index.html`; any other file is looked up in the
/// output directory first and then in the public directory.
pub fn resolve_request(extension: Option<&str>, output_file_exists: bool, has_public_dir: bool) -> (res: ServedFile)
    ensures
        res == match extension {
            None => ServedFile::IndexHtml,
            Some(e) => if e@ == "html"@ {
                ServedFile::IndexHtml
            } else if output_file_exists {
                ServedFile::OutputFile
            } else if has_public_dir {
                ServedFile::PublicFile
            } else {
                ServedFile::NotFound
            },
        },
{
    match extension {
        None => ServedFile::IndexHtml,
        Some(e) => {
            if String::from_str(e) == String::from_str("html") {
                ServedFile::IndexHtml
            } else if output_file_exists {
                ServedFile::OutputFile
            } else if has_public_dir {
                ServedFile::PublicFile
            } else {
                ServedFile::NotFound
            }
        },
    }
}

} // verus!
