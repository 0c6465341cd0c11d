//! Building the metadata a sender declares for each file or text.

use vstd::prelude::*;
use vstd::string::StringSliceAdditionalSpecFns;

use crate::protocol::{FileId, FileMetadata, FileMetadataDetails};

verus! {

/// A fresh random file identifier.
pub fn generate_file_id() -> (r: FileId)
    ensures
        r@.len() == 36,
{
    FileId::new()
}

/// The MIME type `mime_guess` assigns to a file name, a pure function of
/// the name's extension.
pub uninterp spec fn mime_of(name: Seq<char>) -> Seq<char>;

/// Relies on `mime_guess::from_path` with `first_or_octet_stream`: a
/// lookup of the name's extension in a fixed table, falling back to
/// `application/octet-stream`; the result depends on the name alone.
#[verifier::external_body]
fn guess_mime(name: &str) -> (r: String)
    ensures
        r@ == mime_of(name@),
{
    mime_guess::from_path(name).first_or_octet_stream().to_string()
}

/// The MIME type for a file name or path.
pub fn get_mime_type(path: &str) -> (r: String)
    ensures
        r@ == mime_of(path@),
{
    guess_mime(path)
}

/// Metadata for a file whose body the caller already holds.
pub fn build_file_metadata_from_bytes(
    id: FileId,
    file_name: String,
    file_type: String,
    bytes: &Vec<u8>,
) -> (r: FileMetadata)
    ensures
        r.id == id,
        r.file_name == file_name,
        r.size == bytes@.len(),
        r.file_type == file_type,
        r.sha256 is None,
        r.preview is None,
        r.metadata is None,
{
    let size = bytes.len() as u64;
    FileMetadata { id, file_name, size, file_type, sha256: None, preview: None, metadata: None }
}

/// Metadata for a file on disk: the caller reads the size off the
/// filesystem, the MIME type follows from the name.
pub fn build_file_metadata(file_name: String, size: u64) -> (r: FileMetadata)
    ensures
        r.id@.len() == 36,
        r.file_name == file_name,
        r.size == size,
        r.file_type@ == mime_of(file_name@),
        r.sha256 is None,
        r.preview is None,
        r.metadata is None,
{
    let file_type = get_mime_type(file_name.as_str());
    FileMetadata {
        id: generate_file_id(),
        file_name,
        size,
        file_type,
        sha256: None,
        preview: None,
        metadata: None,
    }
}

/// Metadata for an inline text message: the text itself is the preview,
/// the declared size is its UTF-8 byte count, and the name is the random
/// identifier with a `.txt` suffix.
pub fn text_message_metadata(text: String) -> (r: FileMetadata)
    ensures
        r.id@.len() == 36,
        r.file_name@ == r.id@ + seq!['.', 't', 'x', 't'],
        r.size == vstd::utf8::encode_utf8(text@).len() as usize as u64,
        r.file_type@ == "text/plain"@,
        r.sha256 is None,
        r.preview == Some(text),
        r.metadata matches Some(d) && d.modified is None && d.accessed is None,
{
    proof {
        reveal_strlit(".txt");
    }
    let id = FileId::new();
    let text_ref = text.as_str();
    let size = text_ref.len() as u64;
    proof {
        assert(text_ref.spec_bytes() == vstd::utf8::encode_utf8(text@));
    }
    let mut file_name = id.0.clone();
    file_name.append(".txt");
    FileMetadata {
        id,
        file_name,
        size,
        file_type: String::from_str("text/plain"),
        sha256: None,
        preview: Some(text),
        metadata: Some(FileMetadataDetails { modified: None, accessed: None }),
    }
}

} // verus!
