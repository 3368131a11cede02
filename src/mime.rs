use vstd::prelude::*;

verus! {

/// What `Path::extension` finds in a path, as text.
pub uninterp spec fn extension_of(path: Seq<char>) -> Option<Seq<char>>;

/// What `str::to_lowercase` makes of a text.
pub uninterp spec fn lower_of(s: Seq<char>) -> Seq<char>;

/// Relies on std's `Path::extension`: the extension of the path's final
/// component, if it has one. A path made from a `str` is valid Unicode, so
/// the extension is too.
#[verifier::external_body]
fn path_extension(path: &str) -> (r: Option<String>)
    ensures
        r.deep_view() == extension_of(path@),
{
    std::path::Path::new(path).extension().and_then(|e| e.to_str()).map(|e| e.to_string())
}

/// Relies on std's `str::to_lowercase`: the text with every character
/// mapped to its lowercase form.
#[verifier::external_body]
fn lowercase(s: &str) -> (r: String)
    ensures
        r@ == lower_of(s@),
{
    s.to_lowercase()
}

/// The content type served for a file with the given lowercase extension.
pub open spec fn mime_of(ext: Seq<char>) -> Seq<char> {
    if ext == "avif"@ {
        "image/avif"@
    } else {
        "application/octet-stream"@
    }
}

/// The content type served for a file with the given lowercase extension:
/// AVIF images are named as such, anything else is sent as raw bytes.
pub fn mime_for_extension(ext: &str) -> (r: String)
    ensures
        r@ == mime_of(ext@),
{
    if ext.unicode_len() == 4 && ext.get_char(0) == 'a' && ext.get_char(1) == 'v' && ext.get_char(2)
        == 'i' && ext.get_char(3) == 'f' {
        proof {
            reveal_strlit("avif");
        }
        assert(ext@ =~= "avif"@);
        String::from_str("image/avif")
    } else {
        proof {
            reveal_strlit("avif");
        }
        assert(ext@ != "avif"@);
        String::from_str("application/octet-stream")
    }
}

/// The content type served for the file at `path`, by its extension in any
/// case.
pub fn get_mime(path: &str) -> (r: String)
    ensures
        r@ == match extension_of(path@) {
            Some(e) => mime_of(lower_of(e)),
            None => "application/octet-stream"@,
        },
{
    match path_extension(path) {
        Some(e) => {
            let lower = lowercase(e.as_str());
            mime_for_extension(lower.as_str())
        },
        None => String::from_str("application/octet-stream"),
    }
}

} // verus!
