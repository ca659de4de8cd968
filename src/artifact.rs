use vstd::prelude::*;

verus! {

/// Why an uploaded model file is refused.
#[derive(Debug, Clone, Copy, PartialEq, Eq)]
pub enum ModelFileError {
    /// The file name has no extension.
    InvalidExtension,
    /// The extension is not one of the supported model formats.
    UnsupportedFormat,
}

/// What `Path::extension` gives for a file name, as text.
pub uninterp spec fn extension_of(name: Seq<char>) -> Option<Seq<char>>;

/// What `str::to_lowercase` returns for a text.
pub uninterp spec fn lower_of(s: Seq<char>) -> Seq<char>;

/// What the standard base64 engine, with padding, encodes `data` to.
pub uninterp spec fn base64_of(data: Seq<u8>) -> Seq<char>;

/// Relies on `std::path::Path::extension`: the part of the file name after
/// its last dot, which depends on the characters alone.
#[verifier::external_body]
fn file_extension(name: &str) -> (r: Option<String>)
    ensures
        match r {
            Some(e) => extension_of(name@) == Some(e@),
            None => extension_of(name@) is None,
        },
{
    std::path::Path::new(name).extension().and_then(|e| e.to_str()).map(|e| e.to_string())
}

/// Relies on `str::to_lowercase`: the lower-case form depends on the
/// characters alone.
#[verifier::external_body]
fn lowercase(s: &str) -> (r: String)
    ensures
        r@ == lower_of(s@),
{
    s.to_lowercase()
}

/// Relies on `base64::Engine::encode` with the standard padded alphabet:
/// four characters for each started group of three bytes.
#[verifier::external_body]
fn encode_standard(data: &[u8]) -> (r: String)
    requires
        4 * ((data@.len() + 2) / 3) <= usize::MAX,
    ensures
        r@ == base64_of(data@),
        r@.len() == 4 * ((data@.len() + 2) / 3),
{
    base64::Engine::encode(&base64::engine::general_purpose::STANDARD, data)
}

/// The model formats that a job accepts, by lower-case extension.
pub open spec fn supported_extension(e: Seq<char>) -> bool {
    e == "stl"@ || e == "3mf"@ || e == "amf"@ || e == "obj"@
}

/// Whether two texts are equal.
fn same_text(a: &str, b: &str) -> (r: bool)
    ensures
        r == (a@ == b@),
{
    let n = a.unicode_len();
    if n != b.unicode_len() {
        return false;
    }
    let mut i: usize = 0;
    while i < n
        invariant
            n == a@.len(),
            n == b@.len(),
            i <= n,
            forall|j: int| 0 <= j < i ==> a@[j] == b@[j],
        decreases n - i,
    {
        if a.get_char(i) != b.get_char(i) {
            return false;
        }
        i += 1;
    }
    assert(a@ =~= b@);
    true
}

/// Whether a lower-case extension names a supported model format.
pub fn is_supported_extension(lowered: &str) -> (r: bool)
    ensures
        r == supported_extension(lowered@),
{
    same_text(lowered, "stl") || same_text(lowered, "3mf") || same_text(lowered, "amf")
        || same_text(lowered, "obj")
}

/// Checks the file name of an uploaded model: it must have an extension
/// that, in lower case, names a supported format.
pub fn check_model_filename(filename: &str) -> (r: Result<(), ModelFileError>)
    ensures
        extension_of(filename@) is None ==> r == Err::<(), ModelFileError>(
            ModelFileError::InvalidExtension,
        ),
        extension_of(filename@) is Some ==> (r is Ok <==> supported_extension(
            lower_of(extension_of(filename@)->Some_0),
        )),
        extension_of(filename@) is Some && r is Err ==> r == Err::<(), ModelFileError>(
            ModelFileError::UnsupportedFormat,
        ),
{
    match file_extension(filename) {
        None => Err(ModelFileError::InvalidExtension),
        Some(ext) => {
            let lowered = lowercase(ext.as_str());
            if is_supported_extension(lowered.as_str()) {
                Ok(())
            } else {
                Err(ModelFileError::UnsupportedFormat)
            }
        },
    }
}

/// Encodes an output artifact for a response body, in standard padded
/// base64.
pub fn base64_encode(data: &[u8]) -> (r: String)
    requires
        4 * ((data@.len() + 2) / 3) <= usize::MAX,
    ensures
        r@ == base64_of(data@),
        r@.len() == 4 * ((data@.len() + 2) / 3),
{
    encode_standard(data)
}

} // verus!
