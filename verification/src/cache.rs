use vstd::prelude::*;
use vstd::string::*;
use vstd::utf8::*;

verus! {

/// The directory, relative to the configuration's base directory, that holds
/// the cached filter lists: the configured one where there is one, else
/// `filters`.
pub fn filter_directory_name(configured: Option<String>) -> (name: String)
    ensures
        name@ == match configured {
            Some(value) => value@,
            None => "filters"@,
        },
{
    match configured {
        Some(value) => value,
        None => String::from_str("filters"),
    }
}

/// The error type of `std::str::from_utf8`.
#[verifier::external_type_specification]
#[verifier::external_body]
pub struct ExUtf8Error(core::str::Utf8Error);

/// `std::str::from_utf8` on `bytes`, the text then copied into a `String`.
/// Trusted: it succeeds exactly on valid UTF-8, and then gives the characters
/// that the bytes encode.
#[verifier::external_body]
fn text_from_utf8(bytes: &[u8]) -> (text: Result<String, core::str::Utf8Error>)
    ensures
        match text {
            Ok(t) => valid_utf8(bytes@) && t@ == decode_utf8(bytes@),
            Err(_) => !valid_utf8(bytes@),
        },
{
    match std::str::from_utf8(bytes) {
        Ok(text) => Ok(text.to_string()),
        Err(error) => Err(error),
    }
}

/// What reading the cached copy of a filter list gave.
pub enum CachedRead {
    /// The file was read; these are its bytes.
    Contents(Vec<u8>),
    /// There is no such file.
    NotFound,
    /// Reading failed for another reason.
    Failed,
}

/// What `Filter::get_contents` does after reading the cached copy.
#[derive(Debug)]
pub enum ContentsAction {
    /// Hand back the cached filter text.
    Return(String),
    /// Fetch the list from its URL and cache it (`Filter::update`).
    Fetch,
    /// Report the failed read.
    ReadFailed,
    /// Report that the cached bytes are not UTF-8.
    NotUtf8(core::str::Utf8Error),
}

/// The decision of `Filter::get_contents`: a cached copy that is valid UTF-8
/// is returned as text; a missing one is fetched; any other failure is
/// reported.
pub fn contents_action(read: CachedRead) -> (action: ContentsAction)
    ensures
        match read {
            CachedRead::Contents(bytes) => match action {
                ContentsAction::Return(text) => valid_utf8(bytes@) && text@ == decode_utf8(bytes@),
                ContentsAction::NotUtf8(_) => !valid_utf8(bytes@),
                _ => false,
            },
            CachedRead::NotFound => action is Fetch,
            CachedRead::Failed => action is ReadFailed,
        },
{
    match read {
        CachedRead::Contents(bytes) => match text_from_utf8(bytes.as_slice()) {
            Ok(text) => ContentsAction::Return(text),
            Err(error) => ContentsAction::NotUtf8(error),
        },
        CachedRead::NotFound => ContentsAction::Fetch,
        CachedRead::Failed => ContentsAction::ReadFailed,
    }
}

} // verus!
