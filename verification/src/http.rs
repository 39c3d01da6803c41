//! Models of a node's track-search responses.

use vstd::prelude::*;
use vstd::string::StringSliceAdditionalSpecFns;

verus! {

/// The type of search result given.
#[derive(Clone, Copy, Debug, PartialEq, Eq, Structural)]
pub enum LoadType {
    /// Loading the results failed.
    LoadFailed,
    /// There were no matches.
    NoMatches,
    /// A playlist was found.
    PlaylistLoaded,
    /// Some results were found.
    SearchResult,
    /// A single track was found.
    TrackLoaded,
}

/// A track within a search result.
#[derive(Clone, Debug, PartialEq, Eq)]
pub struct Track {
    /// Details about a track, such as the author and title.
    pub info: TrackInfo,
    /// The base64 track string that is used in a play command.
    pub track: String,
}

/// Additional information about a track, such as the author.
#[derive(Clone, Debug, PartialEq, Eq)]
pub struct TrackInfo {
    /// Class name of the track.
    pub class: String,
    /// The title.
    pub title: String,
    /// The name of the author.
    pub author: String,
    /// The length of the audio in milliseconds.
    pub length: u64,
    /// The identifier of the source of the track.
    pub identifier: String,
    /// The source URI of the track.
    pub uri: String,
    /// Whether the source is a stream.
    pub is_stream: bool,
    /// Whether the source is seekable.
    pub is_seekable: bool,
    /// The position of the audio.
    pub position: u64,
}

/// Information about a playlist from a search result.
#[derive(Clone, Debug, PartialEq, Eq)]
pub struct PlaylistInfo {
    /// The name of the playlist, if available.
    pub name: String,
    /// The selected track, if one was selected.
    pub selected_track: Option<u64>,
}

/// Possible track results for a query.
#[derive(Clone, Debug, PartialEq, Eq)]
pub struct LoadedTracks {
    /// The type of search result, such as a list of tracks or a playlist.
    pub load_type: LoadType,
    /// The list of tracks returned for the search query.
    pub tracks: Option<Vec<Track>>,
    /// Information about the playlist, if provided.
    pub playlist_info: Option<PlaylistInfo>,
    /// Error that happened while loading track.
    pub cause: Option<Error>,
    /// Severity of the error.
    pub severity: Option<String>,
}

/// Error information.
#[derive(Clone, Debug, PartialEq, Eq)]
pub struct Error {
    /// Class of the error.
    pub class: String,
    /// Message of the error.
    pub message: Option<String>,
    /// Stack trace of the error, always None.
    pub stack: Option<String>,
    /// Cause of the error, always None.
    pub cause: Option<String>,
    /// Suppressed errors, always None.
    pub suppressed: Option<String>,
}

} // verus!

verus! {

/// Whether a byte is an ASCII letter or digit.
pub open spec fn is_alphanumeric(byte: u8) -> bool {
    ||| 0x30 <= byte <= 0x39
    ||| 0x41 <= byte <= 0x5A
    ||| 0x61 <= byte <= 0x7A
}

/// The upper-case hexadecimal digit of a value below sixteen.
pub open spec fn hex_digit(value: u8) -> char {
    if value < 10 {
        (0x30 + value) as u8 as char
    } else {
        (0x41 + value - 10) as u8 as char
    }
}

/// A byte as it stands in a query: a letter or digit as itself, any other
/// byte as `%` and its two hexadecimal digits.
pub open spec fn encoded_byte(byte: u8) -> Seq<char> {
    if is_alphanumeric(byte) {
        seq![byte as char]
    } else {
        seq!['%', hex_digit(byte / 16), hex_digit(byte % 16)]
    }
}

/// The bytes one after the other, each as it stands in a query.
pub open spec fn percent_encoded(bytes: Seq<u8>) -> Seq<char>
    decreases bytes.len(),
{
    if bytes.len() == 0 {
        Seq::empty()
    } else {
        percent_encoded(bytes.drop_last()) + encoded_byte(bytes.last())
    }
}

/// Calls `percent_encoding::percent_encode` with the set `NON_ALPHANUMERIC`
/// on the bytes of `text` and collects what it yields: every byte that is
/// not an ASCII letter or digit is replaced by `%` and its two upper-case
/// hexadecimal digits, and the letters and digits are kept.
#[verifier::external_body]
fn percent_encode_text(text: &str) -> (r: String)
    ensures
        r@ == percent_encoded(text.spec_bytes()),
{
    percent_encoding::percent_encode(text.as_bytes(), percent_encoding::NON_ALPHANUMERIC)
        .to_string()
}

/// Whether a byte may stand in the value of a header: no control character
/// but the tab.
pub open spec fn is_header_byte(byte: u8) -> bool {
    byte >= 32 && byte != 127 || byte == 9
}

/// Whether every byte may stand in the value of a header.
pub open spec fn is_header_value(bytes: Seq<u8>) -> bool {
    forall|i: int| 0 <= i < bytes.len() ==> is_header_byte(#[trigger] bytes[i])
}

/// Calls `http::header::HeaderValue::from_str` and says whether it
/// succeeded: it does unless one of the bytes of `text` is a control
/// character other than the tab.
#[verifier::external_body]
fn accepted_as_header_value(text: &str) -> (r: bool)
    ensures
        r == is_header_value(text.spec_bytes()),
{
    ::http::header::HeaderValue::from_str(text).is_ok()
}

/// The credential cannot be sent in a header.
#[derive(Clone, Copy, Debug, PartialEq, Eq, Structural)]
pub struct InvalidAuthorization;

/// A request for a node's track search: where to send it and the credential
/// to send with it.
#[derive(Clone, Debug, PartialEq, Eq)]
pub struct LoadTrackRequest {
    /// The address of the search, identifier included.
    pub url: String,
    /// The value of the authorization header.
    pub authorization: String,
}

/// The address of the track search of the node at `host` for `identifier`.
pub open spec fn load_track_url(host: Seq<char>, identifier: Seq<u8>) -> Seq<char> {
    "http://"@ + host + "/loadtracks?identifier="@ + percent_encoded(identifier)
}

/// Get a list of tracks that match an identifier.
///
/// `host` is the node's address as it is written in a URL, port included.
/// The response to the request will include a body which holds a
/// [`LoadedTracks`].
///
/// # Errors
///
/// Fails if `authorization` holds a byte that no header value may hold.
pub fn load_track(host: &str, identifier: &str, authorization: &str) -> (r: Result<
    LoadTrackRequest,
    InvalidAuthorization,
>)
    ensures
        r is Ok <==> is_header_value(authorization.spec_bytes()),
        r matches Ok(request) ==> request.url@ == load_track_url(host@, identifier.spec_bytes())
            && request.authorization@ == authorization@,
{
    if !accepted_as_header_value(authorization) {
        return Err(InvalidAuthorization);
    }
    Ok(
        LoadTrackRequest {
            url: track_search_url(host, identifier),
            authorization: String::from_str(authorization),
        },
    )
}

/// The address of the track search of the node at `host` for `identifier`,
/// with the identifier percent-encoded.
pub fn track_search_url(host: &str, identifier: &str) -> (r: String)
    ensures
        r@ == load_track_url(host@, identifier.spec_bytes()),
{
    let encoded = percent_encode_text(identifier);
    String::from_str("http://").concat(host).concat("/loadtracks?identifier=").concat(
        encoded.as_str(),
    )
}

} // verus!
