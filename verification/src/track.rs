//! Track identifiers and their canonical URI form.

use vstd::prelude::*;

verus! {

/// The kind of item a track identifier names.
#[derive(Clone, Copy, Debug, PartialEq, Eq, Structural)]
pub enum TrackKind {
    Track,
    Podcast,
    NonPlayable,
}

/// An opaque track identifier: a 128-bit number and the kind of item it names.
#[derive(Clone, Copy, Debug, PartialEq, Eq, Structural)]
pub struct TrackId {
    pub id: u128,
    pub kind: TrackKind,
}

/// The canonical URI that the session library renders for `track`, or `None`
/// where it reports a failure. It depends on the identifier alone.
pub uninterp spec fn rendered_uri(track: TrackId) -> Option<Seq<char>>;

/// The characters of an optional string.
pub open spec fn text_of(s: Option<String>) -> Option<Seq<char>> {
    match s {
        Some(t) => Some(t@),
        None => None,
    }
}

/// The text placed in a record for a rendering outcome: the URI itself, or
/// the empty string where rendering failed.
pub open spec fn uri_or_empty(rendered: Option<Seq<char>>) -> Seq<char> {
    match rendered {
        Some(uri) => uri,
        None => Seq::<char>::empty(),
    }
}

/// Trusted: calls `SpotifyId::to_uri` of librespot on the identifier with the
/// same number and kind. The contract claims only that the outcome, with its
/// error discarded, is the one that `rendered_uri` names for this identifier;
/// nothing is claimed about when rendering succeeds or what the text holds.
#[verifier::external_body]
pub(crate) fn render_uri(track: TrackId) -> (uri: Option<String>)
    ensures
        text_of(uri) == rendered_uri(track),
{
    let audio_type = match track.kind {
        TrackKind::Track => librespot::core::spotify_id::SpotifyAudioType::Track,
        TrackKind::Podcast => librespot::core::spotify_id::SpotifyAudioType::Podcast,
        TrackKind::NonPlayable => librespot::core::spotify_id::SpotifyAudioType::NonPlayable,
    };
    librespot::core::spotify_id::SpotifyId { id: track.id, audio_type }.to_uri().ok()
}

/// Turns a rendering outcome into record text: a failure becomes the empty
/// string, never an error.
pub fn uri_field(rendered: Option<String>) -> (text: String)
    ensures
        text@ == uri_or_empty(text_of(rendered)),
{
    match rendered {
        Some(uri) => uri,
        None => String::new(),
    }
}

impl TrackId {
    /// The canonical URI of this identifier as record text, empty where the
    /// session library fails to render it.
    pub fn uri_text(&self) -> (text: String)
        ensures
            text@ == uri_or_empty(rendered_uri(*self)),
    {
        uri_field(render_uri(*self))
    }
}

} // verus!
