//! Playlists: parsing a fetched body, rewriting the URIs of its entries and
//! writing it out again.
//!
//! The playlist grammar belongs to the `m3u8-rs` crate. A parsed playlist is
//! carried as that crate's own value; the proxy reads and replaces only the
//! URIs of its entries: the variant streams of a master playlist, the segments
//! of a media playlist.

use crate::config::{State, StateView};
use crate::encode::{encoded_text, lemma_encoded_text_decodes, percent_decode};
use crate::rewrite::{
    absolute_child, directory_of, lemma_directory_resolves, proxy_prefix, rewrite_uri,
    rewritten_uri,
};
use vstd::pervasive::unreached;
use vstd::prelude::*;
use vstd::utf8::*;

verus! {

#[verifier::external_type_specification]
#[verifier::external_body]
pub struct ExPlaylist(m3u8_rs::Playlist);

/// The URIs of a playlist's entries, in playback order: those of the variant
/// streams of a master playlist, those of the segments of a media playlist.
pub uninterp spec fn playlist_uris(playlist: m3u8_rs::Playlist) -> Seq<Seq<char>>;

/// Whether the playlist is a master playlist; otherwise it is a media
/// playlist.
pub uninterp spec fn is_master(playlist: m3u8_rs::Playlist) -> bool;

/// The rest of a playlist: everything it holds besides the URIs of its
/// entries (its tags, and of each entry the attributes, the duration and
/// whatever else belongs to it), in some fixed encoding. Two playlists with
/// the same kind, the same rest and the same entry URIs hold the same.
pub uninterp spec fn playlist_rest(playlist: m3u8_rs::Playlist) -> Seq<u8>;

/// What `m3u8_rs::parse_playlist` makes of a body: `None` where it does not
/// accept the body as a playlist, else whether the playlist is a master
/// playlist and the URIs of its entries in order.
pub uninterp spec fn parsed_playlist(body: Seq<u8>) -> Option<(bool, Seq<Seq<char>>)>;

/// Parses a body as a playlist.
///
/// Calls `m3u8_rs::parse_playlist` and drops the unparsed rest of the input.
/// The contract names the outcome: `parsed_playlist` of the body is `None`
/// exactly when the call fails, and else tells the kind and the entry URIs of
/// the playlist returned.
#[verifier::external_body]
fn parse_playlist(body: &[u8]) -> (r: Option<m3u8_rs::Playlist>)
    ensures
        match r {
            Some(playlist) => parsed_playlist(body@) == Some(
                (is_master(playlist), playlist_uris(playlist)),
            ),
            None => parsed_playlist(body@) is None,
        },
{
    match m3u8_rs::parse_playlist(body) {
        Ok((_, playlist)) => Some(playlist),
        Err(_) => None,
    }
}

/// Copies the entry URIs out of a playlist: the `uri` field of each element of
/// `variants` or of `segments`, in order.
#[verifier::external_body]
fn child_uris(playlist: &m3u8_rs::Playlist) -> (uris: Vec<String>)
    ensures
        uris@.len() == playlist_uris(*playlist).len(),
        forall|i: int| 0 <= i < uris@.len() ==> (#[trigger] uris@[i])@ == playlist_uris(*playlist)[i],
{
    match playlist {
        m3u8_rs::Playlist::MasterPlaylist(master) => master.variants.iter().map(
            |variant| variant.uri.clone(),
        ).collect(),
        m3u8_rs::Playlist::MediaPlaylist(media) => media.segments.iter().map(
            |segment| segment.uri.clone(),
        ).collect(),
    }
}

/// Replaces the URI of one entry: assigns the `uri` field of the element at
/// `index` of `variants` or of `segments`. No other entry and no other field
/// is touched, so the kind, the other URIs and the rest of the playlist stay.
#[verifier::external_body]
fn set_child_uri(playlist: &mut m3u8_rs::Playlist, index: usize, uri: String)
    requires
        index < playlist_uris(*old(playlist)).len(),
    ensures
        playlist_uris(*final(playlist)) == playlist_uris(*old(playlist)).update(index as int, uri@),
        is_master(*final(playlist)) == is_master(*old(playlist)),
        playlist_rest(*final(playlist)) == playlist_rest(*old(playlist)),
{
    match playlist {
        m3u8_rs::Playlist::MasterPlaylist(master) => {
            master.variants[index].uri = uri;
        },
        m3u8_rs::Playlist::MediaPlaylist(media) => {
            media.segments[index].uri = uri;
        },
    }
}

/// Tells a master playlist from a media playlist, by the variant of the
/// crate's enum.
#[verifier::external_body]
fn is_master_playlist(playlist: &m3u8_rs::Playlist) -> (r: bool)
    ensures
        r == is_master(*playlist),
{
    match playlist {
        m3u8_rs::Playlist::MasterPlaylist(_) => true,
        m3u8_rs::Playlist::MediaPlaylist(_) => false,
    }
}

/// The text holds the UTF-8 bytes of each URI at the given place, the places
/// coming one after the other without overlap.
pub open spec fn placed(text: Seq<u8>, uris: Seq<Seq<char>>, starts: Seq<int>) -> bool {
    &&& starts.len() == uris.len()
    &&& forall|i: int|
        0 <= i < uris.len() ==> 0 <= #[trigger] starts[i] && starts[i] + encode_utf8(
            uris[i],
        ).len() <= text.len() && text.subrange(
            starts[i],
            starts[i] + encode_utf8(uris[i]).len(),
        ) == encode_utf8(uris[i])
    &&& forall|i: int, j: int|
        0 <= i < j < uris.len() ==> starts[i] + encode_utf8(uris[i]).len() <= starts[j]
}

/// The text holds every URI of the list, letter for letter and in the order
/// of the list.
pub open spec fn holds_in_order(text: Seq<u8>, uris: Seq<Seq<char>>) -> bool {
    exists|starts: Seq<int>| #[trigger] placed(text, uris, starts)
}

/// Writes a playlist out as text.
///
/// Calls `m3u8_rs::Playlist::write_to` on an empty buffer and hands the buffer
/// back. The call passes on only the errors of what it writes to, and a
/// buffer in memory has none, so the result is always `Some`. The crate writes
/// the entries in their order and the `uri` field of each as it stands, so
/// the text holds the entry URIs in order. Its other bytes are not named: the
/// crate walks hash maps of attributes while it writes, and reads a
/// process-wide setting for the precision of durations, so two calls on equal
/// playlists may differ in them.
#[verifier::external_body]
fn write_playlist(playlist: &m3u8_rs::Playlist) -> (text: Option<Vec<u8>>)
    ensures
        text is Some,
        holds_in_order((text->0)@, playlist_uris(*playlist)),
{
    let mut buffer: Vec<u8> = Vec::new();
    match playlist.write_to(&mut buffer) {
        Ok(()) => Some(buffer),
        Err(_) => None,
    }
}

/// Every entry URI stands for an absolute URL.
pub open spec fn all_resolvable(target: Seq<char>, uris: Seq<Seq<char>>) -> bool {
    forall|i: int| 0 <= i < uris.len() ==> absolute_child(target, #[trigger] uris[i]) is Some
}

/// Every entry of a playlist has an absolute URL when the target it was
/// fetched from has a directory.
pub proof fn lemma_directory_resolves_all(target: Seq<char>, uris: Seq<Seq<char>>)
    requires
        directory_of(target) is Some,
    ensures
        all_resolvable(target, uris),
{
    assert forall|i: int| 0 <= i < uris.len() implies absolute_child(target, #[trigger] uris[i])
        is Some by {
        lemma_directory_resolves(target, uris[i]);
    }
}

/// The entry URIs after rewriting: as many as before, in the same order, each
/// one the rewritten form of the entry at its place.
pub open spec fn rewritten_uris(
    state: StateView,
    key: Seq<char>,
    target: Seq<char>,
    uris: Seq<Seq<char>>,
) -> Seq<Seq<char>> {
    Seq::new(uris.len(), |i: int| rewritten_uri(state, key, target, uris[i])->0)
}

/// Rewrites the URI of every entry of a playlist fetched from `target`, so
/// that each leads back through the proxy.
///
/// The playlist keeps its kind, the number of its entries, their order and
/// everything it holds besides their URIs. The result is `None` exactly when
/// some entry has no absolute URL, which needs an entry that is no absolute
/// URL itself and a target without a directory.
pub fn rewrite_playlist(
    playlist: m3u8_rs::Playlist,
    state: &State,
    key: &str,
    target: &str,
) -> (r: Option<m3u8_rs::Playlist>)
    ensures
        r is Some == all_resolvable(target@, playlist_uris(playlist)),
        match r {
            Some(rewritten) => {
                &&& is_master(rewritten) == is_master(playlist)
                &&& playlist_rest(rewritten) == playlist_rest(playlist)
                &&& playlist_uris(rewritten) == rewritten_uris(
                    state@,
                    key@,
                    target@,
                    playlist_uris(playlist),
                )
            },
            None => true,
        },
{
    let uris = child_uris(&playlist);
    let ghost before = playlist_uris(playlist);
    let ghost after = rewritten_uris(state@, key@, target@, before);
    let mut current = playlist;
    let mut i: usize = 0;
    while i < uris.len()
        invariant
            i <= uris@.len(),
            uris@.len() == before.len(),
            before == playlist_uris(playlist),
            after == rewritten_uris(state@, key@, target@, before),
            forall|j: int| 0 <= j < uris@.len() ==> (#[trigger] uris@[j])@ == before[j],
            is_master(current) == is_master(playlist),
            playlist_rest(current) == playlist_rest(playlist),
            playlist_uris(current).len() == before.len(),
            forall|j: int| 0 <= j < i ==> playlist_uris(current)[j] == after[j],
            forall|j: int| i <= j < before.len() ==> playlist_uris(current)[j] == before[j],
            forall|j: int| 0 <= j < i ==> absolute_child(target@, #[trigger] before[j]) is Some,
        decreases uris@.len() - i,
    {
        match rewrite_uri(state, key, target, uris[i].as_str()) {
            Some(uri) => {
                set_child_uri(&mut current, i, uri);
            },
            None => {
                assert(absolute_child(target@, before[i as int]) is None);
                return None;
            },
        }
        i += 1;
    }
    assert(playlist_uris(current) =~= after);
    Some(current)
}

/// What rewriting makes of a fetched body.
pub enum Rewrite {
    /// The body is no playlist: it is a binary chunk, to be passed on as it is.
    Binary,
    /// The body is a playlist, but one of its entries has no absolute URL:
    /// it is no absolute URL itself and the target has no directory.
    Unresolvable,
    /// The body is a playlist and its entries were rewritten.
    Playlist {
        /// Whether it is a master playlist.
        master: bool,
        /// The rewritten URIs of its entries, in order.
        uris: Vec<String>,
        /// The rewritten playlist as text.
        text: Vec<u8>,
    },
}

/// The texts of a list of strings.
pub open spec fn texts(strings: Seq<String>) -> Seq<Seq<char>> {
    Seq::new(strings.len(), |i: int| strings[i]@)
}

/// Parses a fetched body and, where it is a playlist, rewrites the URI of
/// every entry so that it leads back through the proxy, and writes the
/// playlist out again.
///
/// A body that does not parse is binary. A playlist keeps its kind and its
/// entries their number and order; entry `i` becomes the rewritten form of
/// entry `i`. The text is what the playlist crate writes for the rewritten
/// playlist; it holds the rewritten URIs in order.
pub fn rewrite_body(body: &[u8], state: &State, key: &str, target: &str) -> (r: Rewrite)
    ensures
        match parsed_playlist(body@) {
            None => r is Binary,
            Some((master, uris)) => if all_resolvable(target@, uris) {
                &&& r matches Rewrite::Playlist { master: m, uris: u, text: t }
                &&& m == master
                &&& texts(u@) == rewritten_uris(state@, key@, target@, uris)
                &&& holds_in_order(t@, rewritten_uris(state@, key@, target@, uris))
            } else {
                r is Unresolvable
            },
        },
{
    match parse_playlist(body) {
        None => Rewrite::Binary,
        Some(playlist) => match rewrite_playlist(playlist, state, key, target) {
            None => Rewrite::Unresolvable,
            Some(rewritten) => {
                let master = is_master_playlist(&rewritten);
                let uris = child_uris(&rewritten);
                let text = match write_playlist(&rewritten) {
                    Some(text) => text,
                    None => unreached(),
                };
                assert(texts(uris@) =~= playlist_uris(rewritten));
                Rewrite::Playlist { master, uris, text }
            },
        },
    }
}

/// Rewriting keeps the entries and their order, and each rewritten URI leads
/// back to the entry it was made from: it is the proxy's prefix followed by
/// the `url` parameter, and that parameter percent-decodes to the absolute URL
/// of the entry.
pub proof fn lemma_rewritten_entries(
    state: StateView,
    key: Seq<char>,
    target: Seq<char>,
    uris: Seq<Seq<char>>,
    i: int,
)
    requires
        all_resolvable(target, uris),
        0 <= i < uris.len(),
    ensures
        rewritten_uris(state, key, target, uris).len() == uris.len(),
        ({
            let rewritten = rewritten_uris(state, key, target, uris)[i];
            let prefix = proxy_prefix(state.scheme, state.domain, key);
            let absolute = absolute_child(target, uris[i])->0;
            &&& rewritten == prefix + encoded_text(absolute)
            &&& decode_utf8(percent_decode(encode_utf8(rewritten.skip(prefix.len() as int))))
                == absolute
        }),
{
    let rewritten = rewritten_uris(state, key, target, uris)[i];
    let prefix = proxy_prefix(state.scheme, state.domain, key);
    let absolute = absolute_child(target, uris[i])->0;
    assert(absolute_child(target, uris[i]) is Some);
    assert(rewritten == prefix + encoded_text(absolute));
    assert(rewritten.skip(prefix.len() as int) =~= encoded_text(absolute));
    lemma_encoded_text_decodes(absolute);
}

} // verus!
