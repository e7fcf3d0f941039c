//! Album artwork lookup: a release-group identifier is resolved from an
//! artist and an album name, and a cover image address from that identifier.

use vstd::prelude::*;

pub mod artwork;
pub mod catalog;
pub mod error;
pub mod json;
pub mod transport;

pub use crate::artwork::get_album_art;
pub use crate::catalog::get_mbid;
pub use crate::error::ResolveError;
pub use crate::transport::{Reply, Request};

use crate::artwork::{album_art_of_reply, album_art_url};
use crate::catalog::{mbid_of_reply, mbid_url};
use crate::error::resolved;
use crate::json::is_json;
use crate::transport::{accepts, answers};

verus! {

/// The model of what the lookup returns: the image address, if any.
pub open spec fn found(art: Option<String>) -> Option<Seq<char>> {
    match art {
        Some(url) => Some(url@),
        None => None,
    }
}

/// What the lookup makes of the art host's reply: the first image listed, and
/// nothing where the artwork resolver fails.
pub open spec fn art_of_reply(reply: Option<Seq<char>>) -> Option<Seq<char>> {
    match album_art_of_reply(reply) {
        Ok(url) => Some(url),
        Err(_) => None,
    }
}

/// The second stage of the lookup. Where the release group was not resolved
/// there is no image; where it was, the image is what the artwork resolver
/// makes of a reply that `transport` gave for that release group.
pub open spec fn second_stage<F: Fn(&Request) -> Reply>(
    transport: &F,
    mbid: Result<Seq<char>, ResolveError>,
    art: Option<Seq<char>>,
) -> bool {
    match mbid {
        Err(_) => art is None,
        Ok(mbid) => art_from(transport, mbid, art),
    }
}

/// Whether `art` is what the artwork resolver makes of a reply that
/// `transport` gave when asked for the images of release group `mbid`.
pub open spec fn art_from<F: Fn(&Request) -> Reply>(
    transport: &F,
    mbid: Seq<char>,
    art: Option<Seq<char>>,
) -> bool {
    exists|host: Reply| #[trigger]
        answers(transport, album_art_url(mbid), host) && art == art_of_reply(host@)
}

/// What the lookup asks of `transport`: that it take the catalog request,
/// and the art host request for each release group that one of its replies
/// to the catalog request resolves. Of no other request is anything asked:
/// the lookup sends none.
pub open spec fn may_fetch<F: Fn(&Request) -> Reply>(
    transport: &F,
    artist: Seq<char>,
    album: Seq<char>,
) -> bool {
    &&& accepts(transport, mbid_url(artist, album))
    &&& forall|catalog: Reply, mbid: Seq<char>|
        #[trigger] answers(transport, mbid_url(artist, album), catalog) && mbid_of_reply(catalog@)
            == Ok::<Seq<char>, ResolveError>(mbid) ==> #[trigger] accepts(
            transport,
            album_art_url(mbid),
        )
}

/// Looks up the cover image of `album` by `artist`: resolves the release
/// group, then its first image. Whatever fails at either stage, the answer
/// is `None`.
pub fn fetch_album_art<F: Fn(&Request) -> Reply>(artist: &str, album: &str, transport: &F) -> (art:
    Option<String>)
    requires
        may_fetch(transport, artist@, album@),
    ensures
        exists|catalog: Reply| #[trigger]
            answers(transport, mbid_url(artist@, album@), catalog) && second_stage(
                transport,
                mbid_of_reply(catalog@),
                found(art),
            ),
{
    let mbid = get_mbid(artist, album, transport);
    let ghost catalog = choose|reply: Reply| #[trigger]
        answers(transport, mbid_url(artist@, album@), reply) && resolved(mbid) == mbid_of_reply(
            reply@,
        );
    match mbid {
        Ok(mbid) => {
            let art = match get_album_art(mbid.as_str(), transport) {
                Ok(url) => Some(url),
                Err(_) => None,
            };
            assert(art_from(transport, mbid@, found(art)));
            assert(second_stage(transport, mbid_of_reply(catalog@), found(art)));
            art
        },
        Err(_) => {
            assert(second_stage(transport, mbid_of_reply(catalog@), None));
            None
        },
    }
}

/// A body that is not JSON is a decode failure to both resolvers.
pub proof fn lemma_malformed_body_is_decode_failure(body: Seq<char>)
    requires
        !is_json(body),
    ensures
        mbid_of_reply(Some(body)) == Err::<Seq<char>, ResolveError>(ResolveError::Decode),
        album_art_of_reply(Some(body)) == Err::<Seq<char>, ResolveError>(ResolveError::Decode),
{
}

/// Where the release group is not resolved, the art host is not asked. The
/// lookup sends a request only where `transport` takes it, so a transport
/// that takes the catalog request and nothing else may be handed to it,
/// as long as none of its replies resolves a release group.
pub proof fn lemma_unresolved_asks_catalog_only<F: Fn(&Request) -> Reply>(
    transport: &F,
    artist: Seq<char>,
    album: Seq<char>,
)
    requires
        accepts(transport, mbid_url(artist, album)),
        forall|catalog: Reply| #[trigger]
            answers(transport, mbid_url(artist, album), catalog) ==> mbid_of_reply(catalog@) is Err,
    ensures
        may_fetch(transport, artist, album),
{
}

/// Where the release group is not resolved, for whatever reason, the lookup
/// finds nothing.
pub proof fn lemma_unresolved_finds_nothing<F: Fn(&Request) -> Reply>(
    transport: &F,
    failure: ResolveError,
    art: Option<Seq<char>>,
)
    requires
        second_stage(transport, Err(failure), art),
    ensures
        art is None,
{
}

} // verus!
