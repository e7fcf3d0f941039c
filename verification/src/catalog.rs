//! The MBID resolver: from an artist and an album name to the identifier of
//! a release group in the metadata catalog.

use vstd::prelude::*;
use vstd::string::*;
use crate::error::{first_candidate, resolved, ResolveError};
use crate::json::{json_text, texts_named, trees, Json, JsonTree};
use crate::transport::{accepts, answers, Reply, Request, RequestView, USER_AGENT};

verus! {

/// One release group of the catalog.
#[derive(Debug, PartialEq, Eq)]
pub struct ReleaseGroup {
    /// The identifier of the release group.
    pub id: String,
}

impl View for ReleaseGroup {
    type V = Seq<char>;

    open spec fn view(&self) -> Seq<char> {
        self.id@
    }
}

/// The catalog's answer to a search: release groups, in the catalog's order.
#[derive(Debug, PartialEq, Eq)]
pub struct MusicBrainzResponse {
    pub release_groups: Vec<ReleaseGroup>,
}

impl View for MusicBrainzResponse {
    type V = Seq<Seq<char>>;

    open spec fn view(&self) -> Seq<Seq<char>> {
        Seq::new(self.release_groups@.len(), |i: int| self.release_groups@[i]@)
    }
}

/// The address of the catalog search for `artist` and `album`. Neither is
/// escaped.
pub open spec fn mbid_url(artist: Seq<char>, album: Seq<char>) -> Seq<char> {
    "https://musicbrainz.org/ws/2/release-group/?query=artist:"@ + artist + " AND release:"@
        + album + "&fmt=json"@
}

/// The identifiers that a catalog document lists: those of the objects under
/// `release-groups`, each of which must hold a string `id`.
pub open spec fn release_groups_in(tree: JsonTree) -> Option<Seq<Seq<char>>> {
    match tree.array_member("release-groups"@) {
        Some(items) => texts_named(items, "id"@),
        None => None,
    }
}

/// What the resolver makes of a catalog document.
pub open spec fn mbid_in(tree: JsonTree) -> Result<Seq<char>, ResolveError> {
    match release_groups_in(tree) {
        Some(ids) => first_candidate(ids),
        None => Err(ResolveError::Decode),
    }
}

/// The identifiers that a response body lists, where it is a catalog
/// document.
pub open spec fn decoded_release_groups(body: Seq<char>) -> Option<Seq<Seq<char>>> {
    match json_text(body) {
        Some(tree) => release_groups_in(tree),
        None => None,
    }
}

/// What the resolver makes of the transport's reply: a transport failure
/// where there is no body, a decode failure where the body is no catalog
/// document, else the first identifier listed.
pub open spec fn mbid_of_reply(reply: Option<Seq<char>>) -> Result<Seq<char>, ResolveError> {
    match reply {
        None => Err(ResolveError::Transport),
        Some(body) => match decoded_release_groups(body) {
            Some(ids) => first_candidate(ids),
            None => Err(ResolveError::Decode),
        },
    }
}

impl ReleaseGroup {
    /// Decodes one release group: an object with a string `id`.
    pub fn from_json(json: &Json) -> (decoded: Option<ReleaseGroup>)
        ensures
            match decoded {
                Some(group) => json@.text_member("id"@) == Some(group@),
                None => json@.text_member("id"@) is None,
            },
    {
        match json.text_member("id") {
            Some(id) => Some(ReleaseGroup { id: id.clone() }),
            None => None,
        }
    }
}

impl MusicBrainzResponse {
    /// Decodes a catalog document.
    pub fn from_json(json: &Json) -> (decoded: Option<MusicBrainzResponse>)
        ensures
            match decoded {
                Some(response) => release_groups_in(json@) == Some(response@),
                None => release_groups_in(json@) is None,
            },
    {
        match json.array_member("release-groups") {
            None => None,
            Some(items) => {
                let mut release_groups: Vec<ReleaseGroup> = Vec::new();
                let mut i: usize = 0;
                while i < items.len()
                    invariant
                        i <= items.len(),
                        json@.array_member("release-groups"@) == Some(trees(items@)),
                        release_groups@.len() == i,
                        forall|k: int|
                            0 <= k < i ==> (#[trigger] trees(items@)[k]).text_member("id"@)
                                == Some(release_groups@[k]@),
                    decreases items.len() - i,
                {
                    match ReleaseGroup::from_json(&items[i]) {
                        Some(group) => {
                            release_groups.push(group);
                        },
                        None => {
                            assert(trees(items@)[i as int].text_member("id"@) is None);
                            return None;
                        },
                    }
                    i += 1;
                }
                let response = MusicBrainzResponse { release_groups };
                assert(response@ =~= texts_named(trees(items@), "id"@).unwrap());
                Some(response)
            },
        }
    }

    /// The identifier of the first release group.
    pub fn first_mbid(&self) -> (mbid: Result<String, ResolveError>)
        ensures
            resolved(mbid) == first_candidate(self@),
    {
        if self.release_groups.len() > 0 {
            Ok(self.release_groups[0].id.clone())
        } else {
            Err(ResolveError::NotFound)
        }
    }
}

/// The request that asks the catalog for the release groups of `album` by
/// `artist`.
pub fn mbid_request(artist: &str, album: &str) -> (request: Request)
    ensures
        request@ == (RequestView { url: mbid_url(artist@, album@), user_agent: USER_AGENT@ }),
{
    let mut url = String::from_str("https://musicbrainz.org/ws/2/release-group/?query=artist:");
    url.append(artist);
    url.append(" AND release:");
    url.append(album);
    url.append("&fmt=json");
    Request::get(url)
}

/// The identifier that a decoded catalog document yields.
pub fn mbid_from_json(json: &Json) -> (mbid: Result<String, ResolveError>)
    ensures
        resolved(mbid) == mbid_in(json@),
{
    match MusicBrainzResponse::from_json(json) {
        Some(response) => response.first_mbid(),
        None => Err(ResolveError::Decode),
    }
}

/// The identifier that the transport's reply yields.
pub fn mbid_from_reply(reply: &Reply) -> (mbid: Result<String, ResolveError>)
    ensures
        resolved(mbid) == mbid_of_reply(reply@),
{
    match reply {
        Reply::Failed => Err(ResolveError::Transport),
        Reply::Body(body) => match Json::parse(body.as_str()) {
            None => Err(ResolveError::Decode),
            Some(json) => mbid_from_json(&json),
        },
    }
}

/// Resolves the identifier of the release group of `album` by `artist`:
/// sends one request through `transport` and takes the first release group
/// of the reply.
pub fn get_mbid<F: Fn(&Request) -> Reply>(artist: &str, album: &str, transport: &F) -> (mbid:
    Result<String, ResolveError>)
    requires
        accepts(transport, mbid_url(artist@, album@)),
    ensures
        exists|reply: Reply| #[trigger]
            answers(transport, mbid_url(artist@, album@), reply) && resolved(mbid)
                == mbid_of_reply(reply@),
{
    let request = mbid_request(artist, album);
    let reply = transport(&request);
    assert(answers(transport, mbid_url(artist@, album@), reply));
    mbid_from_reply(&reply)
}

/// Where the catalog lists at least one release group, the resolver yields
/// the identifier of the first, however many follow and whatever they are.
pub proof fn lemma_first_release_group_is_chosen(body: Seq<char>, ids: Seq<Seq<char>>)
    requires
        decoded_release_groups(body) == Some(ids),
        ids.len() > 0,
    ensures
        mbid_of_reply(Some(body)) == Ok::<Seq<char>, ResolveError>(ids[0]),
{
}

/// Where the catalog lists no release group, the resolver reports that none
/// was found: neither a transport nor a decode failure.
pub proof fn lemma_no_release_group_is_not_found(body: Seq<char>)
    requires
        decoded_release_groups(body) == Some(Seq::<Seq<char>>::empty()),
    ensures
        mbid_of_reply(Some(body)) == Err::<Seq<char>, ResolveError>(ResolveError::NotFound),
{
}

/// A body that is no catalog document is a decode failure, whether it is
/// not JSON or JSON of another shape.
pub proof fn lemma_undecodable_catalog_body(body: Seq<char>)
    requires
        decoded_release_groups(body) is None,
    ensures
        mbid_of_reply(Some(body)) == Err::<Seq<char>, ResolveError>(ResolveError::Decode),
{
}

} // verus!
