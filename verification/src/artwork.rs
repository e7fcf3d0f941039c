//! The artwork resolver: from the identifier of a release group to the
//! address of a cover image at the art host.

use vstd::prelude::*;
use vstd::string::*;
use crate::error::{first_candidate, resolved, ResolveError};
use crate::json::{json_text, texts_named, trees, Json, JsonTree};
use crate::transport::{accepts, answers, Reply, Request, RequestView, USER_AGENT};

verus! {

/// One cover image of a release group.
#[derive(Debug, PartialEq, Eq)]
pub struct CoverImage {
    /// The address of the image.
    pub image: String,
}

impl View for CoverImage {
    type V = Seq<char>;

    open spec fn view(&self) -> Seq<char> {
        self.image@
    }
}

/// The art host's answer for one release group: its cover images, in the
/// host's order.
#[derive(Debug, PartialEq, Eq)]
pub struct CoverArtResponse {
    pub images: Vec<CoverImage>,
}

impl View for CoverArtResponse {
    type V = Seq<Seq<char>>;

    open spec fn view(&self) -> Seq<Seq<char>> {
        Seq::new(self.images@.len(), |i: int| self.images@[i]@)
    }
}

/// The address at which the art host lists the images of release group
/// `mbid`.
pub open spec fn album_art_url(mbid: Seq<char>) -> Seq<char> {
    "https://coverartarchive.org/release-group/"@ + mbid
}

/// The image addresses that an art host document lists: those of the objects
/// under `images`, each of which must hold a string `image`.
pub open spec fn images_in(tree: JsonTree) -> Option<Seq<Seq<char>>> {
    match tree.array_member("images"@) {
        Some(items) => texts_named(items, "image"@),
        None => None,
    }
}

/// What the resolver makes of an art host document.
pub open spec fn album_art_in(tree: JsonTree) -> Result<Seq<char>, ResolveError> {
    match images_in(tree) {
        Some(images) => first_candidate(images),
        None => Err(ResolveError::Decode),
    }
}

/// The image addresses that a response body lists, where it is an art host
/// document.
pub open spec fn decoded_images(body: Seq<char>) -> Option<Seq<Seq<char>>> {
    match json_text(body) {
        Some(tree) => images_in(tree),
        None => None,
    }
}

/// What the resolver makes of the transport's reply: a transport failure
/// where there is no body, a decode failure where the body is no art host
/// document, else the first image address listed.
pub open spec fn album_art_of_reply(reply: Option<Seq<char>>) -> Result<Seq<char>, ResolveError> {
    match reply {
        None => Err(ResolveError::Transport),
        Some(body) => match decoded_images(body) {
            Some(images) => first_candidate(images),
            None => Err(ResolveError::Decode),
        },
    }
}

impl CoverImage {
    /// Decodes one cover image: an object with a string `image`.
    pub fn from_json(json: &Json) -> (decoded: Option<CoverImage>)
        ensures
            match decoded {
                Some(cover) => json@.text_member("image"@) == Some(cover@),
                None => json@.text_member("image"@) is None,
            },
    {
        match json.text_member("image") {
            Some(image) => Some(CoverImage { image: image.clone() }),
            None => None,
        }
    }
}

impl CoverArtResponse {
    /// Decodes an art host document.
    pub fn from_json(json: &Json) -> (decoded: Option<CoverArtResponse>)
        ensures
            match decoded {
                Some(response) => images_in(json@) == Some(response@),
                None => images_in(json@) is None,
            },
    {
        match json.array_member("images") {
            None => None,
            Some(items) => {
                let mut images: Vec<CoverImage> = Vec::new();
                let mut i: usize = 0;
                while i < items.len()
                    invariant
                        i <= items.len(),
                        json@.array_member("images"@) == Some(trees(items@)),
                        images@.len() == i,
                        forall|k: int|
                            0 <= k < i ==> (#[trigger] trees(items@)[k]).text_member("image"@)
                                == Some(images@[k]@),
                    decreases items.len() - i,
                {
                    match CoverImage::from_json(&items[i]) {
                        Some(cover) => {
                            images.push(cover);
                        },
                        None => {
                            assert(trees(items@)[i as int].text_member("image"@) is None);
                            return None;
                        },
                    }
                    i += 1;
                }
                let response = CoverArtResponse { images };
                assert(response@ =~= texts_named(trees(items@), "image"@).unwrap());
                Some(response)
            },
        }
    }

    /// The address of the first image.
    pub fn first_image(&self) -> (url: Result<String, ResolveError>)
        ensures
            resolved(url) == first_candidate(self@),
    {
        if self.images.len() > 0 {
            Ok(self.images[0].image.clone())
        } else {
            Err(ResolveError::NotFound)
        }
    }
}

/// The request that asks the art host for the images of release group
/// `mbid`.
pub fn album_art_request(mbid: &str) -> (request: Request)
    ensures
        request@ == (RequestView { url: album_art_url(mbid@), user_agent: USER_AGENT@ }),
{
    let mut url = String::from_str("https://coverartarchive.org/release-group/");
    url.append(mbid);
    Request::get(url)
}

/// The image address that a decoded art host document yields.
pub fn album_art_from_json(json: &Json) -> (url: Result<String, ResolveError>)
    ensures
        resolved(url) == album_art_in(json@),
{
    match CoverArtResponse::from_json(json) {
        Some(response) => response.first_image(),
        None => Err(ResolveError::Decode),
    }
}

/// The image address that the transport's reply yields.
pub fn album_art_from_reply(reply: &Reply) -> (url: Result<String, ResolveError>)
    ensures
        resolved(url) == album_art_of_reply(reply@),
{
    match reply {
        Reply::Failed => Err(ResolveError::Transport),
        Reply::Body(body) => match Json::parse(body.as_str()) {
            None => Err(ResolveError::Decode),
            Some(json) => album_art_from_json(&json),
        },
    }
}

/// Resolves the address of a cover image of release group `mbid`: sends
/// one request through `transport` and takes the first image of the reply.
pub fn get_album_art<F: Fn(&Request) -> Reply>(mbid: &str, transport: &F) -> (url: Result<
    String,
    ResolveError,
>)
    requires
        accepts(transport, album_art_url(mbid@)),
    ensures
        exists|reply: Reply| #[trigger]
            answers(transport, album_art_url(mbid@), reply) && resolved(url) == album_art_of_reply(
                reply@,
            ),
{
    let request = album_art_request(mbid);
    let reply = transport(&request);
    assert(answers(transport, album_art_url(mbid@), reply));
    album_art_from_reply(&reply)
}

/// Where the art host lists at least one image, the resolver yields the
/// address of the first, however many follow and whatever they are.
pub proof fn lemma_first_image_is_chosen(body: Seq<char>, images: Seq<Seq<char>>)
    requires
        decoded_images(body) == Some(images),
        images.len() > 0,
    ensures
        album_art_of_reply(Some(body)) == Ok::<Seq<char>, ResolveError>(images[0]),
{
}

/// Where the art host lists no image, the resolver reports that none was
/// found: neither a transport nor a decode failure.
pub proof fn lemma_no_image_is_not_found(body: Seq<char>)
    requires
        decoded_images(body) == Some(Seq::<Seq<char>>::empty()),
    ensures
        album_art_of_reply(Some(body)) == Err::<Seq<char>, ResolveError>(ResolveError::NotFound),
{
}

/// A body that is no art host document is a decode failure, whether it is
/// not JSON or JSON of another shape.
pub proof fn lemma_undecodable_art_body(body: Seq<char>)
    requires
        decoded_images(body) is None,
    ensures
        album_art_of_reply(Some(body)) == Err::<Seq<char>, ResolveError>(ResolveError::Decode),
{
}

} // verus!
