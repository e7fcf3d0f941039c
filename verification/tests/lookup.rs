use album_art::artwork::album_art_request;
use album_art::catalog::mbid_request;
use album_art::{fetch_album_art, Reply, Request};
use std::cell::RefCell;

const CATALOG_HOST: &str = "https://musicbrainz.org/";
const ART_HOST: &str = "https://coverartarchive.org/";

/// A transport that answers from two canned replies and records what it was
/// asked.
struct Double {
    catalog: Option<&'static str>,
    art: Option<&'static str>,
    asked: RefCell<Vec<Request>>,
}

impl Double {
    fn new(catalog: Option<&'static str>, art: Option<&'static str>) -> Double {
        Double { catalog, art, asked: RefCell::new(Vec::new()) }
    }

    fn send(&self, request: &Request) -> Reply {
        self.asked
            .borrow_mut()
            .push(Request { url: request.url.clone(), user_agent: request.user_agent.clone() });
        let canned = if request.url.starts_with(CATALOG_HOST) {
            self.catalog
        } else if request.url.starts_with(ART_HOST) {
            self.art
        } else {
            panic!("unexpected request: {}", request.url)
        };
        match canned {
            Some(text) => Reply::Body(String::from(text)),
            None => Reply::Failed,
        }
    }

    fn calls_to(&self, host: &str) -> usize {
        self.asked.borrow().iter().filter(|request| request.url.starts_with(host)).count()
    }

    fn fetch(&self, artist: &str, album: &str) -> Option<String> {
        fetch_album_art(artist, album, &|request: &Request| self.send(request))
    }
}

#[test]
fn lookup_finds_the_first_image_of_the_first_release_group() {
    let double = Double::new(
        Some("{\"release-groups\":[{\"id\":\"abc-123\"}]}"),
        Some("{\"images\":[{\"image\":\"http://example.org/art.jpg\"}]}"),
    );
    assert_eq!(
        double.fetch("Radiohead", "OK Computer"),
        Some(String::from("http://example.org/art.jpg"))
    );
    assert_eq!(
        *double.asked.borrow(),
        vec![mbid_request("Radiohead", "OK Computer"), album_art_request("abc-123")]
    );
}

#[test]
fn lookup_with_several_candidates_uses_the_first_of_each() {
    let double = Double::new(
        Some("{\"release-groups\":[{\"id\":\"first\"},{\"id\":\"second\"}]}"),
        Some("{\"images\":[{\"image\":\"http://example.org/1.jpg\"},{\"image\":\"http://example.org/2.jpg\"}]}"),
    );
    assert_eq!(double.fetch("a", "b"), Some(String::from("http://example.org/1.jpg")));
    assert_eq!(*double.asked.borrow(), vec![mbid_request("a", "b"), album_art_request("first")]);
}

#[test]
fn lookup_without_release_group_never_asks_the_art_host() {
    let double = Double::new(
        Some("{\"release-groups\":[]}"),
        Some("{\"images\":[{\"image\":\"http://example.org/art.jpg\"}]}"),
    );
    assert_eq!(double.fetch("Radiohead", "OK Computer"), None);
    assert_eq!(double.calls_to(CATALOG_HOST), 1);
    assert_eq!(double.calls_to(ART_HOST), 0);
}

#[test]
fn lookup_without_image_finds_nothing() {
    let double = Double::new(
        Some("{\"release-groups\":[{\"id\":\"abc-123\"}]}"),
        Some("{\"images\":[]}"),
    );
    assert_eq!(double.fetch("Radiohead", "OK Computer"), None);
    assert_eq!(double.calls_to(CATALOG_HOST), 1);
    assert_eq!(double.calls_to(ART_HOST), 1);
}

#[test]
fn lookup_with_the_catalog_unreachable_finds_nothing() {
    let double = Double::new(None, Some("{\"images\":[{\"image\":\"http://example.org/art.jpg\"}]}"));
    assert_eq!(double.fetch("Radiohead", "OK Computer"), None);
    assert_eq!(double.calls_to(CATALOG_HOST), 1);
    assert_eq!(double.calls_to(ART_HOST), 0);
}

#[test]
fn lookup_with_a_malformed_catalog_body_never_asks_the_art_host() {
    for catalog in ["", "<html>Bad Gateway</html>", "{\"release-groups\":", "{\"release-groups\":[{\"title\":\"x\"}]}"] {
        let double = Double::new(Some(catalog), Some("{\"images\":[{\"image\":\"http://example.org/art.jpg\"}]}"));
        assert_eq!(double.fetch("Radiohead", "OK Computer"), None, "{}", catalog);
        assert_eq!(double.calls_to(CATALOG_HOST), 1, "{}", catalog);
        assert_eq!(double.calls_to(ART_HOST), 0, "{}", catalog);
    }
}

#[test]
fn lookup_with_the_art_host_unreachable_finds_nothing() {
    let double = Double::new(Some("{\"release-groups\":[{\"id\":\"abc-123\"}]}"), None);
    assert_eq!(double.fetch("Radiohead", "OK Computer"), None);
    assert_eq!(double.calls_to(ART_HOST), 1);
}

#[test]
fn lookup_with_a_malformed_art_body_finds_nothing() {
    let double = Double::new(Some("{\"release-groups\":[{\"id\":\"abc-123\"}]}"), Some("Not Found"));
    assert_eq!(double.fetch("Radiohead", "OK Computer"), None);
    assert_eq!(double.calls_to(ART_HOST), 1);
}

#[test]
fn lookup_may_be_repeated() {
    let double = Double::new(
        Some("{\"release-groups\":[{\"id\":\"abc-123\"}]}"),
        Some("{\"images\":[{\"image\":\"http://example.org/art.jpg\"}]}"),
    );
    assert_eq!(double.fetch("a", "b"), double.fetch("a", "b"));
    assert_eq!(double.calls_to(CATALOG_HOST), 2);
    assert_eq!(double.calls_to(ART_HOST), 2);
}
