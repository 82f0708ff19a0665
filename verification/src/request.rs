//! Custom URL-scheme interception: requests for a registered scheme are served
//! by host-provided handlers instead of the engine's network stack.

use vstd::prelude::*;

use vstd::string::StrSliceExecFns;
use vstd::string::StringSliceAdditionalSpecFns;

use crate::utils::has_nul;

verus! {

/// The path component that URL parsing yields for a string: `None` when the
/// string does not parse as an absolute URL, the parsed URL's path otherwise.
pub uninterp spec fn parsed_url_path(s: Seq<char>) -> Option<Seq<char>>;

/// Relies on url::Url::parse and url::Url::path: parsing either fails or
/// yields a URL whose path component is a function of the input alone.
#[verifier::external_body]
fn url_path(url: &str) -> (r: Option<String>)
    ensures
        (r is Some) == (parsed_url_path(url@) is Some),
        r matches Some(p) ==> parsed_url_path(url@) == Some(p@),
{
    url::Url::parse(url).ok().map(|u| u.path().to_string())
}

/// The first MIME type guessed for a file extension: `None` when the
/// extension has no known mapping.
pub uninterp spec fn mime_for_ext(ext: Seq<char>) -> Option<Seq<char>>;

/// Relies on mime_guess::from_ext and MimeGuess::first: the guess is a
/// static-table lookup, a function of the extension alone, and an empty
/// extension yields an empty guess.
#[verifier::external_body]
fn mime_from_ext(ext: &str) -> (r: Option<String>)
    ensures
        (r is Some) == (mime_for_ext(ext@) is Some),
        r matches Some(m) ==> mime_for_ext(ext@) == Some(m@),
        ext@.len() == 0 ==> r is None,
{
    mime_guess::from_ext(ext).first().map(|m| m.to_string())
}

/// Request information handed to a request-handler factory.
#[derive(Debug, Clone)]
pub struct Request {
    /// Request URL.
    pub url: String,
    /// Request method.
    pub method: String,
    /// Request referrer.
    pub referrer: String,
}

/// Response information a request handler produces.
#[derive(Debug, Clone, PartialEq, Eq)]
pub struct Response {
    /// Response status code.
    pub status_code: u32,
    /// Response content length.
    pub content_length: u64,
    /// Response MIME type.
    pub mime_type: String,
}

/// Request handler: opens a resource and serves its bytes to the engine.
/// Implemented by the host; the engine calls `open` first, then
/// `get_response`, and then `skip`/`read` until the response is exhausted or
/// `cancel` ends the request.
pub trait RequestHandler {
    /// Open the request; `false` means opening failed.
    fn open(&mut self) -> bool;

    /// The response head, or `None` when it cannot be produced.
    fn get_response(&mut self) -> Option<Response>;

    /// Skip `size` bytes of response content; the result is the number of
    /// bytes actually skipped, or `None` on failure.
    fn skip(&mut self, size: usize) -> Option<usize>;

    /// Read at most `size` bytes of response content — the engine accepts no
    /// more for this call — appending them to `buffer`; the result is the
    /// number of bytes read, or `None` on failure.
    fn read(&mut self, size: usize, buffer: &mut Vec<u8>) -> Option<usize>;

    /// Cancel the request.
    fn cancel(&mut self);
}

/// Custom scheme handler factory: decides per request whether the host serves
/// it, and with which handler.
pub trait RequestHandlerFactory {
    /// Produce a handler for the request, or `None` to leave it unhandled.
    fn request(&self, request: &Request) -> Option<Box<dyn RequestHandler>>;
}

/// Custom scheme handler: the type-erased, reference-counted factory the
/// runtime keeps alive while the engine may still route requests to it.
/// Clones share one factory, so the same handler can serve a runtime's custom
/// scheme and a webview's request interception at once.
#[derive(Clone)]
pub struct CustomRequestHandlerFactory {
    factory: std::sync::Arc<Box<dyn RequestHandlerFactory>>,
}

impl CustomRequestHandlerFactory {
    /// Wrap a host-provided factory for registration with the runtime.
    pub fn new<T: RequestHandlerFactory + 'static>(handler: T) -> Self {
        CustomRequestHandlerFactory { factory: std::sync::Arc::new(Box::new(handler)) }
    }

    /// Hand a request to the wrapped factory.
    pub fn request(&self, request: &Request) -> Option<Box<dyn RequestHandler>> {
        self.factory.request(request)
    }
}

/// The index just past the last character of a path's last component:
/// trailing slashes belong to no component, so they are stepped over.
pub open spec fn content_end(s: Seq<char>) -> int
    decreases s.len(),
{
    if s.len() == 0 {
        0
    } else if s[s.len() - 1] == '/' {
        content_end(s.drop_last())
    } else {
        s.len() as int
    }
}

/// Any index with only slashes after it, and none just before it, is the
/// content end.
proof fn lemma_content_end_unique(s: Seq<char>, e: int)
    requires
        0 <= e <= s.len(),
        forall|j: int| e <= j < s.len() ==> s[j] == '/',
        e > 0 ==> s[e - 1] != '/',
    ensures
        content_end(s) == e,
    decreases s.len(),
{
    if s.len() == 0 {
    } else if s[s.len() - 1] == '/' {
        assert(e < s.len());
        assert(forall|j: int| 0 <= j < s.len() - 1 ==> s.drop_last()[j] == s[j]);
        lemma_content_end_unique(s.drop_last(), e);
    } else {
        assert(e == s.len());
    }
}

/// The position of the dot that starts the extension of a path: the last dot
/// of the last component, not at the component's start. Trailing slashes are
/// ignored, so `a.txt/` still names the extension of `a.txt`.
pub open spec fn is_extension_dot(s: Seq<char>, i: int) -> bool {
    &&& 0 < i < content_end(s)
    &&& s[i] == '.'
    &&& s[i - 1] != '/'
    &&& forall|j: int| i < j < content_end(s) ==> s[j] != '.' && s[j] != '/'
}

/// The extension of a path: what follows the last dot of the last component,
/// or `None` when that component has no dot past its start.
pub open spec fn extension_of(s: Seq<char>) -> Option<Seq<char>> {
    if exists|i: int| is_extension_dot(s, i) {
        Some(s.subrange((choose|i: int| is_extension_dot(s, i)) + 1, content_end(s)))
    } else {
        None
    }
}

/// Find the extension of a path, scanning the last component from its end.
fn find_extension(path: &str) -> (r: Option<String>)
    ensures
        (r is Some) == (extension_of(path@) is Some),
        r matches Some(e) ==> extension_of(path@) == Some(e@),
{
    let n: usize = path.unicode_len();
    let mut end: usize = n;
    while end > 0 && path.get_char(end - 1) == '/'
        invariant
            n == path@.len(),
            0 <= end <= n,
            forall|j: int| end <= j < n ==> path@[j] == '/',
        decreases end,
    {
        end = end - 1;
    }
    proof {
        lemma_content_end_unique(path@, end as int);
    }
    let mut i: usize = end;
    while i > 0
        invariant
            n == path@.len(),
            end == content_end(path@),
            0 <= i <= end <= n,
            forall|j: int| i <= j < end ==> path@[j] != '.' && path@[j] != '/',
        decreases i,
    {
        i = i - 1;
        let c = path.get_char(i);
        if c == '/' {
            proof {
                assert forall|k: int| !is_extension_dot(path@, k) by {
                    if is_extension_dot(path@, k) {
                        if k < i {
                            assert(path@[i as int] == '/');
                        } else if k == i {
                            assert(path@[k] == '.');
                        } else {
                            assert(path@[k] != '.');
                        }
                    }
                }
            }
            return None;
        }
        if c == '.' {
            if i > 0 && path.get_char(i - 1) != '/' {
                proof {
                    assert(is_extension_dot(path@, i as int));
                    assert forall|k: int| is_extension_dot(path@, k) implies k == i as int by {
                        if k > i {
                            assert(path@[k] != '.');
                        } else if k < i {
                            assert(path@[i as int] == '.');
                        }
                    }
                    let w = choose|k: int| is_extension_dot(path@, k);
                    assert(w == i as int);
                }
                return Some(path.substring_char(i + 1, end).to_owned());
            } else {
                proof {
                    assert forall|k: int| !is_extension_dot(path@, k) by {
                        if is_extension_dot(path@, k) {
                            if k < i {
                                assert(path@[i as int] == '.');
                            } else if k > i {
                                assert(path@[k] != '.');
                            }
                        }
                    }
                }
                return None;
            }
        }
    }
    proof {
        assert forall|k: int| !is_extension_dot(path@, k) by {
            if is_extension_dot(path@, k) {
                assert(path@[k] != '.');
            }
        }
    }
    None
}

/// Guess the MIME type of a path from its extension: `None` when the path has
/// no extension or the extension has no known mapping.
pub fn get_mime_type(path: &str) -> (r: Option<String>)
    ensures
        extension_of(path@) is None ==> r is None,
        extension_of(path@) matches Some(e) ==> ((r is Some) == (mime_for_ext(e) is Some) && (
        r matches Some(m) ==> mime_for_ext(e) == Some(m@))),
{
    match find_extension(path) {
        Some(e) => mime_from_ext(e.as_str()),
        None => None,
    }
}

/// The response actually served when a handler produces none: plain-text
/// not-found with no content.
pub fn response_or_not_found(r: Option<Response>) -> (res: Response)
    ensures
        r matches Some(x) ==> res == x,
        r is None ==> res.status_code == 404 && res.content_length == 0 && res.mime_type@
            == "text/plain"@,
{
    match r {
        Some(x) => x,
        None => Response {
            status_code: 404,
            content_length: 0,
            mime_type: "text/plain".to_owned(),
        },
    }
}

/// The bytes written into the engine's fixed-size MIME field: the first 254
/// bytes of the text, NUL-terminated.
pub open spec fn mime_field_spec(bytes: Seq<u8>) -> Seq<u8> {
    (if bytes.len() > 254 {
        bytes.subrange(0, 254)
    } else {
        bytes
    }) + seq![0u8]
}

/// Lay the MIME text out for the engine's fixed-size response field.
pub fn mime_field_bytes(mime: &str) -> (r: Vec<u8>)
    ensures
        r@ == mime_field_spec(mime.spec_bytes()),
{
    let mut v = mime.as_bytes_vec();
    v.truncate(254);
    v.push(0);
    proof {
        assert(v@ =~= mime_field_spec(mime.spec_bytes()));
    }
    v
}

/// The URL a local-disk request resolves against when the request names none.
pub open spec fn default_local_url() -> Seq<char> {
    "http://localhost/index.html"@
}

/// A path with its single leading slash removed.
pub open spec fn stripped_path(p: Seq<char>) -> Seq<char> {
    if p.len() > 0 && p[0] == '/' {
        p.subrange(1, p.len() as int)
    } else {
        p
    }
}

/// The file a local-disk handler serves for a request URL: the URL's path
/// (scheme and host dropped, leading slash removed) under the root directory,
/// or `None` when the URL does not parse.
pub open spec fn resolved_target(root: Seq<char>, url: Seq<char>) -> Option<Seq<char>> {
    let effective = if url.len() == 0 {
        default_local_url()
    } else {
        url
    };
    match parsed_url_path(effective) {
        Some(p) => Some(root + "/"@ + stripped_path(p)),
        None => None,
    }
}

/// A request handler factory that maps requests onto the local file system:
/// the URL's path, relative to a root directory, names the file served. The
/// scheme and host are always dropped, so the same factory works for custom
/// schemes and for request interception alike.
pub struct RequestHandlerWithLocalDisk {
    /// The directory the served files live under.
    pub root_dir: String,
}

impl RequestHandlerWithLocalDisk {
    /// Create a local-disk request handler factory serving files under the
    /// given root directory.
    pub fn new(root_dir: &str) -> (r: Self)
        ensures
            r.root_dir@ == root_dir@,
    {
        RequestHandlerWithLocalDisk { root_dir: root_dir.to_owned() }
    }

    /// The file this factory serves for a request URL: an empty URL falls
    /// back to the default page, the URL's path loses its leading slash and
    /// lands under the root directory; an unparseable URL is not handled.
    pub fn resolve_path(&self, url: &str) -> (r: Option<String>)
        ensures
            (r is Some) == (resolved_target(self.root_dir@, url@) is Some),
            r matches Some(p) ==> resolved_target(self.root_dir@, url@) == Some(p@),
    {
        let effective: &str = if url.unicode_len() == 0 {
            "http://localhost/index.html"
        } else {
            url
        };
        let p = match url_path(effective) {
            Some(p) => p,
            None => {
                return None;
            },
        };
        let plen: usize = p.as_str().unicode_len();
        let rel: &str = if plen > 0 && p.as_str().get_char(0) == '/' {
            p.as_str().substring_char(1, plen)
        } else {
            p.as_str()
        };
        let mut out = self.root_dir.clone();
        out.append("/");
        out.append(rel);
        Some(out)
    }
}

/// Custom scheme attributes: the scheme name, the domain it serves, and the
/// factory that handles its requests.
pub struct CustomSchemeAttributes {
    pub name: String,
    pub domain: String,
    pub handler: CustomRequestHandlerFactory,
}

impl CustomSchemeAttributes {
    /// Create custom scheme attributes. The name and domain cross the
    /// engine's C string boundary, so they must hold no embedded NUL.
    pub fn new(name: &str, domain: &str, handler: CustomRequestHandlerFactory) -> (r: Self)
        requires
            !has_nul(name@),
            !has_nul(domain@),
        ensures
            r.name@ == name@,
            r.domain@ == domain@,
    {
        CustomSchemeAttributes {
            name: name.to_owned(),
            domain: domain.to_owned(),
            handler,
        }
    }
}

} // verus!
