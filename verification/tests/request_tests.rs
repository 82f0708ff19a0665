use wew::request::{
    get_mime_type, mime_field_bytes, response_or_not_found, CustomRequestHandlerFactory,
    CustomSchemeAttributes, Request, RequestHandler, RequestHandlerFactory,
    RequestHandlerWithLocalDisk, Response,
};

#[test]
fn local_disk_paths_map_under_the_root() {
    let factory = RequestHandlerWithLocalDisk::new("/assets");

    // The scheme and host are dropped; the path lands under the root.
    assert_eq!(
        factory.resolve_path("webview://localhost/index.css"),
        Some("/assets/index.css".to_string())
    );
    assert_eq!(
        factory.resolve_path("http://localhost/images/a.jpg"),
        Some("/assets/images/a.jpg".to_string())
    );

    // An empty URL serves the default page.
    assert_eq!(factory.resolve_path(""), Some("/assets/index.html".to_string()));

    // A host without a path serves the root itself.
    assert_eq!(
        factory.resolve_path("webview://localhost"),
        Some("/assets/".to_string())
    );

    // What does not parse as an absolute URL is not handled. This would fail
    // if URL parsing handed its input back unchanged.
    assert_eq!(factory.resolve_path("not a url"), None);
}

#[test]
fn mime_types_come_from_the_extension() {
    // These would fail if the MIME lookup handed the extension back.
    assert_eq!(get_mime_type("site/index.html"), Some("text/html".to_string()));
    assert_eq!(get_mime_type("a/b/styles.css"), Some("text/css".to_string()));
    assert_eq!(get_mime_type("images/photo.jpg"), Some("image/jpeg".to_string()));

    // Trailing slashes belong to no component: the last component decides.
    assert_eq!(get_mime_type("notes.txt/"), Some("text/plain".to_string()));
    assert_eq!(get_mime_type("a/b.html//"), Some("text/html".to_string()));

    // No extension, hidden files, and unknown extensions give nothing.
    assert_eq!(get_mime_type("README"), None);
    assert_eq!(get_mime_type("dir.d/README"), None);
    assert_eq!(get_mime_type(".bashrc"), None);
    assert_eq!(get_mime_type("dir/.hidden/"), None);
    assert_eq!(get_mime_type("data.zzzzzz"), None);
}

#[test]
fn missing_responses_become_plain_not_found() {
    let served = Response {
        status_code: 200,
        content_length: 5,
        mime_type: "text/html".to_string(),
    };
    assert_eq!(response_or_not_found(Some(served.clone())), served);

    let fallback = response_or_not_found(None);
    assert_eq!(fallback.status_code, 404);
    assert_eq!(fallback.content_length, 0);
    assert_eq!(fallback.mime_type, "text/plain");
}

#[test]
fn mime_field_is_truncated_and_nul_terminated() {
    let short = mime_field_bytes("text/html");
    assert_eq!(short.len(), 10);
    assert_eq!(&short[..9], b"text/html");
    assert_eq!(short[9], 0);

    let long_text: String = std::iter::repeat('a').take(300).collect();
    let long = mime_field_bytes(&long_text);
    assert_eq!(long.len(), 255);
    assert!(long[..254].iter().all(|&b| b == b'a'));
    assert_eq!(long[254], 0);
}

struct EchoHandler {
    path: String,
    open_calls: u32,
}

impl RequestHandler for EchoHandler {
    fn open(&mut self) -> bool {
        self.open_calls += 1;
        true
    }

    fn get_response(&mut self) -> Option<Response> {
        Some(Response {
            status_code: 200,
            content_length: self.path.len() as u64,
            mime_type: "text/plain".to_string(),
        })
    }

    fn skip(&mut self, size: usize) -> Option<usize> {
        Some(size)
    }

    fn read(&mut self, size: usize, buffer: &mut Vec<u8>) -> Option<usize> {
        let bytes = self.path.as_bytes();
        let n = bytes.len().min(size);
        buffer.extend_from_slice(&bytes[..n]);
        Some(n)
    }

    fn cancel(&mut self) {}
}

struct EchoFactory;

impl RequestHandlerFactory for EchoFactory {
    fn request(&self, request: &Request) -> Option<Box<dyn RequestHandler>> {
        if request.method == "GET" {
            Some(Box::new(EchoHandler { path: request.url.clone(), open_calls: 0 }))
        } else {
            None
        }
    }
}

#[test]
fn handlers_read_within_the_requested_budget() {
    let factory = EchoFactory;
    let request = Request {
        url: "0123456789".to_string(),
        method: "GET".to_string(),
        referrer: String::new(),
    };
    let mut handler = factory.request(&request).expect("handled");

    // A small budget yields exactly that many bytes; the next call may
    // continue, and nothing was silently discarded in between.
    let mut buffer = Vec::new();
    assert_eq!(handler.read(4, &mut buffer), Some(4));
    assert_eq!(buffer, b"0123");

    let mut rest = Vec::new();
    assert_eq!(handler.read(100, &mut rest), Some(10));
    assert_eq!(rest, b"0123456789");
}

#[test]
fn one_factory_serves_scheme_and_interception_alike() {
    // The factory is reference-counted: one handler can be registered for a
    // runtime's custom scheme and for a webview's request interception.
    let factory = CustomRequestHandlerFactory::new(EchoFactory);
    let for_webview = factory.clone();
    let scheme = CustomSchemeAttributes::new("webview", "localhost", factory);

    let request = Request {
        url: "webview://localhost/a".to_string(),
        method: "GET".to_string(),
        referrer: String::new(),
    };
    assert!(scheme.handler.request(&request).is_some());
    assert!(for_webview.request(&request).is_some());
}

#[test]
fn custom_scheme_routes_requests_through_the_factory() {
    let factory = CustomRequestHandlerFactory::new(EchoFactory);
    let scheme = CustomSchemeAttributes::new("webview", "localhost", factory);
    assert_eq!(scheme.name, "webview");
    assert_eq!(scheme.domain, "localhost");

    let request = Request {
        url: "webview://localhost/a".to_string(),
        method: "GET".to_string(),
        referrer: String::new(),
    };
    let mut handler = scheme.handler.request(&request).expect("handled");
    assert!(handler.open());
    let response = handler.get_response().unwrap();
    assert_eq!(response.status_code, 200);
    assert_eq!(response.content_length, request.url.len() as u64);

    let post = Request {
        url: "webview://localhost/a".to_string(),
        method: "POST".to_string(),
        referrer: String::new(),
    };
    assert!(scheme.handler.request(&post).is_none());
}
