use bytecodec::{Decode, Encode, Eos, SizedEncode};
use factory::Factory;
use http_handler::handler::{endpoint, HandleRequest, HandlerOptions, Reply};
use http_handler::{DecodingError, Req, Res};
use httpcodec::{
    HttpVersion, Method, NoBodyDecoder, NoBodyEncoder, ReasonPhrase, Request, RequestTarget,
    Response, StatusCode,
};

/// A handler that overrides no hook.
struct Ping;

impl HandleRequest for Ping {
    const METHOD: &'static str = "GET";
    const PATH: &'static str = "/ping";

    type ReqBody = ();
    type ResBody = ();
    type Decoder = NoBodyDecoder;
    type Encoder = NoBodyEncoder;

    fn handle_request(&self, _req: Req<()>) -> Reply<Self> {
        unreachable!()
    }
}

/// A handler that overrides every hook.
struct Upload;

impl HandleRequest for Upload {
    const METHOD: &'static str = "PUT";
    const PATH: &'static str = "/files/*";

    type ReqBody = Vec<u8>;
    type ResBody = String;
    type Decoder = NoBodyDecoder;
    type Encoder = NoBodyEncoder;

    fn handle_request_head(&self, req: &Req<()>) -> Option<Res<String>> {
        if req.request_target().as_str() == "/files/secret" {
            Some(response(403, "Forbidden", String::from("no")))
        } else {
            None
        }
    }

    fn handle_request(&self, _req: Req<Vec<u8>>) -> Reply<Self> {
        unreachable!()
    }

    fn handle_decoding_error(&self, _error: &DecodingError) -> Option<Res<String>> {
        Some(response(400, "Bad Request", String::from("unreadable")))
    }

    fn enable_async_decoding(&self, req: &Req<()>) -> bool {
        req.request_target().as_str() == "/files/large"
    }

    fn enable_async_encoding(&self, res: &Res<String>) -> bool {
        res.body().len() > 4
    }
}

fn head(method: &str, target: &str) -> Req<()> {
    Request::new(
        Method::new(method).unwrap(),
        RequestTarget::new(target).unwrap(),
        HttpVersion::V1_1,
        (),
    )
}

fn response<T>(status: u16, reason: &str, body: T) -> Res<T> {
    Response::new(
        HttpVersion::V1_1,
        StatusCode::new(status).unwrap(),
        ReasonPhrase::new(reason).unwrap(),
        body,
    )
}

fn decoding_error() -> DecodingError {
    DecodingError::from(std::io::Error::new(std::io::ErrorKind::Other, "broken body"))
}

#[test]
fn method_and_path_are_read_from_the_type() {
    assert_eq!(Ping::METHOD, "GET");
    assert_eq!(Ping::PATH, "/ping");
    assert_eq!(Upload::METHOD, "PUT");
    assert_eq!(Upload::PATH, "/files/*");
}

#[test]
fn method_and_path_stay_the_same() {
    let before = (Ping::METHOD, Ping::PATH);
    let handler = Ping;
    let _ = handler.handle_request_head(&head("GET", "/ping"));
    let _ = handler.enable_async_decoding(&head("POST", "/other"));
    assert_eq!((Ping::METHOD, Ping::PATH), before);
}

#[test]
fn endpoint_gives_method_and_path() {
    assert_eq!(endpoint::<Ping>(), ("GET", "/ping"));
    assert_eq!(endpoint::<Upload>(), ("PUT", "/files/*"));
    assert_eq!(endpoint::<Ping>(), endpoint::<Ping>());
}

#[test]
fn default_head_hook_defers() {
    assert!(Ping.handle_request_head(&head("GET", "/ping")).is_none());
    assert!(Ping.handle_request_head(&head("DELETE", "/elsewhere")).is_none());
}

#[test]
fn default_decoding_error_hook_defers() {
    assert!(Ping.handle_decoding_error(&decoding_error()).is_none());
}

#[test]
fn default_async_decoding_is_off() {
    assert!(!Ping.enable_async_decoding(&head("GET", "/ping")));
}

#[test]
fn default_async_encoding_is_off() {
    assert!(!Ping.enable_async_encoding(&response(200, "OK", ())));
}

#[test]
fn overridden_head_hook_decides_by_request() {
    let rejected = Upload.handle_request_head(&head("PUT", "/files/secret")).unwrap();
    assert_eq!(rejected.status_code().as_u16(), 403);
    assert_eq!(rejected.reason_phrase().as_str(), "Forbidden");
    assert_eq!(rejected.body(), "no");
    assert!(Upload.handle_request_head(&head("PUT", "/files/a")).is_none());
}

#[test]
fn overridden_decoding_error_hook_answers() {
    let answer = Upload.handle_decoding_error(&decoding_error()).unwrap();
    assert_eq!(answer.status_code().as_u16(), 400);
    assert_eq!(answer.body(), "unreadable");
}

#[test]
fn overridden_async_flags_decide_by_message() {
    assert!(Upload.enable_async_decoding(&head("PUT", "/files/large")));
    assert!(!Upload.enable_async_decoding(&head("PUT", "/files/small")));
    assert!(Upload.enable_async_encoding(&response(200, "OK", String::from("a long body"))));
    assert!(!Upload.enable_async_encoding(&response(200, "OK", String::from("ok"))));
}

#[test]
fn codecs_of_the_codec_crate_fill_the_slots() {
    let opts = HandlerOptions::<Ping, _, _>::new().default_decoder().default_encoder();
    let _decoder: NoBodyDecoder = opts.create_default_decoder();
    let _encoder: NoBodyEncoder = opts.create_default_encoder();
    let slots = opts.into_factories();
    let mut decoder = slots.decoder.create();
    assert!(decoder.is_idle());
    assert_eq!(decoder.decode(b"ignored", Eos::new(true)).unwrap(), 0);
    assert!(decoder.finish_decoding().is_ok());
    let mut encoder = slots.encoder.create();
    assert!(encoder.start_encoding(()).is_ok());
    assert_eq!(encoder.exact_requiring_bytes(), 0);
}
