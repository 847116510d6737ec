use realtime::fabric::{http_reply, HttpReply};
use realtime::fabric::{Client, Handler, NoHeaders, Provider, Reply, Response, StatusCode};

#[derive(Debug)]
struct Hello(String);

struct Greeter;

#[derive(Debug)]
struct Lang(&'static str);

impl<P: Provider> Handler<P> for Hello {
    type Output = String;
    type Error = String;

    fn handle(self, owner: &str, _provider: &P) -> Result<Response<String>, String> {
        if self.0.is_empty() {
            Err(format!("{owner}: empty"))
        } else {
            Ok(Response::created(format!("{owner} greets {}", self.0)))
        }
    }
}

#[test]
fn status_codes() {
    assert!(StatusCode::from_u16(99).is_none());
    assert!(StatusCode::from_u16(1000).is_none());
    assert_eq!(StatusCode::from_u16(404).unwrap().as_u16(), 404);
    assert!(StatusCode::ok().is_success());
    assert!(StatusCode::from_u16(299).unwrap().is_success());
    assert!(!StatusCode::from_u16(300).unwrap().is_success());
    assert_eq!(StatusCode::internal_server_error().as_u16(), 500);
}

#[test]
fn replies() {
    let r = Reply::ok(1u8);
    assert_eq!(r.status.as_u16(), 200);
    assert!(r.is_success());
    assert_eq!(Reply::created(()).status.as_u16(), 201);
    assert_eq!(Reply::accepted(()).status.as_u16(), 202);
    let r = Reply::ok("x").status(StatusCode::from_u16(503).unwrap());
    assert!(!r.is_success());
    assert_eq!(r.body, "x");
    let r: Reply<&str, NoHeaders> = Reply::ok("y").headers(NoHeaders);
    assert!(r.headers.is_some());
}

#[test]
fn responses() {
    let r = Response::accepted(vec![1]);
    assert_eq!(r.status.as_u16(), 202);
    assert!(r.is_success());
    assert!(r.headers.is_none());
    let r = Response::ok(()).status(StatusCode::from_u16(418).unwrap());
    assert_eq!(r.status.as_u16(), 418);
}

#[test]
fn requests_route_to_their_handler() {
    let client = Client::new("alice".to_string());
    assert_eq!(client.owner(), "alice");
    let client = client.provider(Greeter);
    let response = client.request(Hello("bob".into())).handle().unwrap();
    assert_eq!(response.status.as_u16(), 201);
    assert_eq!(response.body, "alice greets bob");
    let err = client.request(Hello(String::new())).headers(Lang("en")).handle().unwrap_err();
    assert_eq!(err, "alice: empty");
}

impl realtime::fabric::Headers for Lang {}

#[test]
fn bodies_convert_to_ok_envelopes() {
    let r: Reply<u32> = Reply::from(7);
    assert_eq!(r.status.as_u16(), 200);
    assert_eq!(*r, 7);
    let r: Response<&str> = "body".into();
    assert!(r.is_success());
    assert_eq!(r.len(), 4);
}

#[test]
fn replies_as_http_responses() {
    let ok = http_reply(StatusCode::created(), vec![], Ok((b"{}".to_vec(), "application/json".to_string())));
    assert_eq!(
        ok,
        HttpReply {
            status: 201,
            headers: vec![("content-type".to_string(), "application/json".to_string())],
            body: b"{}".to_vec(),
        }
    );
    let set = vec![("content-type".to_string(), "text/csv".to_string()), ("x-id".to_string(), "1".to_string())];
    let kept = http_reply(StatusCode::ok(), set.clone(), Ok((b"a,b".to_vec(), "application/json".to_string())));
    assert_eq!(kept.headers, set);
    let failed = http_reply(StatusCode::ok(), set, Err("cannot encode".to_string()));
    assert_eq!(failed.status, 500);
    assert_eq!(failed.headers, vec![("content-type".to_string(), "text/plain; charset=utf-8".to_string())]);
    assert_eq!(failed.body, b"cannot encode".to_vec());
}
