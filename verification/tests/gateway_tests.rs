//! The gateway's total dispatch: a response for every request, failures
//! already turned into protocol statuses, and routing of every target under
//! the root.

use oss_gateway::gateway::{routes, FsRequest, GatewayConfig, WebdavService};
use oss_gateway::operator::Operator;

fn service() -> WebdavService {
    let cfg = GatewayConfig { addr: String::from("127.0.0.1:8080") };
    WebdavService::new(cfg, Operator::new())
}

#[test]
fn every_path_under_the_root_is_routed() {
    assert!(routes(&String::from("/")));
    assert!(routes(&String::from("/any/depth/of/suffix")));
    assert!(routes(&String::from("/x?q=1")));
    assert!(!routes(&String::from("")));
    assert!(!routes(&String::from("no-slash")));
}

#[test]
fn write_then_read_roundtrip_through_the_gateway() {
    let mut s = service();
    let w = s.handle(FsRequest::Write { path: String::from("/f"), data: b"abc".to_vec() });
    assert_eq!(w.status, 201);
    let r = s.handle(FsRequest::Read { path: String::from("/f") });
    assert_eq!(r.status, 200);
    assert_eq!(r.body, b"abc".to_vec());
}

#[test]
fn read_of_missing_path_yields_404_response_not_a_fault() {
    let mut s = service();
    let r = s.handle(FsRequest::Read { path: String::from("/missing") });
    assert_eq!(r.status, 404);
    assert!(r.body.is_empty());
}

#[test]
fn stat_yields_200_or_404() {
    let mut s = service();
    let _ = s.handle(FsRequest::Write { path: String::from("/f"), data: Vec::new() });
    assert_eq!(s.handle(FsRequest::Stat { path: String::from("/f") }).status, 200);
    assert_eq!(s.handle(FsRequest::Stat { path: String::from("/g") }).status, 404);
}

#[test]
fn list_yields_207_with_the_listing() {
    let mut s = service();
    let _ = s.handle(FsRequest::Write { path: String::from("/d/a"), data: Vec::new() });
    let _ = s.handle(FsRequest::Write { path: String::from("/d/b"), data: Vec::new() });
    let resp = s.handle(FsRequest::List { prefix: String::from("/d/") });
    assert_eq!(resp.status, 207);
    let mut listing = resp.listing;
    listing.sort();
    assert_eq!(listing, vec![String::from("/d/a"), String::from("/d/b")]);
}

#[test]
fn remove_yields_204_then_404() {
    let mut s = service();
    let _ = s.handle(FsRequest::Write { path: String::from("/f"), data: Vec::new() });
    assert_eq!(s.handle(FsRequest::Remove { path: String::from("/f") }).status, 204);
    assert_eq!(s.handle(FsRequest::Remove { path: String::from("/f") }).status, 404);
}

#[test]
fn create_dir_yields_201_or_409() {
    let mut s = service();
    assert_eq!(s.handle(FsRequest::CreateDir { path: String::from("/d") }).status, 201);
    let _ = s.handle(FsRequest::Write { path: String::from("/f"), data: Vec::new() });
    assert_eq!(s.handle(FsRequest::CreateDir { path: String::from("/f") }).status, 409);
}

#[test]
fn every_verb_yields_a_response_on_an_empty_store() {
    let mut s = service();
    let statuses = [
        s.handle(FsRequest::Read { path: String::from("/p") }).status,
        s.handle(FsRequest::Stat { path: String::from("/p") }).status,
        s.handle(FsRequest::List { prefix: String::from("/p") }).status,
        s.handle(FsRequest::Remove { path: String::from("/p") }).status,
        s.handle(FsRequest::CreateDir { path: String::from("/p") }).status,
        s.handle(FsRequest::Write { path: String::from("/p"), data: Vec::new() }).status,
    ];
    for st in statuses {
        assert!(st != 0);
    }
}
