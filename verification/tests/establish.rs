use sessions::chan::SessionError;
use sessions::proto::Kind;
use sessions::proto::Protocol;
use sessions::proto::Value;
use sessions::proto::dual_of;
use sessions::session::accept;
use sessions::session::borrow_accept;
use sessions::session::borrow_request;
use sessions::session::reg_channel;
use sessions::session::request;
use sessions::session::session_channel;
use sessions::transport;

fn server_proto() -> Protocol {
    Protocol::Recv(Kind::Int, Box::new(Protocol::Eps))
}

#[test]
fn session_channel_requires_dual_descriptors() {
    let p = Protocol::Send(Kind::Int, Box::new(Protocol::Eps));
    let q = Protocol::Recv(Kind::Bool, Box::new(Protocol::Eps));
    match session_channel(p, q) {
        Err(e) => assert_eq!(e, SessionError::ProtocolMismatch),
        Ok(_) => panic!("descriptors are not dual"),
    }
}

#[test]
fn session_channel_pairs_dual_descriptors() {
    let p = Protocol::Send(Kind::Int, Box::new(Protocol::Eps));
    let q = dual_of(&p);
    let (a, b) = session_channel(p, q).unwrap();
    let a = a.send(Value::Int(8)).unwrap();
    let (b, v) = b.recv().unwrap();
    assert!(matches!(v, Value::Int(8)));
    assert!(a.close().is_ok());
    assert!(b.close().is_ok());
}

#[test]
fn transport_pair_is_typed_dually() {
    let p = server_proto();
    let (a, b) = transport::session_channel(p.duplicate());
    assert!(a.proto.equals(&p));
    assert!(b.proto.equals(&dual_of(&p)));
    drop(a);
    drop(b);
}

#[test]
fn accept_then_request_run_a_session() {
    let (tx, rx) = reg_channel(server_proto());
    let server = borrow_accept(&tx).unwrap();
    let client = borrow_request(&rx).unwrap();
    assert!(client.proto.equals(&dual_of(&server_proto())));
    let client = client.send(Value::Int(14)).unwrap();
    let (server, v) = server.recv().unwrap();
    assert!(matches!(v, Value::Int(14)));
    assert!(server.close().is_ok());
    assert!(client.close().is_ok());
}

#[test]
fn request_drains_what_was_accepted_before_closing() {
    let (tx, rx) = reg_channel(server_proto());
    let server = accept(tx).unwrap();
    // The producer is gone now, but one handle is still pending.
    let client = request(rx).unwrap();
    let client = client.send(Value::Int(5)).unwrap();
    let (server, v) = server.recv().unwrap();
    assert!(matches!(v, Value::Int(5)));
    assert!(server.close().is_ok());
    assert!(client.close().is_ok());
}

#[test]
fn request_fails_on_a_closed_empty_channel() {
    let (tx, rx) = reg_channel(server_proto());
    drop(tx);
    assert!(request(rx).is_none());
}

#[test]
fn accept_fails_once_the_requester_is_gone() {
    let (tx, rx) = reg_channel(server_proto());
    drop(rx);
    assert!(accept(tx).is_none());
}
