use sessions::proto::Kind;
use sessions::proto::Protocol;
use sessions::proto::Value;
use sessions::proto::are_dual;
use sessions::proto::dual_of;

fn send_int_end() -> Protocol {
    Protocol::Send(Kind::Int, Box::new(Protocol::Eps))
}

fn recv_int_end() -> Protocol {
    Protocol::Recv(Kind::Int, Box::new(Protocol::Eps))
}

#[test]
fn dual_end_end() {
    assert!(are_dual(&Protocol::Eps, &Protocol::Eps));
}

#[test]
fn dual_send_recv_same_kind() {
    assert!(are_dual(&send_int_end(), &recv_int_end()));
}

#[test]
fn dual_send_recv_kind_mismatch() {
    let q = Protocol::Recv(Kind::Bool, Box::new(Protocol::Eps));
    assert!(!are_dual(&send_int_end(), &q));
}

#[test]
fn dual_send_recv_needs_dual_continuations() {
    let q = Protocol::Recv(Kind::Int, Box::new(recv_int_end()));
    assert!(!are_dual(&send_int_end(), &q));
}

#[test]
fn dual_send_send_fails() {
    assert!(!are_dual(&send_int_end(), &send_int_end()));
}

#[test]
fn dual_is_symmetric_on_samples() {
    let samples = vec![
        (Protocol::Eps, Protocol::Eps),
        (send_int_end(), recv_int_end()),
        (send_int_end(), send_int_end()),
        (
            Protocol::Choose(Box::new(send_int_end()), Box::new(Protocol::Eps)),
            Protocol::Offer(Box::new(recv_int_end()), Box::new(Protocol::Eps)),
        ),
        (
            Protocol::Rec(Box::new(Protocol::Var(0))),
            Protocol::Rec(Box::new(Protocol::Var(0))),
        ),
        (Protocol::Var(1), Protocol::Var(2)),
    ];
    for (p, q) in samples {
        assert_eq!(are_dual(&p, &q), are_dual(&q, &p));
    }
}

#[test]
fn dual_choose_offer_branchwise() {
    let p = Protocol::Choose(Box::new(send_int_end()), Box::new(Protocol::Eps));
    let q = Protocol::Offer(Box::new(recv_int_end()), Box::new(Protocol::Eps));
    assert!(are_dual(&p, &q));
    let bad = Protocol::Offer(Box::new(recv_int_end()), Box::new(recv_int_end()));
    assert!(!are_dual(&p, &bad));
}

#[test]
fn dual_var_depths_must_match() {
    assert!(are_dual(&Protocol::Var(3), &Protocol::Var(3)));
    assert!(!are_dual(&Protocol::Var(3), &Protocol::Var(2)));
}

#[test]
fn dual_of_yields_a_dual() {
    let p = Protocol::Send(
        Kind::Int,
        Box::new(Protocol::Recv(Kind::Bool, Box::new(Protocol::Eps))),
    );
    let q = dual_of(&p);
    assert!(are_dual(&p, &q));
    let expected = Protocol::Recv(
        Kind::Int,
        Box::new(Protocol::Send(Kind::Bool, Box::new(Protocol::Eps))),
    );
    assert!(q.equals(&expected));
}

#[test]
fn dual_of_swaps_choose_and_offer() {
    let p = Protocol::Choose(Box::new(send_int_end()), Box::new(Protocol::Eps));
    let q = dual_of(&p);
    let expected = Protocol::Offer(Box::new(recv_int_end()), Box::new(Protocol::Eps));
    assert!(q.equals(&expected));
}

#[test]
fn equals_is_structural() {
    assert!(send_int_end().equals(&send_int_end()));
    assert!(!send_int_end().equals(&recv_int_end()));
    assert!(!Protocol::Var(0).equals(&Protocol::Var(1)));
    let p = Protocol::Rec(Box::new(Protocol::Var(0)));
    assert!(p.equals(&p.duplicate()));
}

#[test]
fn value_kinds() {
    assert_eq!(Value::Unit.kind(), Kind::Unit);
    assert_eq!(Value::Int(7).kind(), Kind::Int);
    assert_eq!(Value::Bool(false).kind(), Kind::Bool);
    assert_eq!(Value::Str(String::from("hi")).kind(), Kind::Str);
}
