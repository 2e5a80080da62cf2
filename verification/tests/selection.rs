use sessions::chan::Chan;
use sessions::chan::SessionError;
use sessions::proto::Kind;
use sessions::proto::Protocol;
use sessions::proto::Value;
use sessions::select::ChanSelect;
use sessions::select::hselect;
use sessions::select::iselect;
use sessions::select::pick_ready;
use sessions::transport::session_channel;


fn err_of<T>(r: Result<T, SessionError>) -> SessionError {
    match r {
        Err(e) => e,
        Ok(_) => panic!("expected an error"),
    }
}

fn recv_int_end() -> Protocol {
    Protocol::Recv(Kind::Int, Box::new(Protocol::Eps))
}

fn receiving_pairs(n: usize) -> (Vec<Chan>, Vec<Chan>) {
    let mut receivers = Vec::new();
    let mut senders = Vec::new();
    for _ in 0..n {
        let (r, s) = session_channel(recv_int_end());
        receivers.push(r);
        senders.push(s);
    }
    (receivers, senders)
}

#[test]
fn pick_ready_returns_the_first_set_flag() {
    assert_eq!(pick_ready(&vec![false, true, true]), Some(1));
    assert_eq!(pick_ready(&vec![true, false]), Some(0));
    assert_eq!(pick_ready(&vec![false, false, true]), Some(2));
}

#[test]
fn pick_ready_returns_nothing_without_a_set_flag() {
    assert_eq!(pick_ready(&vec![false, false]), None);
    let none: Vec<bool> = Vec::new();
    assert_eq!(pick_ready(&none), None);
}

#[test]
fn empty_selection_fails_immediately() {
    let sel: ChanSelect<usize> = ChanSelect::new();
    assert_eq!(sel.wait().unwrap_err(), SessionError::EmptySelection);
}

#[test]
fn iselect_on_no_channels_fails_immediately() {
    let chans: Vec<Chan> = Vec::new();
    assert_eq!(iselect(&chans).unwrap_err(), SessionError::EmptySelection);
}

#[test]
fn wait_returns_the_ready_tag() {
    let (receivers, senders) = receiving_pairs(3);
    // Only handle 1 becomes ready.
    let s1 = senders.into_iter().nth(1).unwrap();
    let _s1 = s1.send(Value::Int(10)).unwrap();
    let mut sel = ChanSelect::new();
    for (i, r) in receivers.iter().enumerate() {
        assert!(sel.add_ret(r, 100 + i).is_ok());
    }
    assert_eq!(sel.wait().unwrap(), 101);
    // The winner was identified but not consumed: its value is still there.
    let mut receivers = receivers;
    let winner = receivers.remove(1);
    let (_, v) = winner.recv().unwrap();
    assert!(matches!(v, Value::Int(10)));
}

#[test]
fn add_assigns_indices_in_order() {
    let (receivers, senders) = receiving_pairs(2);
    let mut senders = senders;
    let last = senders.pop().unwrap();
    let _ = last.send(Value::Int(5)).unwrap();
    let mut sel: ChanSelect<usize> = ChanSelect::new();
    for r in receivers.iter() {
        assert!(sel.add(r).is_ok());
    }
    assert_eq!(sel.wait().unwrap(), 1);
    drop(senders);
}

#[test]
fn registering_a_non_receive_handle_is_rejected() {
    let (a, b) = session_channel(Protocol::Eps);
    let mut sel: ChanSelect<usize> = ChanSelect::new();
    assert_eq!(sel.add(&a).unwrap_err(), SessionError::UsageError);
    drop(b);
}

#[test]
fn selection_fails_once_every_peer_is_gone() {
    let (receivers, senders) = receiving_pairs(2);
    drop(senders);
    let mut sel: ChanSelect<usize> = ChanSelect::new();
    for r in receivers.iter() {
        assert!(sel.add(r).is_ok());
    }
    assert_eq!(sel.wait().unwrap_err(), SessionError::SelectionError);
}

#[test]
fn iselect_identifies_the_ready_channel() {
    let (receivers, senders) = receiving_pairs(3);
    let mut senders = senders;
    let s2 = senders.pop().unwrap();
    let _ = s2.send(Value::Int(9)).unwrap();
    assert_eq!(iselect(&receivers).unwrap(), 2);
    drop(senders);
}

#[test]
fn iselect_rejects_a_non_receive_handle() {
    let (mut receivers, senders) = receiving_pairs(2);
    let (done, other) = session_channel(Protocol::Eps);
    receivers.push(done);
    assert_eq!(iselect(&receivers).unwrap_err(), SessionError::UsageError);
    drop(senders);
    drop(other);
}

#[test]
fn hselect_takes_the_winner_and_keeps_the_order() {
    let (receivers, senders) = receiving_pairs(3);
    let mut senders = senders;
    let s2 = senders.pop().unwrap();
    let s1 = senders.pop().unwrap();
    let s0 = senders.pop().unwrap();
    // Make the middle handle ready first.
    let s1 = s1.send(Value::Int(11)).unwrap();
    let (winner, rest) = hselect(receivers).unwrap();
    let (_, v) = winner.recv().unwrap();
    assert!(matches!(v, Value::Int(11)));
    assert_eq!(rest.len(), 2);
    // The remaining handles kept their relative order.
    let _ = s0.send(Value::Int(20)).unwrap();
    let _ = s2.send(Value::Int(22)).unwrap();
    let mut rest = rest;
    let second = rest.pop().unwrap();
    let first = rest.pop().unwrap();
    let (_, v0) = first.recv().unwrap();
    assert!(matches!(v0, Value::Int(20)));
    let (_, v2) = second.recv().unwrap();
    assert!(matches!(v2, Value::Int(22)));
    drop(s1);
}

#[test]
fn hselect_on_no_channels_fails_immediately() {
    let chans: Vec<Chan> = Vec::new();
    assert_eq!(err_of(hselect(chans)), SessionError::EmptySelection);
}
