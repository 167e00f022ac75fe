use raftor::bully::{Id, Role, State};
use raftor::wire::{
    decode, encode, message_from_indices, DecodeError, EncodeError, Message, Reaction, Request, Response,
    Wire,
};

const LOW: Id = Id([0x10, 0, 0, 0, 0, 1]);
const HIGH: Id = Id([0x20, 0, 0, 0, 0, 1]);

fn all_messages() -> Vec<Message> {
    vec![
        Message::Request(Request::Heartbeat),
        Message::Request(Request::Election),
        Message::Request(Request::Victory),
        Message::Response(Response::Heartbeat),
        Message::Response(Response::Election),
        Message::Response(Response::Victory),
    ]
}

fn all_roles() -> Vec<Role> {
    vec![Role::Initializing, Role::Follower { leader: HIGH }, Role::Candidate, Role::Leader]
}

#[test]
fn specifications_name_the_messages() {
    assert_eq!(Request::Heartbeat.specification(), "heartbeat request");
    assert_eq!(Request::Election.specification(), "election request");
    assert_eq!(Request::Victory.specification(), "victory request");
    assert_eq!(Response::Heartbeat.specification(), "heartbeat response");
    assert_eq!(Response::Election.specification(), "election response");
    assert_eq!(Response::Victory.specification(), "victory response");
    assert_eq!(Message::Request(Request::Victory).specification(), "victory request");
    assert_eq!(Message::Response(Response::Election).specification(), "election response");
}

#[test]
fn requests_and_responses_wrap_into_messages() {
    assert_eq!(Message::from(Request::Election), Message::Request(Request::Election));
    assert_eq!(Message::from(Response::Victory), Message::Response(Response::Victory));
    assert_eq!(Request::Heartbeat.into_message(), Message::Request(Request::Heartbeat));
}

#[test]
fn heartbeat_from_lower_node_starts_an_election() {
    let mut state = State { role: Role::Follower { leader: LOW } };
    let r = Request::Heartbeat.handle(&mut state, &HIGH, &LOW);
    assert_eq!(r, Reaction { reply: Some(Message::Request(Request::Election)), confirms_leader: false });
    assert_eq!(state.role, Role::Candidate);
}

#[test]
fn heartbeat_from_lower_node_keeps_a_leader_leading() {
    let mut state = State { role: Role::Leader };
    let r = Request::Heartbeat.handle(&mut state, &HIGH, &LOW);
    assert_eq!(r.reply, Some(Message::Request(Request::Election)));
    assert_eq!(state.role, Role::Leader);
}

#[test]
fn heartbeat_from_higher_node_makes_a_follower() {
    for role in all_roles() {
        let mut state = State { role };
        let r = Request::Heartbeat.handle(&mut state, &LOW, &HIGH);
        assert_eq!(r, Reaction { reply: None, confirms_leader: true });
        assert_eq!(state.role, Role::Follower { leader: HIGH });
    }
}

#[test]
fn election_from_lower_node_is_vetoed() {
    for role in all_roles() {
        let mut state = State { role };
        let r = Request::Election.handle(&mut state, &HIGH, &LOW);
        assert_eq!(r.reply, Some(Message::Response(Response::Election)));
        assert!(!r.confirms_leader);
        assert_eq!(state.role, role);
    }
}

#[test]
fn election_from_higher_node_is_not_answered() {
    let mut state = State { role: Role::Candidate };
    let r = Request::Election.handle(&mut state, &LOW, &HIGH);
    assert_eq!(r, Reaction { reply: None, confirms_leader: false });
    assert_eq!(state.role, Role::Candidate);
}

#[test]
fn victory_of_lower_node_is_vetoed_and_of_higher_node_accepted() {
    let mut state = State { role: Role::Leader };
    let r = Request::Victory.handle(&mut state, &HIGH, &LOW);
    assert_eq!(r.reply, Some(Message::Response(Response::Election)));
    assert_eq!(state.role, Role::Leader);

    let mut state = State { role: Role::Candidate };
    let r = Request::Victory.handle(&mut state, &LOW, &HIGH);
    assert_eq!(r, Reaction { reply: None, confirms_leader: true });
    assert_eq!(state.role, Role::Follower { leader: HIGH });
}

#[test]
fn veto_from_higher_node_withdraws_a_candidacy() {
    let mut state = State { role: Role::Candidate };
    let r = Response::Election.handle(&mut state, &LOW, &HIGH);
    assert_eq!(r, Reaction { reply: None, confirms_leader: false });
    assert_eq!(state.role, Role::Initializing);

    let mut state = State { role: Role::Leader };
    Response::Election.handle(&mut state, &LOW, &HIGH);
    assert_eq!(state.role, Role::Leader);
}

#[test]
fn veto_from_lower_node_is_ignored() {
    let mut state = State { role: Role::Candidate };
    let r = Response::Election.handle(&mut state, &HIGH, &LOW);
    assert_eq!(r, Reaction { reply: None, confirms_leader: false });
    assert_eq!(state.role, Role::Candidate);
}

#[test]
fn heartbeat_and_victory_responses_change_nothing() {
    for role in all_roles() {
        for response in [Response::Heartbeat, Response::Victory] {
            let mut state = State { role };
            let r = response.handle(&mut state, &LOW, &LOW);
            assert_eq!(r, Reaction { reply: None, confirms_leader: false });
            assert_eq!(state.role, role);
        }
    }
}

#[test]
fn message_handle_dispatches() {
    let mut state = State { role: Role::Candidate };
    let r = Message::Response(Response::Election).handle(&mut state, &LOW, &HIGH);
    assert_eq!(r.reply, None);
    assert_eq!(state.role, Role::Initializing);
    let r = Message::Request(Request::Victory).handle(&mut state, &LOW, &HIGH);
    assert!(r.confirms_leader);
    assert_eq!(state.role, Role::Follower { leader: HIGH });
}

#[test]
fn messages_encode_as_two_variant_indices() {
    let expected: [(Message, [u8; 2]); 6] = [
        (Message::Request(Request::Heartbeat), [0, 0]),
        (Message::Request(Request::Election), [0, 1]),
        (Message::Request(Request::Victory), [0, 2]),
        (Message::Response(Response::Heartbeat), [1, 0]),
        (Message::Response(Response::Election), [1, 1]),
        (Message::Response(Response::Victory), [1, 2]),
    ];
    for (message, bytes) in expected {
        let mut buffer = vec![0xaau8; 250];
        assert_eq!(encode(&message, &mut buffer), Ok(2));
        assert_eq!(&buffer[..2], &bytes);
        assert!(buffer[2..].iter().all(|b| *b == 0xaa));
        assert_eq!(message.indices(), (bytes[0] as u32, bytes[1] as u32));
    }
}

#[test]
fn encoding_needs_two_bytes_of_buffer() {
    let mut small = vec![0u8; 1];
    assert_eq!(encode(&Message::Request(Request::Heartbeat), &mut small), Err(EncodeError::BufferTooSmall));
    assert_eq!(small.len(), 1);
    let mut empty: Vec<u8> = Vec::new();
    assert_eq!(Request::Victory.throw(&mut empty), Err(EncodeError::BufferTooSmall));
    let mut exact = vec![0u8; 2];
    assert_eq!(Response::Election.throw(&mut exact), Ok(2));
    assert_eq!(exact, vec![1, 1]);
}

#[test]
fn decoding_gives_back_what_encoding_wrote() {
    for message in all_messages() {
        let mut buffer = vec![0u8; 250];
        let n = encode(&message, &mut buffer).unwrap();
        assert_eq!(decode(&buffer[..n]), Ok(message));
        assert_eq!(decode(&buffer), Ok(message));
    }
}

#[test]
fn decoding_refuses_short_and_unknown_payloads() {
    assert_eq!(decode(&[]), Err(DecodeError::Malformed));
    assert_eq!(decode(&[0]), Err(DecodeError::Malformed));
    assert_eq!(decode(&[0x80]), Err(DecodeError::Malformed));
    assert_eq!(decode(&[0x80, 0x80]), Err(DecodeError::Malformed));
    assert_eq!(decode(&[0, 3]), Err(DecodeError::UnknownVariant { outer: 0, inner: 3 }));
    assert_eq!(decode(&[2, 0]), Err(DecodeError::UnknownVariant { outer: 2, inner: 0 }));
}

#[test]
fn decoding_reads_postcard_varints() {
    // A varint may take more than one byte: 0x80 0x00 is zero.
    assert_eq!(decode(&[0x80, 0x00, 0x01]), Ok(Message::Request(Request::Election)));
    assert_eq!(decode(&[0x81, 0x01, 0x00]), Err(DecodeError::UnknownVariant { outer: 129, inner: 0 }));
}

#[test]
fn indices_name_messages() {
    assert_eq!(message_from_indices(1, 1), Ok(Message::Response(Response::Election)));
    assert_eq!(message_from_indices(0, 2), Ok(Message::Request(Request::Victory)));
    assert_eq!(message_from_indices(7, 7), Err(DecodeError::UnknownVariant { outer: 7, inner: 7 }));
}
