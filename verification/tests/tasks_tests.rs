use raftor::bully::{Id, Role, State};
use raftor::tasks::{accept_packet, write_report, Governor};
use raftor::wire::{DecodeError, Message, Request, Response};

const LOW: Id = Id([0x10, 0, 0, 0, 0, 1]);
const HIGH: Id = Id([0x20, 0, 0, 0, 0, 1]);

#[test]
fn timeouts_per_role() {
    assert_eq!(Role::Initializing.timeout(7), 2000);
    assert_eq!(Role::Leader.timeout(7), 500);
    assert_eq!(Role::Follower { leader: HIGH }.timeout(7), 2000);
    assert_eq!(Role::Candidate.timeout(0), 500);
    assert_eq!(Role::Candidate.timeout(27), 570);
    assert_eq!(Role::Candidate.timeout(19), 690);
    assert_eq!(Role::Candidate.timeout(u32::MAX), 650);
}

#[test]
fn candidate_wait_stays_within_bounds() {
    for random in (0..1000u32).chain([u32::MAX, u32::MAX - 1]) {
        let t = Role::Candidate.timeout(random);
        assert!((500..=690).contains(&t));
        assert_eq!(t % 10, 0);
    }
}

#[test]
fn a_heard_leader_restarts_the_watch() {
    let mut g = Governor::new(100);
    assert_eq!(g, Governor { leader_alive: false, last_valid_heartbeat: 100 });
    g.refresh(200);
    assert_eq!(g.last_valid_heartbeat, 100);
    let mut state = State { role: Role::Initializing };
    let reply = g.on_message(&Message::Request(Request::Heartbeat), &mut state, &LOW, &HIGH);
    assert_eq!(reply, None);
    assert!(g.leader_alive);
    assert_eq!(state.role, Role::Follower { leader: HIGH });
    g.refresh(300);
    assert_eq!(g, Governor { leader_alive: false, last_valid_heartbeat: 300 });
}

#[test]
fn governor_answers_messages() {
    let mut g = Governor::new(0);
    let mut state = State { role: Role::Candidate };
    let reply = g.on_message(&Message::Request(Request::Election), &mut state, &HIGH, &LOW);
    assert_eq!(reply, Some(Message::Response(Response::Election)));
    assert!(!g.leader_alive);
    let reply = g.on_message(&Message::Response(Response::Election), &mut state, &LOW, &HIGH);
    assert_eq!(reply, None);
    assert_eq!(state.role, Role::Initializing);
}

#[test]
fn starting_node_runs_for_leader_when_nothing_is_heard() {
    let g = Governor::new(0);
    let mut state = State { role: Role::Initializing };
    assert_eq!(g.on_timeout(&Role::Initializing, &mut state, 5), None);
    assert_eq!(state.role, Role::Candidate);
}

#[test]
fn follower_revolts_only_after_the_leader_timeout() {
    let g = Governor::new(1_000);
    let started = Role::Follower { leader: HIGH };
    let mut state = State { role: started };
    assert_eq!(g.on_timeout(&started, &mut state, 1_000 + 2_000_000), None);
    assert_eq!(state.role, started);
    assert_eq!(g.on_timeout(&started, &mut state, 1_000 + 2_000_001), None);
    assert_eq!(state.role, Role::Candidate);
}

#[test]
fn unvetoed_candidate_becomes_leader_and_announces_it() {
    let g = Governor::new(0);
    let mut state = State { role: Role::Candidate };
    assert_eq!(g.on_timeout(&Role::Candidate, &mut state, 10), Some(Message::Request(Request::Victory)));
    assert_eq!(state.role, Role::Leader);

    let mut state = State { role: Role::Initializing };
    assert_eq!(g.on_timeout(&Role::Candidate, &mut state, 10), None);
    assert_eq!(state.role, Role::Initializing);
}

#[test]
fn leader_sends_heartbeats() {
    let g = Governor::new(0);
    let mut state = State { role: Role::Leader };
    assert_eq!(g.on_timeout(&Role::Leader, &mut state, 10), Some(Message::Request(Request::Heartbeat)));
    assert_eq!(state.role, Role::Leader);

    let mut state = State { role: Role::Follower { leader: HIGH } };
    assert_eq!(g.on_timeout(&Role::Leader, &mut state, 10), None);
    assert_eq!(state.role, Role::Follower { leader: HIGH });
}

#[test]
fn packets_are_decoded_with_their_sender() {
    let source = [1u8, 2, 3, 4, 5, 6];
    assert_eq!(accept_packet(source, &[0, 2]), Ok((Message::Request(Request::Victory), Id(source))));
    assert_eq!(accept_packet(source, &[9]), Err(DecodeError::Malformed));
    assert_eq!(accept_packet(source, &[1, 9]), Err(DecodeError::UnknownVariant { outer: 1, inner: 9 }));
}

#[test]
fn report_is_json_with_id_and_role() {
    let mut message = heapless::String::<128>::new();
    message.push_str("left over").unwrap();
    let id = Id([0xa4, 0xcf, 0x12, 0x00, 0xbe, 0xef]);
    write_report(&mut message, &id, &Role::Leader);
    assert_eq!(message.as_str(), r#"{"id": "a4:cf:12:00:be:ef", "role": "leader"}"#);
}

#[test]
fn longest_report_fits() {
    let mut message = heapless::String::<128>::new();
    let id = Id([0xff; 6]);
    write_report(&mut message, &id, &Role::Follower { leader: Id([0xee; 6]) });
    let expected = r#"{"id": "ff:ff:ff:ff:ff:ff", "role": "follower(ee:ee:ee:ee:ee:ee)"}"#;
    assert_eq!(message.as_str(), expected);
    assert_eq!(expected.len(), 66);
}
