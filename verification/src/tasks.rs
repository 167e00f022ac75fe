use crate::bully::{
    id_text, role_text, Id, Role, State, CANDIDATE_WAIT, HEARTBEAT_INTERVAL, INITIALIZATION_TIMEOUT,
    LEADER_TIMEOUT,
};
use crate::wire::{
    compares_ids, confirms_leader, decode, decoding, message_bytes, next_role,
    postcard_pair_decoding, reply_to, DecodeError, Message, Request, Wire,
};
use vstd::prelude::*;

verus! {

//////////////////////////////////////////////////////////////////////
// Governor
//////////////////////////////////////////////////////////////////////

/// The random part of a candidate's wait, in milliseconds: a multiple of
/// ten below two hundred.
pub open spec fn candidate_jitter(random: u32) -> u64 {
    ((random % 20) * 10) as u64
}

/// How long a node in `role` waits for a message before it acts on its own,
/// in milliseconds.
pub open spec fn role_timeout(role: Role, random: u32) -> u64 {
    match role {
        Role::Initializing => INITIALIZATION_TIMEOUT,
        Role::Leader => HEARTBEAT_INTERVAL,
        Role::Follower { .. } => LEADER_TIMEOUT,
        Role::Candidate => (CANDIDATE_WAIT + candidate_jitter(random)) as u64,
    }
}

/// The role after the wait of a round that started in `started` ran out with
/// no message, the role being `role` then, and `since_heartbeat`
/// microseconds having passed since the last sign of a live leader.
pub open spec fn role_after_timeout(started: Role, role: Role, since_heartbeat: u64) -> Role {
    match started {
        Role::Initializing => Role::Candidate,
        Role::Follower { .. } => if since_heartbeat > LEADER_TIMEOUT * 1000 {
            Role::Candidate
        } else {
            role
        },
        Role::Candidate => if role is Candidate {
            Role::Leader
        } else {
            role
        },
        Role::Leader => role,
    }
}

/// What a node broadcasts when the wait of a round that started in
/// `started` runs out, the role being `role` then.
pub open spec fn timeout_broadcast(started: Role, role: Role) -> Option<Message> {
    match started {
        Role::Candidate => if role is Candidate {
            Some(Message::Request(Request::Victory))
        } else {
            None
        },
        Role::Leader => if role is Leader {
            Some(Message::Request(Request::Heartbeat))
        } else {
            None
        },
        _ => None,
    }
}

/// A candidate waits between 500 and 690 milliseconds, in steps of ten;
/// a starting node and a follower wait two seconds, a leader half a second.
pub proof fn lemma_timeouts(role: Role, random: u32)
    ensures
        role is Candidate ==> CANDIDATE_WAIT <= role_timeout(role, random) <= CANDIDATE_WAIT + 190
            && role_timeout(role, random) % 10 == 0,
        role is Initializing || role is Follower ==> role_timeout(role, random) == 2000,
        role is Leader ==> role_timeout(role, random) == 500,
{
}

/// When a round runs out with no message, a node follows no one new, it
/// takes the lead only from a candidacy that met no veto, and a node that
/// takes the lead announces it; a follower stays one while its leader was
/// heard within the leader timeout.
pub proof fn lemma_timeout_laws(my: Id, started: Role, role: Role, since_heartbeat: u64)
    ensures
        crate::wire::follows_higher(my, role) ==> crate::wire::follows_higher(
            my,
            role_after_timeout(started, role, since_heartbeat),
        ),
        role_after_timeout(started, role, since_heartbeat) is Leader && !(role is Leader) ==> started
            is Candidate && role is Candidate && timeout_broadcast(started, role) == Some(
            Message::Request(Request::Victory),
        ),
        started is Follower && since_heartbeat <= LEADER_TIMEOUT * 1000 ==> role_after_timeout(
            started,
            role,
            since_heartbeat,
        ) == role,
{
}

/// A candidate waits 500 milliseconds plus ten for each step of the random
/// number modulo twenty: the wait for a random number below twenty is
/// `500 + 10 * random`, and adding twenty to the random number does not
/// change the wait.
pub proof fn lemma_candidate_wait(random: u32)
    ensures
        random < 20 ==> role_timeout(Role::Candidate, random) == 500 + 10 * random,
        random as int + 20 <= u32::MAX ==> role_timeout(Role::Candidate, (random + 20) as u32)
            == role_timeout(Role::Candidate, random),
        role_timeout(Role::Candidate, random) == 500 + 10 * (random % 20),
{
}

/// What each kind of round does when it runs out with no message, whatever
/// the role is by then and however long the leader has been silent:
/// a starting node becomes a candidate and sends nothing; a follower whose
/// leader has been silent for more than the leader timeout becomes a
/// candidate, and otherwise keeps its role, sending nothing either way; a
/// candidate that is still one becomes leader and announces its victory,
/// while a node that stopped being a candidate keeps its role and sends
/// nothing; a leader keeps its role and sends a heartbeat if it still leads,
/// nothing otherwise.
pub proof fn lemma_timeout_rounds(leader: Id, role: Role, since_heartbeat: u64)
    ensures
        role_after_timeout(Role::Initializing, role, since_heartbeat) == Role::Candidate,
        timeout_broadcast(Role::Initializing, role) == None::<Message>,
        since_heartbeat > 2_000_000 ==> role_after_timeout(
            Role::Follower { leader },
            role,
            since_heartbeat,
        ) == Role::Candidate,
        since_heartbeat <= 2_000_000 ==> role_after_timeout(
            Role::Follower { leader },
            role,
            since_heartbeat,
        ) == role,
        timeout_broadcast(Role::Follower { leader }, role) == None::<Message>,
        role == Role::Candidate ==> role_after_timeout(Role::Candidate, role, since_heartbeat)
            == Role::Leader && timeout_broadcast(Role::Candidate, role) == Some(
            Message::Request(Request::Victory),
        ),
        role != Role::Candidate ==> role_after_timeout(Role::Candidate, role, since_heartbeat) == role
            && timeout_broadcast(Role::Candidate, role) == None::<Message>,
        role_after_timeout(Role::Leader, role, since_heartbeat) == role,
        role == Role::Leader ==> timeout_broadcast(Role::Leader, role) == Some(
            Message::Request(Request::Heartbeat),
        ),
        role != Role::Leader ==> timeout_broadcast(Role::Leader, role) == None::<Message>,
{
}

impl Role {
    /// How long a node in this role waits for a message before acting on its
    /// own, in milliseconds: a starting node listens, a leader waits for its
    /// next heartbeat, a follower for its leader, and a candidate for a veto,
    /// with a jitter taken from `random` so that candidates do not collide.
    pub fn timeout(&self, random: u32) -> (r: u64)
        ensures
            r == role_timeout(*self, random),
    {
        match self {
            Role::Initializing => INITIALIZATION_TIMEOUT,
            Role::Leader => HEARTBEAT_INTERVAL,
            Role::Follower { .. } => LEADER_TIMEOUT,
            Role::Candidate => {
                let jitter: u64 = ((random % 20) * 10) as u64;
                CANDIDATE_WAIT + jitter
            },
        }
    }
}

/// The bookkeeping of the task that runs the election: whether a live
/// leader was heard in the last round, and when a leader was last heard,
/// in microseconds of the node's clock.
#[derive(Clone, Copy, Debug, PartialEq, Eq, Structural)]
pub struct Governor {
    pub leader_alive: bool,
    pub last_valid_heartbeat: u64,
}

impl Governor {
    /// The bookkeeping at the start, at time `now`: no leader heard yet, and
    /// the watch on the leader starts now.
    pub fn new(now: u64) -> (g: Governor)
        ensures
            !g.leader_alive,
            g.last_valid_heartbeat == now,
    {
        Governor { leader_alive: false, last_valid_heartbeat: now }
    }

    /// Starts a round at time `now`: where a live leader was heard since the
    /// last round, the watch on the leader restarts now.
    pub fn refresh(&mut self, now: u64)
        ensures
            old(self).leader_alive ==> !final(self).leader_alive && final(self).last_valid_heartbeat
                == now,
            !old(self).leader_alive ==> *final(self) == *old(self),
    {
        if self.leader_alive {
            self.leader_alive = false;
            self.last_valid_heartbeat = now;
        }
    }

    /// Handles `message` from `departure` on node `my` in the course of a
    /// round: the role changes as the message says, a live leader is noted,
    /// and the answer to broadcast, if any, is returned.
    pub fn on_message(&mut self, message: &Message, state: &mut State, my: &Id, departure: &Id) -> (r:
        Option<Message>)
        requires
            compares_ids(*message) ==> my.bytes() != departure.bytes(),
        ensures
            final(state).role == next_role(*message, old(state).role, *my, *departure),
            r == reply_to(*message, *my, *departure),
            final(self).leader_alive == (old(self).leader_alive || confirms_leader(
                *message,
                *my,
                *departure,
            )),
            final(self).last_valid_heartbeat == old(self).last_valid_heartbeat,
    {
        let reaction = message.handle(state, my, departure);
        if reaction.confirms_leader {
            self.leader_alive = true;
        }
        reaction.reply
    }

    /// Acts when the wait of a round that started in role `started` runs out
    /// at time `now` with no message: a starting node runs for leader, a
    /// follower whose leader has been silent too long runs for leader, a
    /// candidate that is still one becomes leader and announces its victory,
    /// and a leader that is still one sends its heartbeat. Returns what to
    /// broadcast. The clock does not go back, so `now` is not before the last
    /// heartbeat.
    pub fn on_timeout(&self, started: &Role, state: &mut State, now: u64) -> (r: Option<Message>)
        requires
            self.last_valid_heartbeat <= now,
        ensures
            final(state).role == role_after_timeout(
                *started,
                old(state).role,
                (now - self.last_valid_heartbeat) as u64,
            ),
            r == timeout_broadcast(*started, old(state).role),
    {
        match started {
            Role::Initializing => {
                state.role = Role::Candidate;
                None
            },
            Role::Follower { .. } => {
                let elapsed = now - self.last_valid_heartbeat;
                if elapsed > LEADER_TIMEOUT * 1000 {
                    state.role = Role::Candidate;
                }
                None
            },
            Role::Candidate => {
                let still_candidate = matches!(state.role, Role::Candidate);
                if still_candidate {
                    state.role = Role::Leader;
                    Some(Message::Request(Request::Victory))
                } else {
                    None
                }
            },
            Role::Leader => {
                let still_leader = matches!(state.role, Role::Leader);
                if still_leader {
                    Some(Message::Request(Request::Heartbeat))
                } else {
                    None
                }
            },
        }
    }
}

//////////////////////////////////////////////////////////////////////
// Receiving
//////////////////////////////////////////////////////////////////////

/// Reads a received ESP-NOW packet from the station `source`: the payload
/// decoded as a message, paired with the sender's identifier; a payload that
/// is no message is refused with the reason.
pub fn accept_packet(source: [u8; 6], payload: &[u8]) -> (r: Result<(Message, Id), DecodeError>)
    ensures
        match decoding(postcard_pair_decoding(payload@)) {
            Ok(m) => r == Ok::<(Message, Id), DecodeError>((m, Id(source))),
            Err(e) => r == Err::<(Message, Id), DecodeError>(e),
        },
        payload@.len() < 2 ==> r == Err::<(Message, Id), DecodeError>(DecodeError::Malformed),
        forall|m: Message|
            payload@.len() >= 2 && #[trigger] message_bytes(m) == payload@.subrange(0, 2) ==> r
                == Ok::<(Message, Id), DecodeError>((m, Id(source))),
{
    match decode(payload) {
        Ok(message) => Ok((message, Id::from(source))),
        Err(e) => Err(e),
    }
}

//////////////////////////////////////////////////////////////////////
// Publishing
//////////////////////////////////////////////////////////////////////

/// The status report of a node: a JSON object with its identifier and role,
/// as in `{"id": "a4:cf:12:00:be:ef", "role": "leader"}`.
pub open spec fn report_text(id: Id, role: Role) -> Seq<char> {
    "{\"id\": \""@ + id_text(id.bytes()) + "\", \"role\": \""@ + role_text(role) + "\"}"@
}

/// The fixed-capacity string of `heapless` in which a node writes its status report.
#[verifier::external_type_specification]
#[verifier::external_body]
pub struct ExHeaplessString<const N: usize>(heapless::String<N>);

/// The bytes that a report buffer holds.
pub uninterp spec fn report_buffer_bytes(s: heapless::String<128>) -> Seq<u8>;

/// Calls `heapless::String::clear`. Claimed of it: the string is empty after.
#[verifier::external_body]
fn report_buffer_clear(s: &mut heapless::String<128>)
    ensures
        report_buffer_bytes(*final(s)) == Seq::<u8>::empty(),
{
    s.clear()
}

/// Calls `heapless::String::push_str`. Claimed of it: it succeeds exactly
/// when the string's bytes and the text's UTF-8 bytes together fit in the
/// capacity of 128 bytes, and then appends the text's bytes; on failure the
/// string is left as it was.
#[verifier::external_body]
fn report_buffer_push_str(s: &mut heapless::String<128>, text: &str) -> (r: Result<(), ()>)
    ensures
        r is Ok <==> report_buffer_bytes(*old(s)).len() + vstd::utf8::encode_utf8(text@).len() <= 128,
        r is Ok ==> report_buffer_bytes(*final(s)) == report_buffer_bytes(*old(s)) + vstd::utf8::encode_utf8(text@),
        r is Err ==> report_buffer_bytes(*final(s)) == report_buffer_bytes(*old(s)),
{
    s.push_str(text)
}

proof fn lemma_encode_utf8_concat(a: Seq<char>, b: Seq<char>)
    ensures
        vstd::utf8::encode_utf8(a + b) == vstd::utf8::encode_utf8(a) + vstd::utf8::encode_utf8(b),
    decreases a.len(),
{
    if a.len() == 0 {
        assert(a + b =~= b);
        assert(vstd::utf8::encode_utf8(a) =~= Seq::<u8>::empty());
        assert(Seq::<u8>::empty() + vstd::utf8::encode_utf8(b) =~= vstd::utf8::encode_utf8(b));
    } else {
        assert((a + b).drop_first() =~= a.drop_first() + b);
        assert((a + b)[0] == a[0]);
        lemma_encode_utf8_concat(a.drop_first(), b);
        let e0 = vstd::utf8::encode_scalar(a[0] as u32);
        assert(e0 + (vstd::utf8::encode_utf8(a.drop_first()) + vstd::utf8::encode_utf8(b)) =~= (e0
            + vstd::utf8::encode_utf8(a.drop_first())) + vstd::utf8::encode_utf8(b));
    }
}

proof fn lemma_ascii_text_len(t: Seq<char>)
    requires
        vstd::utf8::is_ascii_chars(t),
    ensures
        vstd::utf8::encode_utf8(t).len() == t.len(),
{
    vstd::utf8::is_ascii_chars_encode_utf8(t);
}

/// A status report is ASCII and at most 66 characters long, so it always
/// fits in the 128 bytes that a node sets aside for it.
pub proof fn lemma_report_fits(id: Id, role: Role)
    ensures
        vstd::utf8::is_ascii_chars(report_text(id, role)),
        report_text(id, role).len() <= 66,
        vstd::utf8::encode_utf8(report_text(id, role)).len() <= 128,
{
    reveal_strlit("{\"id\": \"");
    reveal_strlit("\", \"role\": \"");
    reveal_strlit("\"}");
    reveal_strlit("initializing");
    reveal_strlit("follower(");
    reveal_strlit("candidate");
    reveal_strlit("leader");
    crate::bully::lemma_id_text_is_faithful(id, id);
    match role {
        Role::Follower { leader } => {
            crate::bully::lemma_id_text_is_faithful(leader, leader);
        },
        _ => {},
    }
    let t = report_text(id, role);
    assert forall|i: int| 0 <= i < t.len() implies '\0' <= #[trigger] t[i] <= '\u{7f}' by {
        let a = "{\"id\": \""@;
        let b = id_text(id.bytes());
        let c = "\", \"role\": \""@;
        let d = role_text(role);
        let e = "\"}"@;
        if i < a.len() {
            assert(t[i] == a[i]);
        } else if i < a.len() + b.len() {
            assert(t[i] == b[i - a.len()]);
        } else if i < a.len() + b.len() + c.len() {
            assert(t[i] == c[i - a.len() - b.len()]);
        } else if i < a.len() + b.len() + c.len() + d.len() {
            assert(t[i] == d[i - a.len() - b.len() - c.len()]);
            match role {
                Role::Follower { leader } => {
                    let j = i - a.len() - b.len() - c.len();
                    let f = "follower("@;
                    let g = id_text(leader.bytes());
                    if j < f.len() {
                        assert(d[j] == f[j]);
                    } else if j < f.len() + g.len() {
                        assert(d[j] == g[j - f.len()]);
                    } else {
                        assert(d[j] == ')');
                    }
                },
                _ => {},
            }
        } else {
            assert(t[i] == e[i - a.len() - b.len() - c.len() - d.len()]);
        }
    }
    lemma_ascii_text_len(t);
}

/// A status report is the JSON object `{"id": "<id>", "role": "<role>"}`:
/// these characters, then the identifier's text, then these, then the
/// role's text, then the closing quote and brace.
pub proof fn lemma_report_shape(id: Id, role: Role)
    ensures
        report_text(id, role) == seq!['{', '"', 'i', 'd', '"', ':', ' ', '"'] + id_text(id.bytes())
            + seq!['"', ',', ' ', '"', 'r', 'o', 'l', 'e', '"', ':', ' ', '"'] + role_text(role)
            + seq!['"', '}'],
{
    reveal_strlit("{\"id\": \"");
    reveal_strlit("\", \"role\": \"");
    reveal_strlit("\"}");
    assert("{\"id\": \""@ =~= seq!['{', '"', 'i', 'd', '"', ':', ' ', '"']);
    assert("\", \"role\": \""@ =~= seq!['"', ',', ' ', '"', 'r', 'o', 'l', 'e', '"', ':', ' ', '"']);
    assert("\"}"@ =~= seq!['"', '}']);
}

/// Writes the status report of node `id` in `role` into `message`, which it
/// clears first. The report always fits.
pub fn write_report(message: &mut heapless::String<128>, id: &Id, role: &Role)
    ensures
        report_buffer_bytes(*final(message)) == vstd::utf8::encode_utf8(report_text(*id, *role)),
{
    let id_string = id.text();
    let role_string = role.text();
    let open = "{\"id\": \"";
    let middle = "\", \"role\": \"";
    let close = "\"}";
    let ghost a = open@;
    let ghost b = id_string@;
    let ghost c = middle@;
    let ghost d = role_string@;
    let ghost e = close@;
    proof {
        lemma_report_fits(*id, *role);
        lemma_encode_utf8_concat(a, b);
        lemma_encode_utf8_concat(a + b, c);
        lemma_encode_utf8_concat(a + b + c, d);
        lemma_encode_utf8_concat(a + b + c + d, e);
        assert(report_text(*id, *role) == a + b + c + d + e);
    }
    report_buffer_clear(message);
    let r1 = report_buffer_push_str(message, open);
    assert(r1 is Ok);
    let r2 = report_buffer_push_str(message, id_string.as_str());
    assert(r2 is Ok);
    let r3 = report_buffer_push_str(message, middle);
    assert(r3 is Ok);
    let r4 = report_buffer_push_str(message, role_string.as_str());
    assert(r4 is Ok);
    let r5 = report_buffer_push_str(message, close);
    assert(r5 is Ok);
    assert(report_buffer_bytes(*message) =~= vstd::utf8::encode_utf8(report_text(*id, *role)));
}

} // verus!
