use crate::bully::{Id, Role, State};
use vstd::prelude::*;

verus! {

//////////////////////////////////////////////////////////////////////
// Messages
//////////////////////////////////////////////////////////////////////

/// A message between nodes: a request or a response.
#[derive(Clone, Copy, Debug, PartialEq, Eq, Structural)]
pub enum Message {
    Request(Request),
    Response(Response),
}

/// A request, broadcast to every node.
#[derive(Clone, Copy, Debug, PartialEq, Eq, Structural)]
pub enum Request {
    /// The leader's sign of life.
    Heartbeat,
    /// A call for an election.
    Election,
    /// A candidate's claim of leadership.
    Victory,
}

/// A response, broadcast to every node.
#[derive(Clone, Copy, Debug, PartialEq, Eq, Structural)]
pub enum Response {
    /// Answer to a heartbeat.
    Heartbeat,
    /// A veto: a node with a greater identifier is alive.
    Election,
    /// Answer to a victory.
    Victory,
}

impl From<Request> for Message {
    fn from(value: Request) -> (r: Message) {
        Message::Request(value)
    }
}

impl vstd::std_specs::convert::FromSpecImpl<Request> for Message {
    open spec fn obeys_from_spec() -> bool {
        true
    }

    open spec fn from_spec(v: Request) -> Message {
        Message::Request(v)
    }
}

impl From<Response> for Message {
    fn from(value: Response) -> (r: Message) {
        Message::Response(value)
    }
}

impl vstd::std_specs::convert::FromSpecImpl<Response> for Message {
    open spec fn obeys_from_spec() -> bool {
        true
    }

    open spec fn from_spec(v: Response) -> Message {
        Message::Response(v)
    }
}

//////////////////////////////////////////////////////////////////////
// What a message does
//////////////////////////////////////////////////////////////////////

/// What handling a message asks of the node besides the change of its role.
#[derive(Clone, Copy, Debug, PartialEq, Eq, Structural)]
pub struct Reaction {
    /// The message to broadcast in answer, if any.
    pub reply: Option<Message>,
    /// The sender has shown itself to be a live leader.
    pub confirms_leader: bool,
}

/// The node with identifier `my` ranks above the one with `other`.
pub open spec fn outranks(my: Id, other: Id) -> bool {
    other.precedes(my)
}

/// Handling `m` compares the receiver's identifier with the sender's.
pub open spec fn compares_ids(m: Message) -> bool {
    match m {
        Message::Response(Response::Heartbeat) | Message::Response(Response::Victory) => false,
        _ => true,
    }
}

/// The answer that a node `my` broadcasts on receiving `m` from `departure`.
pub open spec fn reply_to(m: Message, my: Id, departure: Id) -> Option<Message> {
    match m {
        Message::Request(Request::Heartbeat) => if outranks(my, departure) {
            Some(Message::Request(Request::Election))
        } else {
            None
        },
        Message::Request(Request::Election) | Message::Request(Request::Victory) => if outranks(
            my,
            departure,
        ) {
            Some(Message::Response(Response::Election))
        } else {
            None
        },
        Message::Response(_) => None,
    }
}

/// The role of node `my`, in role `role`, after it receives `m` from `departure`.
pub open spec fn next_role(m: Message, role: Role, my: Id, departure: Id) -> Role {
    match m {
        Message::Request(Request::Heartbeat) => if outranks(my, departure) {
            if role is Leader {
                Role::Leader
            } else {
                Role::Candidate
            }
        } else {
            Role::Follower { leader: departure }
        },
        Message::Request(Request::Election) => role,
        Message::Request(Request::Victory) => if outranks(my, departure) {
            role
        } else {
            Role::Follower { leader: departure }
        },
        Message::Response(Response::Election) => if !outranks(my, departure) && role is Candidate {
            Role::Initializing
        } else {
            role
        },
        Message::Response(_) => role,
    }
}

/// Receiving `m` from `departure` shows that the sender is a live leader to `my`.
pub open spec fn confirms_leader(m: Message, my: Id, departure: Id) -> bool {
    match m {
        Message::Request(Request::Heartbeat) | Message::Request(Request::Victory) => !outranks(
            my,
            departure,
        ),
        _ => false,
    }
}

/// In every role a node is in, a follower follows a node that outranks it.
pub open spec fn follows_higher(my: Id, role: Role) -> bool {
    match role {
        Role::Follower { leader } => outranks(leader, my),
        _ => true,
    }
}

/// The laws of the bully election, for a message `m` that node `my`, in
/// `role`, receives from another node `departure`:
/// a node only ever becomes the follower of a node that outranks it, so a
/// follower keeps following a higher node; no message makes a node leader;
/// a leader keeps leading whatever a node that it outranks sends; a node
/// answers every election or victory of a node that it outranks with a veto
/// and never vetoes a node that outranks it; only requests are answered;
/// only a heartbeat or a victory of a higher node shows a live leader; and a
/// node that becomes a follower follows the sender, which outranks it.
pub proof fn lemma_election_laws(m: Message, role: Role, my: Id, departure: Id)
    requires
        my.bytes() != departure.bytes(),
    ensures
        follows_higher(my, role) ==> follows_higher(my, next_role(m, role, my, departure)),
        next_role(m, role, my, departure) is Leader ==> role is Leader,
        role is Leader && outranks(my, departure) ==> next_role(m, role, my, departure) is Leader,
        (m == Message::Request(Request::Election) || m == Message::Request(Request::Victory)) ==> (
        reply_to(m, my, departure) == Some(Message::Response(Response::Election)) <==> outranks(
            my,
            departure,
        )),
        m is Response ==> reply_to(m, my, departure) is None,
        confirms_leader(m, my, departure) ==> outranks(departure, my) && (m == Message::Request(
            Request::Heartbeat,
        ) || m == Message::Request(Request::Victory)),
        next_role(m, role, my, departure) is Follower && next_role(m, role, my, departure) != role
            ==> next_role(m, role, my, departure) == (Role::Follower { leader: departure }) && outranks(
            departure,
            my,
        ),
{
    crate::bully::lemma_id_order_is_total(my, departure, my);
}

/// What each request does, for a node `my` in any `role` that receives it
/// from another node `departure`, the two ranked by identifier order.
/// A heartbeat of a higher node makes the receiver its follower and shows a
/// live leader; a heartbeat of a lower node makes the receiver call an
/// election and run for leader, unless it leads already. An election request
/// never changes the receiver's role; a lower node's is vetoed, a higher
/// node's is not answered. A victory of a higher node makes the receiver its
/// follower, whatever the receiver's role, leader included, and shows a live
/// leader; a lower node's victory is vetoed and changes nothing.
pub proof fn lemma_request_handling(role: Role, my: Id, departure: Id)
    requires
        my.bytes() != departure.bytes(),
    ensures
        departure.precedes(my) <==> !my.precedes(departure),
        my.precedes(departure) ==> next_role(Message::Request(Request::Heartbeat), role, my, departure)
            == (Role::Follower { leader: departure }) && reply_to(
            Message::Request(Request::Heartbeat),
            my,
            departure,
        ) == None::<Message> && confirms_leader(Message::Request(Request::Heartbeat), my, departure),
        departure.precedes(my) && role == Role::Leader ==> next_role(
            Message::Request(Request::Heartbeat),
            role,
            my,
            departure,
        ) == Role::Leader,
        departure.precedes(my) && role != Role::Leader ==> next_role(
            Message::Request(Request::Heartbeat),
            role,
            my,
            departure,
        ) == Role::Candidate,
        departure.precedes(my) ==> reply_to(Message::Request(Request::Heartbeat), my, departure)
            == Some(Message::Request(Request::Election)) && !confirms_leader(
            Message::Request(Request::Heartbeat),
            my,
            departure,
        ),
        next_role(Message::Request(Request::Election), role, my, departure) == role,
        !confirms_leader(Message::Request(Request::Election), my, departure),
        departure.precedes(my) ==> reply_to(Message::Request(Request::Election), my, departure)
            == Some(Message::Response(Response::Election)),
        my.precedes(departure) ==> reply_to(Message::Request(Request::Election), my, departure)
            == None::<Message>,
        my.precedes(departure) ==> next_role(Message::Request(Request::Victory), role, my, departure)
            == (Role::Follower { leader: departure }) && reply_to(
            Message::Request(Request::Victory),
            my,
            departure,
        ) == None::<Message> && confirms_leader(Message::Request(Request::Victory), my, departure),
        departure.precedes(my) ==> next_role(Message::Request(Request::Victory), role, my, departure)
            == role && reply_to(Message::Request(Request::Victory), my, departure) == Some(
            Message::Response(Response::Election),
        ) && !confirms_leader(Message::Request(Request::Victory), my, departure),
{
    crate::bully::lemma_id_order_is_total(my, departure, my);
}

/// What each response does, for a node `my` in any `role` that receives it
/// from another node `departure`: no response is answered or shows a live
/// leader; a heartbeat or victory response changes nothing; a veto (election
/// response) changes the role of a candidate only: a higher node's veto
/// sends a candidate back to initializing, a lower node's is ignored, and
/// every other role stays as it was.
pub proof fn lemma_response_handling(response: Response, role: Role, my: Id, departure: Id)
    requires
        my.bytes() != departure.bytes(),
    ensures
        reply_to(Message::Response(response), my, departure) == None::<Message>,
        !confirms_leader(Message::Response(response), my, departure),
        response != Response::Election ==> next_role(Message::Response(response), role, my, departure)
            == role,
        role != Role::Candidate ==> next_role(Message::Response(response), role, my, departure)
            == role,
        role == Role::Candidate && my.precedes(departure) ==> next_role(
            Message::Response(Response::Election),
            role,
            my,
            departure,
        ) == Role::Initializing,
        role == Role::Candidate && departure.precedes(my) ==> next_role(
            Message::Response(Response::Election),
            role,
            my,
            departure,
        ) == Role::Candidate,
{
    crate::bully::lemma_id_order_is_total(my, departure, my);
}

/// The log name of each message: its kind followed by `request` or
/// `response`, and a message names itself as its request or response does.
pub proof fn lemma_specifications(m: Message)
    ensures
        Request::Heartbeat.specification_text() == "heartbeat request"@,
        Request::Election.specification_text() == "election request"@,
        Request::Victory.specification_text() == "victory request"@,
        Response::Heartbeat.specification_text() == "heartbeat response"@,
        Response::Election.specification_text() == "election response"@,
        Response::Victory.specification_text() == "victory response"@,
        m.specification_text() == match m {
            Message::Request(r) => r.specification_text(),
            Message::Response(r) => r.specification_text(),
        },
{
}

/// Only a heartbeat response and a victory response leave the identifiers
/// uncompared.
pub proof fn lemma_compared_messages(m: Message)
    ensures
        !compares_ids(m) <==> (m == Message::Response(Response::Heartbeat) || m == Message::Response(
            Response::Victory,
        )),
{
}

/// A message that the election exchanges between nodes. Each kind has a
/// name for the log, turns into a `Message` for the wire, and is handled by
/// a decision on the receiver's state.
pub trait Wire: Sized {
    /// The message that `self` travels as.
    spec fn as_message(self) -> Message;

    /// The name of the message for the log.
    spec fn specification_text(&self) -> Seq<char>;

    /// The name of the message for the log.
    fn specification(&self) -> (s: &'static str)
        ensures
            s@ == self.specification_text(),
    ;

    /// The message that `self` travels as.
    fn into_message(self) -> (m: Message)
        ensures
            m == self.as_message(),
    ;

    /// Handles the message from the node `departure` on the node `my`:
    /// updates the role in `state` and tells what to send and whether the
    /// sender proved to be a live leader. A node never hears itself, so
    /// where the identifiers are compared they differ.
    fn handle(&self, state: &mut State, my: &Id, departure: &Id) -> (r: Reaction)
        requires
            compares_ids(self.as_message()) ==> my.bytes() != departure.bytes(),
        ensures
            final(state).role == next_role(self.as_message(), old(state).role, *my, *departure),
            r.reply == reply_to(self.as_message(), *my, *departure),
            r.confirms_leader == confirms_leader(self.as_message(), *my, *departure),
    ;

    /// Encodes the message into the front of `buffer` for broadcasting and
    /// returns the number of bytes written; fails where the buffer cannot
    /// hold the message.
    fn throw(self, buffer: &mut Vec<u8>) -> (r: Result<usize, EncodeError>)
        ensures
            final(buffer)@.len() == old(buffer)@.len(),
            r is Ok <==> old(buffer)@.len() >= message_bytes(self.as_message()).len(),
            r is Ok ==> r->Ok_0 == message_bytes(self.as_message()).len() && final(buffer)@.subrange(
                0,
                r->Ok_0 as int,
            ) == message_bytes(self.as_message()) && final(buffer)@.subrange(
                r->Ok_0 as int,
                final(buffer)@.len() as int,
            ) == old(buffer)@.subrange(r->Ok_0 as int, old(buffer)@.len() as int),
    {
        let message = self.into_message();
        encode(&message, buffer)
    }
}

impl Wire for Request {
    open spec fn as_message(self) -> Message {
        Message::Request(self)
    }

    open spec fn specification_text(&self) -> Seq<char> {
        match self {
            Request::Heartbeat => "heartbeat request"@,
            Request::Election => "election request"@,
            Request::Victory => "victory request"@,
        }
    }

    fn specification(&self) -> (s: &'static str) {
        match self {
            Request::Heartbeat => "heartbeat request",
            Request::Election => "election request",
            Request::Victory => "victory request",
        }
    }

    fn into_message(self) -> (m: Message) {
        Message::Request(self)
    }

    fn handle(&self, state: &mut State, my: &Id, departure: &Id) -> (r: Reaction) {
        let outranked = departure.comes_before(my);
        match self {
            Request::Heartbeat => {
                if outranked {
                    let is_leader = matches!(state.role, Role::Leader);
                    if !is_leader {
                        state.role = Role::Candidate;
                    }
                    Reaction { reply: Some(Message::Request(Request::Election)), confirms_leader: false }
                } else {
                    state.role = Role::Follower { leader: *departure };
                    Reaction { reply: None, confirms_leader: true }
                }
            },
            Request::Election => {
                if outranked {
                    Reaction { reply: Some(Message::Response(Response::Election)), confirms_leader: false }
                } else {
                    Reaction { reply: None, confirms_leader: false }
                }
            },
            Request::Victory => {
                if outranked {
                    Reaction { reply: Some(Message::Response(Response::Election)), confirms_leader: false }
                } else {
                    state.role = Role::Follower { leader: *departure };
                    Reaction { reply: None, confirms_leader: true }
                }
            },
        }
    }
}

impl Wire for Response {
    open spec fn as_message(self) -> Message {
        Message::Response(self)
    }

    open spec fn specification_text(&self) -> Seq<char> {
        match self {
            Response::Heartbeat => "heartbeat response"@,
            Response::Election => "election response"@,
            Response::Victory => "victory response"@,
        }
    }

    fn specification(&self) -> (s: &'static str) {
        match self {
            Response::Heartbeat => "heartbeat response",
            Response::Election => "election response",
            Response::Victory => "victory response",
        }
    }

    fn into_message(self) -> (m: Message) {
        Message::Response(self)
    }

    fn handle(&self, state: &mut State, my: &Id, departure: &Id) -> (r: Reaction) {
        match self {
            Response::Heartbeat => {},
            Response::Election => {
                let outranked = departure.comes_before(my);
                if !outranked {
                    let is_candidate = matches!(state.role, Role::Candidate);
                    if is_candidate {
                        state.role = Role::Initializing;
                    }
                }
            },
            Response::Victory => {},
        }
        Reaction { reply: None, confirms_leader: false }
    }
}

impl Wire for Message {
    open spec fn as_message(self) -> Message {
        self
    }

    open spec fn specification_text(&self) -> Seq<char> {
        match self {
            Message::Request(request) => request.specification_text(),
            Message::Response(response) => response.specification_text(),
        }
    }

    fn specification(&self) -> (s: &'static str) {
        match self {
            Message::Request(request) => request.specification(),
            Message::Response(response) => response.specification(),
        }
    }

    fn into_message(self) -> (m: Message) {
        self
    }

    fn handle(&self, state: &mut State, my: &Id, departure: &Id) -> (r: Reaction) {
        match self {
            Message::Request(request) => request.handle(state, my, departure),
            Message::Response(response) => response.handle(state, my, departure),
        }
    }
}

//////////////////////////////////////////////////////////////////////
// Encoding
//////////////////////////////////////////////////////////////////////

/// Why a payload is not a message.
#[derive(Clone, Copy, Debug, PartialEq, Eq, Structural)]
pub enum DecodeError {
    /// The payload does not start with two variant indices.
    Malformed,
    /// The indices name no message.
    UnknownVariant { outer: u32, inner: u32 },
}

/// Why a message could not be encoded.
#[derive(Clone, Copy, Debug, PartialEq, Eq, Structural)]
pub enum EncodeError {
    /// The buffer is too short for the message.
    BufferTooSmall,
}

/// The variant indices that a message travels as. Postcard writes an enum
/// value as the varint of its variant's index followed by the variant's
/// content, so a message travels as two indices: the first says request (0)
/// or response (1), the second which one, in declaration order. The library
/// hands postcard the pair of indices, which it encodes to the same bytes.
pub open spec fn wire_indices(m: Message) -> (u32, u32) {
    match m {
        Message::Request(Request::Heartbeat) => (0, 0),
        Message::Request(Request::Election) => (0, 1),
        Message::Request(Request::Victory) => (0, 2),
        Message::Response(Response::Heartbeat) => (1, 0),
        Message::Response(Response::Election) => (1, 1),
        Message::Response(Response::Victory) => (1, 2),
    }
}

/// The bytes that a message travels as: each index as a one-byte varint.
pub open spec fn message_bytes(m: Message) -> Seq<u8> {
    seq![wire_indices(m).0 as u8, wire_indices(m).1 as u8]
}

/// The message that a pair of variant indices stands for, if any.
pub open spec fn message_at(outer: u32, inner: u32) -> Result<Message, DecodeError> {
    if outer == 0 && inner == 0 {
        Ok(Message::Request(Request::Heartbeat))
    } else if outer == 0 && inner == 1 {
        Ok(Message::Request(Request::Election))
    } else if outer == 0 && inner == 2 {
        Ok(Message::Request(Request::Victory))
    } else if outer == 1 && inner == 0 {
        Ok(Message::Response(Response::Heartbeat))
    } else if outer == 1 && inner == 1 {
        Ok(Message::Response(Response::Election))
    } else if outer == 1 && inner == 2 {
        Ok(Message::Response(Response::Victory))
    } else {
        Err(DecodeError::UnknownVariant { outer, inner })
    }
}

/// The outcome of decoding, from what postcard read as a pair of indices.
pub open spec fn decoding(pair: Option<(u32, u32)>) -> Result<Message, DecodeError> {
    match pair {
        None => Err(DecodeError::Malformed),
        Some((outer, inner)) => message_at(outer, inner),
    }
}

/// Every message travels as two bytes below 128, and those bytes name the
/// message again: decoding what encoding wrote gives back the message.
pub proof fn lemma_message_bytes_round_trip(m: Message)
    ensures
        message_bytes(m).len() == 2,
        message_bytes(m)[0] < 128 && message_bytes(m)[1] < 128,
        message_at(message_bytes(m)[0] as u32, message_bytes(m)[1] as u32) == Ok::<
            Message,
            DecodeError,
        >(m),
        forall|n: Message| #[trigger] message_bytes(n) == message_bytes(m) ==> n == m,
{
    assert forall|n: Message| #[trigger] message_bytes(n) == message_bytes(m) implies n == m by {
        assert(message_bytes(n)[0] == message_bytes(m)[0]);
        assert(message_bytes(n)[1] == message_bytes(m)[1]);
    }
}

/// The bytes of each message on the wire: postcard's encoding of the
/// original enums, the variant index of `Message` (request 0, response 1)
/// then the variant index of the request or response (heartbeat 0,
/// election 1, victory 2), one byte each; and no other pair of indices
/// names a message.
pub proof fn lemma_message_bytes(outer: u32, inner: u32)
    ensures
        message_bytes(Message::Request(Request::Heartbeat)) == seq![0u8, 0u8],
        message_bytes(Message::Request(Request::Election)) == seq![0u8, 1u8],
        message_bytes(Message::Request(Request::Victory)) == seq![0u8, 2u8],
        message_bytes(Message::Response(Response::Heartbeat)) == seq![1u8, 0u8],
        message_bytes(Message::Response(Response::Election)) == seq![1u8, 1u8],
        message_bytes(Message::Response(Response::Victory)) == seq![1u8, 2u8],
        (outer > 1 || inner > 2) ==> message_at(outer, inner) == Err::<Message, DecodeError>(
            DecodeError::UnknownVariant { outer, inner },
        ),
        decoding(None) == Err::<Message, DecodeError>(DecodeError::Malformed),
        decoding(Some((outer, inner))) == message_at(outer, inner),
{
    assert(message_bytes(Message::Request(Request::Heartbeat)) =~= seq![0u8, 0u8]);
    assert(message_bytes(Message::Request(Request::Election)) =~= seq![0u8, 1u8]);
    assert(message_bytes(Message::Request(Request::Victory)) =~= seq![0u8, 2u8]);
    assert(message_bytes(Message::Response(Response::Heartbeat)) =~= seq![1u8, 0u8]);
    assert(message_bytes(Message::Response(Response::Election)) =~= seq![1u8, 1u8]);
    assert(message_bytes(Message::Response(Response::Victory)) =~= seq![1u8, 2u8]);
}

impl Message {
    /// Whether handling the message compares the receiver's identifier with
    /// the sender's, which must then differ.
    pub fn compares_ids(&self) -> (r: bool)
        ensures
            r == compares_ids(*self),
    {
        !matches!(self, Message::Response(Response::Heartbeat) | Message::Response(Response::Victory))
    }

    /// The variant indices that the message travels as.
    pub fn indices(&self) -> (r: (u32, u32))
        ensures
            r == wire_indices(*self),
    {
        match self {
            Message::Request(Request::Heartbeat) => (0, 0),
            Message::Request(Request::Election) => (0, 1),
            Message::Request(Request::Victory) => (0, 2),
            Message::Response(Response::Heartbeat) => (1, 0),
            Message::Response(Response::Election) => (1, 1),
            Message::Response(Response::Victory) => (1, 2),
        }
    }
}

/// The message that a pair of variant indices stands for, or the indices
/// back in an error where they name none.
pub fn message_from_indices(outer: u32, inner: u32) -> (r: Result<Message, DecodeError>)
    ensures
        r == message_at(outer, inner),
{
    if outer == 0 && inner == 0 {
        Ok(Message::Request(Request::Heartbeat))
    } else if outer == 0 && inner == 1 {
        Ok(Message::Request(Request::Election))
    } else if outer == 0 && inner == 2 {
        Ok(Message::Request(Request::Victory))
    } else if outer == 1 && inner == 0 {
        Ok(Message::Response(Response::Heartbeat))
    } else if outer == 1 && inner == 1 {
        Ok(Message::Response(Response::Election))
    } else if outer == 1 && inner == 2 {
        Ok(Message::Response(Response::Victory))
    } else {
        Err(DecodeError::UnknownVariant { outer, inner })
    }
}

/// Encodes `message` with postcard into the front of `buffer`, returning the
/// number of bytes written; fails where the buffer is shorter than the
/// message. The bytes past the message are left as they were.
pub fn encode(message: &Message, buffer: &mut Vec<u8>) -> (r: Result<usize, EncodeError>)
    ensures
        final(buffer)@.len() == old(buffer)@.len(),
        r is Ok <==> old(buffer)@.len() >= message_bytes(*message).len(),
        r is Ok ==> r->Ok_0 == message_bytes(*message).len() && final(buffer)@.subrange(
            0,
            r->Ok_0 as int,
        ) == message_bytes(*message) && final(buffer)@.subrange(
            r->Ok_0 as int,
            final(buffer)@.len() as int,
        ) == old(buffer)@.subrange(r->Ok_0 as int, old(buffer)@.len() as int),
{
    let (outer, inner) = message.indices();
    match postcard_to_slice(outer, inner, buffer) {
        Ok(n) => {
            assert(final(buffer)@.subrange(0, 2) =~= message_bytes(*message));
            Ok(n)
        },
        Err(_) => Err(EncodeError::BufferTooSmall),
    }
}

/// Decodes a received payload with postcard. Postcard reads two variant
/// indices from the front and ignores what follows; the indices must name a
/// message. What `encode` writes decodes to the message it was given.
pub fn decode(payload: &[u8]) -> (r: Result<Message, DecodeError>)
    ensures
        r == decoding(postcard_pair_decoding(payload@)),
        payload@.len() < 2 ==> r == Err::<Message, DecodeError>(DecodeError::Malformed),
        payload@.len() >= 2 && payload@[0] < 128 && payload@[1] < 128 ==> r == message_at(
            payload@[0] as u32,
            payload@[1] as u32,
        ),
        forall|m: Message|
            payload@.len() >= 2 && #[trigger] message_bytes(m) == payload@.subrange(0, 2) ==> r
                == Ok::<Message, DecodeError>(m),
{
    match postcard_from_bytes(payload) {
        Ok(pair) => {
            let (outer, inner) = pair;
            let r = message_from_indices(outer, inner);
            assert forall|m: Message|
                payload@.len() >= 2 && #[trigger] message_bytes(m) == payload@.subrange(0, 2) implies r
                    == Ok::<Message, DecodeError>(m) by {
                assert(payload@[0] == message_bytes(m)[0]);
                assert(payload@[1] == message_bytes(m)[1]);
            }
            r
        },
        Err(_) => Err(DecodeError::Malformed),
    }
}

//////////////////////////////////////////////////////////////////////
// Postcard
//////////////////////////////////////////////////////////////////////

/// The error type of postcard.
#[verifier::external_type_specification]
#[verifier::external_body]
pub struct ExPostcardError(postcard::Error);

/// The bytes that postcard writes for the pair `(outer, inner)` of `u32`:
/// each number as a varint, one after the other.
pub uninterp spec fn postcard_pair_bytes(outer: u32, inner: u32) -> Seq<u8>;

/// The pair of `u32` that postcard reads from the front of `bytes`, where
/// it reads one.
pub uninterp spec fn postcard_pair_decoding(bytes: Seq<u8>) -> Option<(u32, u32)>;

/// Calls `postcard::to_slice` on the pair `(outer, inner)` with `buffer` as
/// the output slice. Claimed of it: it succeeds exactly when the encoding
/// fits, then writes the encoding at the front of the buffer, leaves the rest
/// of the buffer alone and returns the encoding's length; a number below 128
/// is encoded as the single byte of its value.
#[verifier::external_body]
fn postcard_to_slice(outer: u32, inner: u32, buffer: &mut Vec<u8>) -> (r: Result<usize, postcard::Error>)
    ensures
        final(buffer)@.len() == old(buffer)@.len(),
        r is Ok <==> postcard_pair_bytes(outer, inner).len() <= old(buffer)@.len(),
        r is Ok ==> r->Ok_0 == postcard_pair_bytes(outer, inner).len() && final(buffer)@.subrange(
            0,
            r->Ok_0 as int,
        ) == postcard_pair_bytes(outer, inner) && final(buffer)@.subrange(
            r->Ok_0 as int,
            final(buffer)@.len() as int,
        ) == old(buffer)@.subrange(r->Ok_0 as int, old(buffer)@.len() as int),
        outer < 128 && inner < 128 ==> (r is Ok <==> old(buffer)@.len() >= 2),
        r is Ok && outer < 128 && inner < 128 ==> r->Ok_0 == 2 && final(buffer)@[0] == outer as u8
            && final(buffer)@[1] == inner as u8,
{
    match postcard::to_slice(&(outer, inner), buffer.as_mut_slice()) {
        Ok(used) => Ok(used.len()),
        Err(e) => Err(e),
    }
}

/// Calls `postcard::from_bytes` for a pair of `u32`. Claimed of it: its
/// result is the pair that postcard reads from the front of `bytes`, or an
/// error where it reads none; fewer than two bytes never hold a pair, and
/// two bytes below 128 at the front are read as their values, whatever
/// follows them.
#[verifier::external_body]
fn postcard_from_bytes(bytes: &[u8]) -> (r: Result<(u32, u32), postcard::Error>)
    ensures
        r is Ok <==> postcard_pair_decoding(bytes@) is Some,
        r is Ok ==> postcard_pair_decoding(bytes@) == Some(r->Ok_0),
        bytes@.len() < 2 ==> r is Err,
        bytes@.len() >= 2 && bytes@[0] < 128 && bytes@[1] < 128 ==> r is Ok && r->Ok_0 == (
            bytes@[0] as u32,
            bytes@[1] as u32,
        ),
{
    postcard::from_bytes::<(u32, u32)>(bytes)
}

} // verus!
