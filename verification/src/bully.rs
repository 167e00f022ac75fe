use crate::led::Mode;
use vstd::prelude::*;
use vstd::string::StringExecFns;

verus! {

/// How long a starting node listens before it runs for leader, in milliseconds.
pub const INITIALIZATION_TIMEOUT: u64 = 2000;

/// How often a leader sends its heartbeat, in milliseconds.
pub const HEARTBEAT_INTERVAL: u64 = 500;

/// How long a follower waits for a heartbeat before it runs for leader, in milliseconds.
pub const LEADER_TIMEOUT: u64 = 2000;

/// How long a candidate waits for a veto at the least, in milliseconds.
pub const CANDIDATE_WAIT: u64 = 500;

/// A node identifier: the node's six-byte station MAC address.
#[derive(Clone, Copy, Debug, PartialEq, Eq, PartialOrd, Ord, Hash)]
pub struct Id(pub [u8; 6]);

impl Id {
    /// The identifier of no node: all bytes zero.
    pub fn unknown() -> (r: Id)
        ensures
            r.bytes() == seq![0u8, 0u8, 0u8, 0u8, 0u8, 0u8],
    {
        let r = Id([0u8; 6]);
        assert(r.bytes() =~= seq![0u8, 0u8, 0u8, 0u8, 0u8, 0u8]);
        r
    }

    /// The ESP-NOW broadcast address: all bytes `0xff`.
    pub fn broadcast() -> (r: Id)
        ensures
            r.bytes() == seq![0xffu8, 0xffu8, 0xffu8, 0xffu8, 0xffu8, 0xffu8],
    {
        let r = Id([0xffu8; 6]);
        assert(r.bytes() =~= seq![0xffu8, 0xffu8, 0xffu8, 0xffu8, 0xffu8, 0xffu8]);
        r
    }

    /// The bytes of the identifier as a sequence.
    pub open spec fn bytes(self) -> Seq<u8> {
        self.0@
    }

    /// The identifier as six two-digit lowercase hexadecimal numbers joined by
    /// colons, the form in which nodes report and log it.
    pub fn text(&self) -> (s: String)
        ensures
            s@ == id_text(self.bytes()),
    {
        let mut s = String::new();
        let mut i: usize = 0;
        while i < 6
            invariant
                0 <= i <= 6,
                self.bytes().len() == 6,
                s@ == hex_pairs(self.bytes(), i as nat),
            decreases 6 - i,
        {
            if i > 0 {
                s.push(':');
            }
            let b = self.0[i];
            push_hex_digit(&mut s, b / 16);
            push_hex_digit(&mut s, b % 16);
            assert(s@ =~= hex_pairs(self.bytes(), (i + 1) as nat));
            i = i + 1;
        }
        s
    }

    /// `self` orders strictly before `other`, byte by byte from the first.
    pub open spec fn precedes(self, other: Id) -> bool {
        lex_less(self.bytes(), other.bytes())
    }
}

impl From<[u8; 6]> for Id {
    fn from(value: [u8; 6]) -> (r: Id) {
        Id(value)
    }
}

impl vstd::std_specs::convert::FromSpecImpl<[u8; 6]> for Id {
    open spec fn obeys_from_spec() -> bool {
        true
    }

    open spec fn from_spec(v: [u8; 6]) -> Id {
        Id(v)
    }
}

impl From<Id> for [u8; 6] {
    fn from(value: Id) -> (r: [u8; 6]) {
        value.0
    }
}

impl vstd::std_specs::convert::FromSpecImpl<Id> for [u8; 6] {
    open spec fn obeys_from_spec() -> bool {
        true
    }

    open spec fn from_spec(v: Id) -> [u8; 6] {
        v.0
    }
}

/// `a` comes strictly before `b` in lexicographic byte order.
pub open spec fn lex_less(a: Seq<u8>, b: Seq<u8>) -> bool {
    exists|i: int|
        0 <= i < a.len() && i < b.len() && a.subrange(0, i) == b.subrange(0, i) && #[trigger] a[i] < b[i]
}

/// Turning the bytes of a station address into an identifier and back gives
/// the bytes, and an identifier into bytes and back gives the identifier.
pub proof fn lemma_id_conversion_round_trip(bytes: [u8; 6], id: Id)
    ensures
        <[u8; 6] as vstd::std_specs::convert::FromSpec<Id>>::from_spec(
            <Id as vstd::std_specs::convert::FromSpec<[u8; 6]>>::from_spec(bytes),
        ) == bytes,
        <Id as vstd::std_specs::convert::FromSpec<[u8; 6]>>::from_spec(
            <[u8; 6] as vstd::std_specs::convert::FromSpec<Id>>::from_spec(id),
        ) == id,
{
}

proof fn lemma_first_difference(a: Seq<u8>, b: Seq<u8>, k: int)
    requires
        a.len() == b.len(),
        a != b,
        0 <= k <= a.len(),
        a.subrange(0, k) == b.subrange(0, k),
    ensures
        lex_less(a, b) || lex_less(b, a),
    decreases a.len() - k,
{
    if k == a.len() {
        assert(a =~= a.subrange(0, k));
        assert(b =~= b.subrange(0, k));
    } else if a[k] < b[k] {
        assert(lex_less(a, b));
    } else if b[k] < a[k] {
        assert(lex_less(b, a));
    } else {
        assert(a.subrange(0, k + 1) =~= a.subrange(0, k).push(a[k]));
        assert(b.subrange(0, k + 1) =~= b.subrange(0, k).push(b[k]));
        lemma_first_difference(a, b, k + 1);
    }
}

/// Lexicographic order on identifiers is a strict total order: no identifier
/// precedes itself, of two identifiers at most one precedes the other, of two
/// different identifiers one precedes the other, and precedence is transitive.
/// The election relies on it to rank every pair of distinct nodes.
pub proof fn lemma_id_order_is_total(a: Id, b: Id, c: Id)
    ensures
        !a.precedes(a),
        a.precedes(b) ==> !b.precedes(a),
        a.bytes() != b.bytes() ==> a.precedes(b) || b.precedes(a),
        a.precedes(b) && b.precedes(c) ==> a.precedes(c),
{
    if a.precedes(b) && b.precedes(a) {
        let i = choose|i: int|
            0 <= i < a.bytes().len() && i < b.bytes().len() && a.bytes().subrange(0, i) == b.bytes().subrange(0, i)
                && #[trigger] a.bytes()[i] < b.bytes()[i];
        let j = choose|j: int|
            0 <= j < b.bytes().len() && j < a.bytes().len() && b.bytes().subrange(0, j) == a.bytes().subrange(0, j)
                && #[trigger] b.bytes()[j] < a.bytes()[j];
        if i < j {
            assert(a.bytes().subrange(0, j)[i] == b.bytes().subrange(0, j)[i]);
        } else if j < i {
            assert(a.bytes().subrange(0, i)[j] == b.bytes().subrange(0, i)[j]);
        }
    }
    if a.bytes() != b.bytes() {
        assert(a.bytes().subrange(0, 0) =~= b.bytes().subrange(0, 0));
        lemma_first_difference(a.bytes(), b.bytes(), 0);
    }
    if a.precedes(b) && b.precedes(c) {
        let (x, y, z) = (a.bytes(), b.bytes(), c.bytes());
        let i = choose|i: int|
            0 <= i < x.len() && i < y.len() && x.subrange(0, i) == y.subrange(0, i) && #[trigger] x[i] < y[i];
        let j = choose|j: int|
            0 <= j < y.len() && j < z.len() && y.subrange(0, j) == z.subrange(0, j) && #[trigger] y[j] < z[j];
        if i < j {
            assert(y.subrange(0, j)[i] == z.subrange(0, j)[i]);
            assert(y.subrange(0, i) =~= y.subrange(0, j).subrange(0, i));
            assert(z.subrange(0, i) =~= z.subrange(0, j).subrange(0, i));
            assert(x[i] < z[i]);
        } else if j < i {
            assert(x.subrange(0, i)[j] == y.subrange(0, i)[j]);
            assert(x.subrange(0, j) =~= x.subrange(0, i).subrange(0, j));
            assert(y.subrange(0, j) =~= y.subrange(0, i).subrange(0, j));
            assert(x[j] < z[j]);
        } else {
            assert(x[i] < z[i]);
        }
    }
}

/// `std::string::String::push` appends one character to the end of the string.
pub assume_specification[ std::string::String::push ](s: &mut String, ch: char)
    ensures
        final(s)@ == old(s)@.push(ch),
;

/// The lowercase hexadecimal digit for a value below sixteen.
pub open spec fn hex_digit(n: int) -> char {
    if n < 10 {
        (n + 48) as char
    } else {
        (n + 87) as char
    }
}

/// A byte as two lowercase hexadecimal digits, the high one first.
pub open spec fn byte_text(b: u8) -> Seq<char> {
    seq![hex_digit(b as int / 16), hex_digit(b as int % 16)]
}

/// The first `n` bytes of `b` as hexadecimal pairs joined by colons.
pub open spec fn hex_pairs(b: Seq<u8>, n: nat) -> Seq<char>
    decreases n,
{
    if n == 0 {
        seq![]
    } else if n == 1 {
        byte_text(b[0])
    } else {
        hex_pairs(b, (n - 1) as nat) + seq![':'] + byte_text(b[n - 1])
    }
}

/// The text of an identifier, as in `a4:cf:12:00:be:ef`.
pub open spec fn id_text(b: Seq<u8>) -> Seq<char> {
    hex_pairs(b, 6)
}

proof fn lemma_hex_pairs_layout(b: Seq<u8>, n: nat)
    requires
        1 <= n <= b.len(),
    ensures
        hex_pairs(b, n).len() == 3 * n - 1,
        forall|k: int|
            0 <= k < n ==> #[trigger] hex_pairs(b, n)[3 * k] == hex_digit(b[k] as int / 16)
                && hex_pairs(b, n)[3 * k + 1] == hex_digit(b[k] as int % 16),
        forall|k: int| 0 <= k < n - 1 ==> #[trigger] hex_pairs(b, n)[3 * k + 2] == ':',
    decreases n,
{
    if n > 1 {
        lemma_hex_pairs_layout(b, (n - 1) as nat);
        let prev = hex_pairs(b, (n - 1) as nat);
        assert forall|k: int| 0 <= k < n implies #[trigger] hex_pairs(b, n)[3 * k] == hex_digit(b[k] as int / 16)
            && hex_pairs(b, n)[3 * k + 1] == hex_digit(b[k] as int % 16) by {
            if k < n - 1 {
                assert(hex_pairs(b, n)[3 * k] == prev[3 * k]);
                assert(hex_pairs(b, n)[3 * k + 1] == prev[3 * k + 1]);
            }
        }
        assert forall|k: int| 0 <= k < n - 1 implies #[trigger] hex_pairs(b, n)[3 * k + 2] == ':' by {
            if k < n - 2 {
                assert(hex_pairs(b, n)[3 * k + 2] == prev[3 * k + 2]);
            }
        }
    }
}

proof fn lemma_hex_digit_injective(x: int, y: int)
    requires
        0 <= x < 16,
        0 <= y < 16,
        hex_digit(x) == hex_digit(y),
    ensures
        x == y,
{
    assert((x + 48) as char as int == x + 48);
    assert((y + 48) as char as int == y + 48);
    assert((x + 87) as char as int == x + 87);
    assert((y + 87) as char as int == y + 87);
}

/// The text of an identifier has seventeen ASCII characters, hexadecimal
/// digit pairs at fixed places with colons between them, and tells
/// identifiers apart: two identifiers with the same text are the same.
pub proof fn lemma_id_text_is_faithful(a: Id, b: Id)
    ensures
        id_text(a.bytes()).len() == 17,
        vstd::utf8::is_ascii_chars(id_text(a.bytes())),
        id_text(a.bytes()) == id_text(b.bytes()) ==> a == b,
{
    lemma_hex_pairs_layout(a.bytes(), 6);
    lemma_hex_pairs_layout(b.bytes(), 6);
    let t = id_text(a.bytes());
    assert forall|i: int| 0 <= i < t.len() implies '\0' <= #[trigger] t[i] <= '\u{7f}' by {
        let k = i / 3;
        assert(0 <= k < 6);
        if i % 3 == 0 {
            assert(t[3 * k] == hex_digit(a.bytes()[k] as int / 16));
        } else if i % 3 == 1 {
            assert(t[3 * k] == hex_digit(a.bytes()[k] as int / 16));
            assert(t[3 * k + 1] == hex_digit(a.bytes()[k] as int % 16));
        } else {
            assert(t[3 * k + 2] == ':');
        }
    }
    if id_text(a.bytes()) == id_text(b.bytes()) {
        assert forall|k: int| 0 <= k < 6 implies a.bytes()[k] == b.bytes()[k] by {
            assert(id_text(a.bytes())[3 * k] == id_text(b.bytes())[3 * k]);
            assert(id_text(a.bytes())[3 * k + 1] == id_text(b.bytes())[3 * k + 1]);
            lemma_hex_digit_injective(a.bytes()[k] as int / 16, b.bytes()[k] as int / 16);
            lemma_hex_digit_injective(a.bytes()[k] as int % 16, b.bytes()[k] as int % 16);
        }
        assert(a.bytes() =~= b.bytes());
        broadcast use vstd::array::axiom_array_ext_equal;
        assert(a.0 == b.0);
    }
}

/// The value that a lowercase hexadecimal digit stands for, or -1 for any
/// other character.
pub open spec fn hex_value(c: char) -> int {
    if '0' <= c && c <= '9' {
        c as int - '0' as int
    } else if 'a' <= c && c <= 'f' {
        c as int - 'a' as int + 10
    } else {
        -1
    }
}

/// The digit written for a value below sixteen is a lowercase hexadecimal
/// digit, `0` to `9` for the values below ten and `a` to `f` for the rest,
/// and it stands for that value.
pub proof fn lemma_hex_digit(n: int)
    requires
        0 <= n < 16,
    ensures
        n < 10 ==> '0' <= hex_digit(n) && hex_digit(n) <= '9',
        n >= 10 ==> 'a' <= hex_digit(n) && hex_digit(n) <= 'f',
        hex_value(hex_digit(n)) == n,
{
    assert((n + 48) as char as int == n + 48);
    assert((n + 87) as char as int == n + 87);
}

/// The text of an identifier is its six bytes in order, each as two
/// lowercase hexadecimal digits, the high one first, with a colon after
/// each pair but the last.
pub proof fn lemma_id_text_layout(id: Id, k: int)
    requires
        0 <= k < 6,
    ensures
        id_text(id.bytes()).len() == 17,
        hex_value(id_text(id.bytes())[3 * k]) * 16 + hex_value(id_text(id.bytes())[3 * k + 1])
            == id.bytes()[k] as int,
        0 <= hex_value(id_text(id.bytes())[3 * k]) && 0 <= hex_value(id_text(id.bytes())[3 * k + 1]),
        !('A' <= id_text(id.bytes())[3 * k] && id_text(id.bytes())[3 * k] <= 'F'),
        !('A' <= id_text(id.bytes())[3 * k + 1] && id_text(id.bytes())[3 * k + 1] <= 'F'),
        k < 5 ==> id_text(id.bytes())[3 * k + 2] == ':',
{
    lemma_hex_pairs_layout(id.bytes(), 6);
    let b = id.bytes()[k] as int;
    lemma_hex_digit(b / 16);
    lemma_hex_digit(b % 16);
    assert(id_text(id.bytes())[3 * k] == hex_digit(b / 16));
    assert(id_text(id.bytes())[3 * k + 1] == hex_digit(b % 16));
}

/// An identifier precedes another when, at the first byte where they
/// differ, its byte is the smaller one: equal bytes up to `k` and a smaller
/// byte at `k` make `a` precede `b`, and a greater byte at `k` makes `b`
/// precede `a`.
pub proof fn lemma_id_order_by_bytes(a: Id, b: Id, k: int)
    requires
        0 <= k < 6,
        forall|j: int| 0 <= j < k ==> a.bytes()[j] == b.bytes()[j],
    ensures
        a.bytes()[k] < b.bytes()[k] ==> a.precedes(b) && !b.precedes(a),
        a.bytes()[k] > b.bytes()[k] ==> b.precedes(a) && !a.precedes(b),
{
    assert(a.bytes().subrange(0, k) =~= b.bytes().subrange(0, k));
    if a.bytes()[k] < b.bytes()[k] {
        assert(a.precedes(b));
        lemma_id_order_is_total(a, b, a);
    }
    if a.bytes()[k] > b.bytes()[k] {
        assert(b.precedes(a));
        lemma_id_order_is_total(b, a, b);
    }
}

fn push_hex_digit(s: &mut String, n: u8)
    requires
        n < 16,
    ensures
        final(s)@ == old(s)@.push(hex_digit(n as int)),
{
    let c: char = if n < 10 {
        (n + 48) as char
    } else {
        (n + 87) as char
    };
    s.push(c);
}

impl Id {
    /// Whether `self` orders strictly before `other`.
    pub fn comes_before(&self, other: &Id) -> (r: bool)
        ensures
            r == self.precedes(*other),
    {
        id_less(self, other)
    }
}

fn id_less(a: &Id, b: &Id) -> (r: bool)
    ensures
        r == lex_less(a.bytes(), b.bytes()),
{
    let mut i: usize = 0;
    while i < 6
        invariant
            0 <= i <= 6,
            a.bytes().len() == 6,
            b.bytes().len() == 6,
            a.bytes().subrange(0, i as int) == b.bytes().subrange(0, i as int),
        decreases 6 - i,
    {
        if a.0[i] < b.0[i] {
            assert(a.bytes().subrange(0, i as int) == b.bytes().subrange(0, i as int));
            return true;
        }
        if a.0[i] > b.0[i] {
            proof {
                assert forall|j: int| 0 <= j < 6 && a.bytes().subrange(0, j) == b.bytes().subrange(0, j)
                    implies !(#[trigger] a.bytes()[j] < b.bytes()[j]) by {
                    if j < i {
                        assert(a.bytes().subrange(0, i as int)[j] == a.bytes()[j]);
                        assert(b.bytes().subrange(0, i as int)[j] == b.bytes()[j]);
                    } else if j > i {
                        assert(a.bytes().subrange(0, j)[i as int] == b.bytes().subrange(0, j)[i as int]);
                    }
                }
            }
            return false;
        }
        assert(a.bytes().subrange(0, i + 1) =~= a.bytes().subrange(0, i as int).push(a.bytes()[i as int]));
        assert(b.bytes().subrange(0, i + 1) =~= b.bytes().subrange(0, i as int).push(b.bytes()[i as int]));
        i = i + 1;
    }
    proof {
        assert(a.bytes() =~= a.bytes().subrange(0, 6));
        assert(b.bytes() =~= b.bytes().subrange(0, 6));
        assert forall|j: int| 0 <= j < 6 && a.bytes().subrange(0, j) == b.bytes().subrange(0, j)
            implies !(#[trigger] a.bytes()[j] < b.bytes()[j]) by {}
    }
    false
}

//////////////////////////////////////////////////////////////////////
// Role and State
//////////////////////////////////////////////////////////////////////

/// The part a node plays in the election.
#[derive(Clone, Copy, Debug, PartialEq, Eq)]
pub enum Role {
    /// Just started, listening before taking part.
    Initializing,
    /// Follows `leader`, whose heartbeats it watches.
    Follower { leader: Id },
    /// Runs for leader and waits for a veto.
    Candidate,
    /// Leads and sends heartbeats.
    Leader,
}

/// The election state of a node.
#[derive(Clone, Copy, Debug, PartialEq, Eq)]
pub struct State {
    pub role: Role,
}

impl Default for State {
    /// A node starts initializing.
    fn default() -> (s: State)
        ensures
            s.role == Role::Initializing,
    {
        State { role: Role::Initializing }
    }
}

/// The text of a role, as nodes report it.
pub open spec fn role_text(role: Role) -> Seq<char> {
    match role {
        Role::Initializing => "initializing"@,
        Role::Follower { leader } => "follower("@ + id_text(leader.bytes()) + seq![')'],
        Role::Candidate => "candidate"@,
        Role::Leader => "leader"@,
    }
}

impl Role {
    /// The role as text: `initializing`, `candidate`, `leader`, or
    /// `follower(..)` with the leader's identifier in the brackets.
    pub fn text(&self) -> (s: String)
        ensures
            s@ == role_text(*self),
    {
        match self {
            Role::Initializing => String::from_str("initializing"),
            Role::Follower { leader } => {
                let mut s = String::from_str("follower(");
                let id = leader.text();
                s.append(id.as_str());
                s.push(')');
                s
            },
            Role::Candidate => String::from_str("candidate"),
            Role::Leader => String::from_str("leader"),
        }
    }
}

/// The LED mode that shows a role.
pub open spec fn mode_of(role: Role) -> Mode {
    match role {
        Role::Initializing => Mode::SteadyOff,
        Role::Follower { .. } => Mode::SlowBlink,
        Role::Candidate => Mode::QuickBlink,
        Role::Leader => Mode::SteadyOn,
    }
}

impl<'a> From<&'a Role> for Mode {
    fn from(value: &'a Role) -> (r: Mode) {
        match value {
            Role::Initializing => Mode::SteadyOff,
            Role::Follower { .. } => Mode::SlowBlink,
            Role::Candidate => Mode::QuickBlink,
            Role::Leader => Mode::SteadyOn,
        }
    }
}

impl<'a> vstd::std_specs::convert::FromSpecImpl<&'a Role> for Mode {
    open spec fn obeys_from_spec() -> bool {
        true
    }

    open spec fn from_spec(v: &'a Role) -> Mode {
        mode_of(*v)
    }
}

/// The text of each role: `initializing`, `candidate`, `leader`, and
/// `follower(` with the leader's identifier text and `)` for a follower.
pub proof fn lemma_role_text(leader: Id)
    ensures
        role_text(Role::Initializing) == "initializing"@,
        role_text(Role::Candidate) == "candidate"@,
        role_text(Role::Leader) == "leader"@,
        role_text(Role::Follower { leader }) == "follower("@ + id_text(leader.bytes()) + seq![')'],
{
}

/// The LED mode of each role: off while initializing, a slow blink while
/// following, a quick blink while a candidate, steadily on while leading.
pub proof fn lemma_role_modes(leader: Id)
    ensures
        mode_of(Role::Initializing) == Mode::SteadyOff,
        mode_of(Role::Follower { leader }) == Mode::SlowBlink,
        mode_of(Role::Candidate) == Mode::QuickBlink,
        mode_of(Role::Leader) == Mode::SteadyOn,
{
}

} // verus!
