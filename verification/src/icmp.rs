//! The echo session: one identifier, a running sequence number, and the
//! send time of every request that has not been answered yet.
//!
//! The session does no I/O of its own. It hands out the bytes of the next
//! request, is told when they went out, and is shown each datagram that
//! came in together with the time at which it came. Times are readings of
//! one monotonic clock, in nanoseconds.

use std::collections::HashMap;
use vstd::prelude::*;
use vstd::slice::slice_subrange;
use crate::packet::checksum::bytes_checksum;
use crate::packet::header::{
    lemma_header_parse_bytes, HeaderView, ECHO_REPLY_TYPE, ECHO_REQUEST_CODE, ECHO_REQUEST_TYPE,
    HEADER_SIZE,
};
use crate::packet::packet::{
    echo_data, lemma_decode_encode, lemma_encoded_checksum_is_zero, EchoRequest, EchoView,
};

verus! {

broadcast use vstd::std_specs::hash::group_hash_axioms;

pub const POLL_TIMEOUT_MS: i32 = 1000;

/// The length of the IPv4 header in front of a raw datagram: four times
/// the low nibble of its first byte.
pub open spec fn ip_header_len(datagram: Seq<u8>) -> int {
    if datagram.len() == 0 {
        0
    } else {
        (datagram[0] as int % 16) * 4
    }
}

/// What follows the IPv4 header in a raw datagram; nothing, where the
/// datagram is shorter than the header length it announces.
pub open spec fn ip_payload(datagram: Seq<u8>) -> Seq<u8> {
    if ip_header_len(datagram) <= datagram.len() {
        datagram.skip(ip_header_len(datagram))
    } else {
        Seq::empty()
    }
}

/// Strips the IPv4 header from a raw datagram. The header's length is read
/// from its length field, so IP options are skipped too.
pub fn strip_ip_header(datagram: &[u8]) -> (rest: &[u8])
    ensures
        rest@ == ip_payload(datagram@),
{
    let n: usize = datagram.len();
    if n == 0 {
        return datagram;
    }
    let first: u8 = datagram[0];
    let words: u8 = first & 0x0f;
    proof {
        assert(first & 0x0f == first % 16) by (bit_vector);
    }
    let offset: usize = words as usize * 4;
    if offset <= n {
        slice_subrange(datagram, offset, n)
    } else {
        slice_subrange(datagram, n, n)
    }
}

/// What a session holds, as plain values.
pub struct IcmpView {
    /// The session's identifier, the same in every request.
    pub id: u16,
    /// The sequence number used last; zero before the first request.
    pub seq: u16,
    /// The outstanding requests: for each sequence number sent and not yet
    /// answered, the time at which it went out.
    pub echoes: Map<u16, u64>,
}

impl IcmpView {
    /// The request prepared last: an echo request with code zero, under
    /// the session's identifier and the sequence number used last, without
    /// payload. Its checksum field is zero until it is encoded.
    pub open spec fn request(self) -> EchoView {
        EchoView {
            header: HeaderView {
                ttype: ECHO_REQUEST_TYPE,
                code: ECHO_REQUEST_CODE,
                checksum: 0,
                data: echo_data(self.id, self.seq),
            },
            payload: Seq::empty(),
        }
    }

    /// A session that has sent nothing yet.
    pub open spec fn fresh(id: u16) -> IcmpView {
        IcmpView { id, seq: 0, echoes: Map::empty() }
    }

    /// The session once the next request has been prepared.
    pub open spec fn after_request(self) -> IcmpView {
        IcmpView { seq: EchoView::seq_after(self.seq), ..self }
    }

    /// The session once the request prepared last has gone out at `now`.
    pub open spec fn after_sent(self, now: u64) -> IcmpView {
        IcmpView { echoes: self.echoes.insert(self.seq, now), ..self }
    }

    /// Whether a decoded message answers an outstanding request of this
    /// session: it is an echo reply, it carries the session's identifier,
    /// and a request with its sequence number is outstanding.
    pub open spec fn accepts(self, m: EchoView) -> bool {
        &&& m.id() == self.id
        &&& m.header.ttype == ECHO_REPLY_TYPE
        &&& self.echoes.contains_key(m.seq())
    }

    /// The message that a raw datagram carries and this session accepts,
    /// if there is one.
    pub open spec fn reply(self, datagram: Seq<u8>) -> Option<EchoView> {
        let bytes = ip_payload(datagram);
        if bytes.len() >= 8 && self.accepts(EchoView::parse(bytes)) {
            Some(EchoView::parse(bytes))
        } else {
            None
        }
    }

    /// The time from `sent` to `now`; zero where the clock reads earlier
    /// than `sent`.
    pub open spec fn elapsed(sent: u64, now: u64) -> u64 {
        if now >= sent {
            (now - sent) as u64
        } else {
            0
        }
    }

    /// The round-trip time of an accepted reply that came in at `now`.
    pub open spec fn round_trip(self, m: EchoView, now: u64) -> u64 {
        Self::elapsed(self.echoes[m.seq()], now)
    }

    /// Whether a request sent at `sent` is stale at `now`: more than
    /// `max_age` has passed since.
    pub open spec fn stale(sent: u64, now: u64, max_age: u64) -> bool {
        Self::elapsed(sent, now) > max_age
    }

    /// The session once the stale requests have been given up.
    pub open spec fn pruned(self, now: u64, max_age: u64) -> IcmpView {
        IcmpView {
            echoes: Map::new(
                |seq: u16|
                    self.echoes.contains_key(seq) && !Self::stale(self.echoes[seq], now, max_age),
                |seq: u16| self.echoes[seq],
            ),
            ..self
        }
    }

    /// The session once a raw datagram has been looked at: an accepted
    /// reply settles its request, anything else changes nothing.
    pub open spec fn after_datagram(self, datagram: Seq<u8>) -> IcmpView {
        match self.reply(datagram) {
            Some(m) => IcmpView { echoes: self.echoes.remove(m.seq()), ..self },
            None => self,
        }
    }
}

/// The state behind sending echo requests and matching their replies.
pub struct Icmp {
    id: u16,
    seq: u16,
    echoes: HashMap<u16, u64>,
}

impl View for Icmp {
    type V = IcmpView;

    closed spec fn view(&self) -> IcmpView {
        IcmpView { id: self.id, seq: self.seq, echoes: self.echoes@ }
    }
}

/// Calls `rand::random::<u16>()`, which draws a value from the thread's
/// random number generator. Nothing is claimed of the value.
#[verifier::external_body]
fn random_id() -> u16 {
    rand::random()
}

impl Icmp {
    /// Creates a new session under an identifier chosen at random.
    pub fn new() -> (icmp: Icmp)
        ensures
            icmp@ == IcmpView::fresh(icmp@.id),
    {
        Icmp::with_id(random_id())
    }

    /// Creates a new session under the identifier `id`.
    pub fn with_id(id: u16) -> (icmp: Icmp)
        ensures
            icmp@ == IcmpView::fresh(id),
    {
        let icmp = Icmp { id, seq: 0, echoes: HashMap::new() };
        proof {
            assert(icmp@.echoes =~= Map::empty());
        }
        icmp
    }

    /// Returns the session's identifier.
    pub fn id(&self) -> (id: u16)
        ensures
            id == self@.id,
    {
        self.id
    }

    /// Returns the sequence number used last; zero before the first request.
    pub fn seq(&self) -> (seq: u16)
        ensures
            seq == self@.seq,
    {
        self.seq
    }

    /// Prepares an echo request with an incrementing sequence number, and
    /// returns its bytes, ready to be sent: the eight bytes of an echo
    /// request with code zero, under the session's identifier and the new
    /// sequence number, with its checksum. The sequence number is used up
    /// whether or not the bytes ever go out.
    pub fn echo_request(&mut self) -> (bytes: Vec<u8>)
        ensures
            final(self)@ == old(self)@.after_request(),
            bytes@ == final(self)@.request().encode(),
            bytes@.len() == HEADER_SIZE,
            bytes@[0] == ECHO_REQUEST_TYPE,
            bytes@[1] == ECHO_REQUEST_CODE,
    {
        let mut echo = EchoRequest::with_payload(ECHO_REQUEST_TYPE, self.id, self.seq, Vec::new());
        echo.inc_seq();
        proof {
            lemma_next_request(old(self)@);
        }
        self.seq = echo.seq();
        let bytes = echo.encode();
        proof {
            lemma_decode_encode(self@.request());
            lemma_header_parse_bytes(self@.request().with_own_checksum().header);
        }
        bytes
    }

    /// Records that the request prepared last went out at `now`, and
    /// returns its sequence number.
    pub fn sent(&mut self, now: u64) -> (seq: u16)
        ensures
            final(self)@ == old(self)@.after_sent(now),
            seq == old(self)@.seq,
    {
        let seq = self.seq;
        self.echoes.insert(seq, now);
        seq
    }

    /// Tells whether a request with sequence number `seq` is outstanding.
    pub fn is_outstanding(&self, seq: u16) -> (outstanding: bool)
        ensures
            outstanding == self@.echoes.contains_key(seq),
    {
        self.echoes.contains_key(&seq)
    }

    /// Gives up every outstanding request sent more than `max_age` before
    /// `now`: a reply to one of them is passed over from then on. The other
    /// requests stay as they are.
    pub fn prune(&mut self, now: u64, max_age: u64)
        ensures
            final(self)@ == old(self)@.pruned(now, max_age),
    {
        let mut seq: u16 = 0;
        let mut more = true;
        while more
            invariant
                self@.id == old(self)@.id,
                self@.seq == old(self)@.seq,
                forall|k: u16|
                    #![trigger self@.echoes.contains_key(k)]
                    self@.echoes.contains_key(k) ==> old(self)@.echoes.contains_key(k)
                        && self@.echoes[k] == old(self)@.echoes[k],
                forall|k: u16|
                    #![trigger old(self)@.echoes.contains_key(k)]
                    old(self)@.echoes.contains_key(k) ==> self@.echoes.contains_key(k)
                        || IcmpView::stale(old(self)@.echoes[k], now, max_age),
                forall|k: u16|
                    #![trigger old(self)@.echoes.contains_key(k)]
                    old(self)@.echoes.contains_key(k) && (k < seq || !more) && IcmpView::stale(
                        old(self)@.echoes[k],
                        now,
                        max_age,
                    ) ==> !self@.echoes.contains_key(k),
            decreases u16::MAX - seq + (if more { 1int } else { 0int }),
        {
            let stale = match self.echoes.get(&seq) {
                Some(sent) => now > *sent && now - *sent > max_age,
                None => false,
            };
            if stale {
                let ghost before = self@.echoes;
                self.echoes.remove(&seq);
                proof {
                    assert(self@.echoes == before.remove(seq));
                }
            }
            if seq == u16::MAX {
                more = false;
            } else {
                seq = seq + 1;
            }
        }
        proof {
            assert(self@.echoes =~= old(self)@.pruned(now, max_age).echoes);
        }
    }

    /// Looks at one raw datagram that came in at `now`. Where it carries an
    /// echo reply to an outstanding request of this session, returns the
    /// reply and the time elapsed between sending the request and receiving
    /// its reply, and the request is outstanding no longer. Anything else
    /// is passed over: a datagram too short to decode, a message that is no
    /// echo reply, one under another identifier, and a reply to a sequence
    /// number that is not outstanding.
    pub fn get_echo_reply(&mut self, datagram: &[u8], now: u64) -> (reply: Option<
        (EchoRequest, u64),
    >)
        ensures
            final(self)@ == old(self)@.after_datagram(datagram@),
            match old(self)@.reply(datagram@) {
                Some(m) => reply is Some && reply->Some_0.0@ == m && reply->Some_0.1 == old(
                    self,
                )@.round_trip(m, now),
                None => reply is None,
            },
    {
        let echo = match EchoRequest::decode(strip_ip_header(datagram)) {
            Err(_) => {
                return None;
            },
            Ok(echo) => echo,
        };
        // verify the echo reply is one of ours
        if echo.id() != self.id {
            return None;
        }
        if !echo.is_reply() {
            return None;
        }
        let seq = echo.seq();
        match self.echoes.remove(&seq) {
            None => {
                proof {
                    assert(self@.echoes =~= old(self)@.echoes);
                }
                None
            },
            Some(sent) => {
                let time = if now >= sent {
                    now - sent
                } else {
                    0
                };
                Some((echo, time))
            },
        }
    }
}

/// A raw datagram made of an IPv4 header and a body, whose header
/// announces its own length, yields the body when the header is stripped.
pub proof fn lemma_ip_payload_of_concat(header: Seq<u8>, body: Seq<u8>)
    requires
        header.len() > 0,
        header.len() == (header[0] as int % 16) * 4,
    ensures
        ip_payload(header + body) == body,
{
    assert((header + body)[0] == header[0]);
    assert((header + body).skip(header.len() as int) =~= body);
}

/// A message under another identifier is never accepted, whatever its
/// sequence number, and leaves the session as it was.
pub proof fn lemma_other_identifier_is_ignored(session: IcmpView, datagram: Seq<u8>)
    requires
        ip_payload(datagram).len() >= 8,
        EchoView::parse(ip_payload(datagram)).id() != session.id,
    ensures
        session.reply(datagram) is None,
        session.after_datagram(datagram) == session,
{
}

/// A datagram that carries no acceptable reply leaves the session as it
/// was; an accepted reply takes exactly its own request out of the
/// outstanding ones.
pub proof fn lemma_datagram_settles_at_most_one(session: IcmpView, datagram: Seq<u8>, seq: u16)
    ensures
        session.after_datagram(datagram).id == session.id,
        session.after_datagram(datagram).seq == session.seq,
        session.after_datagram(datagram).echoes.contains_key(seq) <==> session.echoes.contains_key(
            seq,
        ) && !(session.reply(datagram) matches Some(m) && m.seq() == seq),
        session.after_datagram(datagram).echoes.contains_key(seq)
            ==> session.after_datagram(datagram).echoes[seq] == session.echoes[seq],
{
}

/// A request that went out at `t0` and whose reply comes in at `t1`, not
/// before `t0`, is matched with a round-trip time of `t1 - t0`. The request
/// is then outstanding no longer, so the same reply coming in again is
/// passed over.
pub proof fn lemma_reply_is_matched_once(
    session: IcmpView,
    t0: u64,
    datagram: Seq<u8>,
    t1: u64,
)
    requires
        t0 <= t1,
        ip_payload(datagram).len() >= 8,
        EchoView::parse(ip_payload(datagram)).header.ttype == ECHO_REPLY_TYPE,
        EchoView::parse(ip_payload(datagram)).id() == session.id,
        EchoView::parse(ip_payload(datagram)).seq() == session.seq,
    ensures
        ({
            let reply = EchoView::parse(ip_payload(datagram));
            let sent = session.after_sent(t0);
            let settled = sent.after_datagram(datagram);
            &&& sent.reply(datagram) == Some(reply)
            &&& sent.round_trip(reply, t1) == t1 - t0
            &&& settled.echoes == session.echoes.remove(session.seq)
            &&& !settled.echoes.contains_key(session.seq)
            &&& settled.reply(datagram) is None
            &&& settled.after_datagram(datagram) == settled
        }),
{
    let sent = session.after_sent(t0);
    let settled = sent.after_datagram(datagram);
    assert(settled.echoes =~= session.echoes.remove(session.seq));
}

/// Preparing a request moves the sequence number on by one, wrapping from
/// 65535 to 0, and keeps the identifier; recording it as sent makes
/// exactly that sequence number outstanding, with the time given.
pub proof fn lemma_request_uses_next_sequence(session: IcmpView, now: u64)
    ensures
        session.after_request().id == session.id,
        session.after_request().seq == EchoView::seq_after(session.seq),
        session.after_request().echoes == session.echoes,
        session.after_request().after_sent(now).echoes == session.echoes.insert(
            EchoView::seq_after(session.seq),
            now,
        ),
{
}

/// The request that follows the one prepared last differs from it in the
/// sequence number alone, which is the next one.
pub proof fn lemma_next_request(session: IcmpView)
    ensures
        session.request().id() == session.id,
        session.request().seq() == session.seq,
        session.request().with_next_seq() == session.after_request().request(),
{
}

/// What a session sends is an echo request, whatever state the session is
/// in: eight bytes that begin with type 8 and code 0, carry the session's
/// identifier and the sequence number used last, hold no payload, and check
/// out as zero under the Internet Checksum.
pub proof fn lemma_request_is_echo_request(session: IcmpView)
    ensures
        session.request().id() == session.id,
        session.request().seq() == session.seq,
        session.request().encode().len() == HEADER_SIZE,
        session.request().encode()[0] == ECHO_REQUEST_TYPE,
        session.request().encode()[1] == ECHO_REQUEST_CODE,
        EchoView::parse(session.request().encode()).id() == session.id,
        EchoView::parse(session.request().encode()).seq() == session.seq,
        EchoView::parse(session.request().encode()).payload == Seq::<u8>::empty(),
        bytes_checksum(session.request().encode()) == 0,
{
    let m = session.request();
    lemma_decode_encode(m);
    lemma_encoded_checksum_is_zero(m);
    lemma_header_parse_bytes(m.with_own_checksum().header);
}

} // verus!
