//! Request/reply/event correlation for one connection.
//!
//! A connection owns the sequence counter, the pending-request table, the
//! queued-event buffer and the extension opcode cache. Issuing a request
//! assigns the next sequence number and returns a cookie embedding it;
//! delivering a received buffer demultiplexes it as a reply, a protocol
//! error or an event; resolving a cookie redeems it exactly once for the
//! matching reply or error. Transport itself (socket reads and writes) stays
//! outside: callers feed received buffers in through [`Connection::deliver`]
//! and drain outgoing request bytes through [`Connection::next_outgoing`].

use vstd::prelude::*;
use crate::wire::{u16_le, u16_at, u32_at, pad4, push_u16_le, push_bytes, push_zeros};
use crate::error::{XError, ProtocolError, error_of};

verus! {

/// How a pending request is correlated: whether it expects a reply payload
/// and whether protocol errors are surfaced through its cookie (checked) or
/// through the out-of-band event stream (unchecked).
#[derive(Clone, Copy, PartialEq, Eq, Structural, Debug)]
pub enum PendingKind {
    /// Expects a reply; `checked` decides where an error for it surfaces.
    Reply { checked: bool },
    /// No reply payload, but the caller waits for an acknowledgment or a
    /// protocol error.
    VoidChecked,
    /// No reply payload and errors are deliberately suppressed; nothing is
    /// entered into the correlation table.
    VoidUnchecked,
}

/// True iff requests of this kind occupy an entry in the correlation table.
pub open spec fn registers(kind: PendingKind) -> bool {
    !(kind is VoidUnchecked)
}

/// Opaque correlation handle returned at request-send time.
#[derive(Clone, Copy, PartialEq, Eq, Structural, Debug)]
pub struct Cookie {
    pub sequence: u64,
    pub conn_id: u64,
    pub kind: PendingKind,
}

impl Cookie {
    /// Whether protocol errors for this request surface through this cookie.
    pub open spec fn spec_checked(self) -> bool {
        match self.kind {
            PendingKind::Reply { checked } => checked,
            PendingKind::VoidChecked => true,
            PendingKind::VoidUnchecked => false,
        }
    }

    pub fn checked(&self) -> (r: bool)
        ensures
            r == self.spec_checked(),
    {
        match self.kind {
            PendingKind::Reply { checked } => checked,
            PendingKind::VoidChecked => true,
            PendingKind::VoidUnchecked => false,
        }
    }
}

/// Cookie of a request with no reply payload.
#[derive(Clone, Copy, PartialEq, Eq, Structural, Debug)]
pub struct VoidCookie {
    pub base: Cookie,
}

/// One entry of the correlation table: a request awaiting its reply or
/// error buffer.
#[derive(Debug)]
pub struct Pending {
    pub seq: u64,
    pub kind: PendingKind,
    pub reply: Option<Vec<u8>>,
}

/// Mathematical image of a [`Pending`] entry.
#[verifier::ext_equal]
pub ghost struct PendingView {
    pub seq: u64,
    pub kind: PendingKind,
    pub reply: Option<Seq<u8>>,
}

impl View for Pending {
    type V = PendingView;

    open spec fn view(&self) -> PendingView {
        PendingView {
            seq: self.seq,
            kind: self.kind,
            reply: match self.reply {
                Some(b) => Some(b@),
                None => None,
            },
        }
    }
}

/// The negotiated opcode base of one extension: requests prepend
/// `major_opcode`, events and errors are offset by `first_event` and
/// `first_error`.
#[derive(Clone, Copy, PartialEq, Eq, Structural, Debug)]
pub struct ExtensionInfo {
    pub major_opcode: u8,
    pub first_event: u8,
    pub first_error: u8,
}

/// State of one name in the extension opcode cache.
#[derive(Clone, Copy, PartialEq, Eq, Structural, Debug)]
pub enum ExtStatus {
    /// The query request is on the wire; its reply has not been claimed yet.
    InFlight { seq: u64 },
    /// The server reported the extension present with this mapping.
    Present { info: ExtensionInfo },
    /// The server reported the extension absent.
    Absent,
}

/// One cached extension name with its resolution state.
#[derive(Debug)]
pub struct ExtEntry {
    pub name: Vec<u8>,
    pub status: ExtStatus,
}

/// Mathematical image of an [`ExtEntry`].
#[verifier::ext_equal]
pub ghost struct ExtEntryView {
    pub name: Seq<u8>,
    pub status: ExtStatus,
}

impl View for ExtEntry {
    type V = ExtEntryView;

    open spec fn view(&self) -> ExtEntryView {
        ExtEntryView { name: self.name@, status: self.status }
    }
}

/// Mathematical image of a [`Connection`].
#[verifier::ext_equal]
pub ghost struct ConnView {
    pub id: u64,
    pub next_seq: u64,
    pub pending: Seq<PendingView>,
    pub events: Seq<Seq<u8>>,
    pub outbox: Seq<Seq<u8>>,
    pub exts: Seq<ExtEntryView>,
    pub closed: bool,
}

/// Low 16 bits of a full sequence number: what reply and error buffers carry
/// on the wire, so correlation must compare modulo 2^16.
pub open spec fn low16(s: u64) -> u16 {
    (s & 0xffff) as u16
}

impl ConnView {
    /// Table invariant: sequence numbers in the correlation table are
    /// strictly increasing (hence unique) and all below the counter, and
    /// every filed buffer has been length-validated.
    pub open spec fn inv(self) -> bool {
        &&& forall|i: int, j: int|
            0 <= i < j < self.pending.len() ==> self.pending[i].seq < self.pending[j].seq
        &&& forall|i: int|
            0 <= i < self.pending.len() ==> (#[trigger] self.pending[i]).seq < self.next_seq
        &&& forall|i: int|
            0 <= i < self.pending.len() ==> match (#[trigger] self.pending[i]).reply {
                Some(b) => b.len() >= 32,
                None => true,
            }
    }

    /// The connection after transmitting one request of the given kind.
    pub open spec fn spec_issue(self, kind: PendingKind, req: Seq<u8>) -> ConnView {
        ConnView {
            next_seq: (self.next_seq + 1) as u64,
            pending: if registers(kind) {
                self.pending.push(PendingView { seq: self.next_seq, kind, reply: None })
            } else {
                self.pending
            },
            outbox: self.outbox.push(req),
            ..self
        }
    }

    /// The connection once torn down.
    pub open spec fn spec_close(self) -> ConnView {
        ConnView { closed: true, ..self }
    }
}

/// What [`Connection::deliver`] did with one received buffer.
#[derive(Clone, Copy, PartialEq, Eq, Structural, Debug)]
pub enum Delivered {
    /// A reply (or void acknowledgment) was filed for this pending request.
    ReplyFiled { seq: u64 },
    /// A protocol error was filed for this pending checked request.
    ErrorFiled { seq: u64 },
    /// An event was appended to the event queue.
    EventQueued,
    /// A protocol error with no checked owner went to the out-of-band queue.
    OutOfBandError,
    /// A reply matching no pending request was discarded.
    Dropped,
}

/// Index of the oldest table entry still awaiting delivery whose sequence
/// number matches the 16-bit wire sequence `w` modulo 2^16.
pub open spec fn first_waiting(p: Seq<PendingView>, w: u16, from: int) -> Option<int>
    decreases p.len() - from,
{
    if from < 0 || from >= p.len() {
        None
    } else if p[from].reply is None && low16(p[from].seq) == w {
        Some(from)
    } else {
        first_waiting(p, w, from + 1)
    }
}

impl ConnView {
    /// Demultiplexing one received buffer, strictly in arrival order: the
    /// first byte decides between protocol error (0), reply (1) and event
    /// (anything else); replies and errors are correlated by the 16-bit wire
    /// sequence against the pending table, events are queued. A buffer whose
    /// declared length is inconsistent with its actual bytes is fatal: the
    /// connection closes.
    pub open spec fn spec_deliver(self, b: Seq<u8>) -> (ConnView, Result<Delivered, XError>) {
        if b.len() < 32 {
            (self.spec_close(), Err(XError::Malformed))
        } else if b[0] == 0 {
            if b.len() != 32 {
                (self.spec_close(), Err(XError::Malformed))
            } else {
                match first_waiting(self.pending, u16_at(b, 2), 0) {
                    Some(i) => {
                        if self.pending[i].kind == (PendingKind::Reply { checked: false }) {
                            (
                                ConnView {
                                    pending: self.pending.remove(i),
                                    events: self.events.push(b),
                                    ..self
                                },
                                Ok(Delivered::OutOfBandError),
                            )
                        } else {
                            (
                                ConnView {
                                    pending: self.pending.update(
                                        i,
                                        PendingView { reply: Some(b), ..self.pending[i] },
                                    ),
                                    ..self
                                },
                                Ok(Delivered::ErrorFiled { seq: self.pending[i].seq }),
                            )
                        }
                    },
                    None => (
                        ConnView { events: self.events.push(b), ..self },
                        Ok(Delivered::OutOfBandError),
                    ),
                }
            }
        } else if b[0] == 1 {
            if b.len() != 32 + 4 * (u32_at(b, 4) as int) {
                (self.spec_close(), Err(XError::Malformed))
            } else {
                match first_waiting(self.pending, u16_at(b, 2), 0) {
                    Some(i) => (
                        ConnView {
                            pending: self.pending.update(
                                i,
                                PendingView { reply: Some(b), ..self.pending[i] },
                            ),
                            ..self
                        },
                        Ok(Delivered::ReplyFiled { seq: self.pending[i].seq }),
                    ),
                    None => (self, Ok(Delivered::Dropped)),
                }
            }
        } else {
            if b.len() != 32 {
                (self.spec_close(), Err(XError::Malformed))
            } else {
                (
                    ConnView { events: self.events.push(b), ..self },
                    Ok(Delivered::EventQueued),
                )
            }
        }
    }
}

/// Index of the table entry pending under the full sequence number `s`.
pub open spec fn find_seq(p: Seq<PendingView>, s: u64, from: int) -> Option<int>
    decreases p.len() - from,
{
    if from < 0 || from >= p.len() {
        None
    } else if p[from].seq == s {
        Some(from)
    } else {
        find_seq(p, s, from + 1)
    }
}

/// A found table entry carries the sequence number searched for.
pub proof fn lemma_find_seq_some(p: Seq<PendingView>, s: u64, from: int, i: int)
    requires
        0 <= from,
        find_seq(p, s, from) == Some(i),
    ensures
        from <= i < p.len(),
        p[i].seq == s,
    decreases p.len() - from,
{
    if from >= p.len() {
    } else if p[from].seq == s {
    } else {
        lemma_find_seq_some(p, s, from + 1, i);
    }
}

/// A sequence number held by no table entry is not found.
pub proof fn lemma_find_seq_none(p: Seq<PendingView>, s: u64, from: int)
    requires
        forall|k: int| 0 <= k < p.len() ==> (#[trigger] p[k]).seq != s,
    ensures
        find_seq(p, s, from) is None,
    decreases p.len() - from,
{
    if from < 0 || from >= p.len() {
    } else {
        lemma_find_seq_none(p, s, from + 1);
    }
}

impl ConnView {
    /// Redeeming a cookie: exactly-once resolution of the matching reply or
    /// protocol error. A cookie from another connection or one already
    /// redeemed fails fast; a filed error surfaces as `Protocol`; a filed
    /// reply is handed out and its table entry removed; with nothing filed,
    /// the caller waits — unless the connection closed first, which is a
    /// transport error.
    pub open spec fn spec_try_resolve(self, ck: Cookie) -> (ConnView, Result<
        Option<Seq<u8>>,
        XError,
    >) {
        if ck.conn_id != self.id {
            (self, Err(XError::StaleCookie))
        } else {
            match find_seq(self.pending, ck.sequence, 0) {
                None => (self, Err(XError::StaleCookie)),
                Some(i) => match self.pending[i].reply {
                    Some(b) => if b[0] == 0 {
                        (
                            ConnView { pending: self.pending.remove(i), ..self },
                            Err(XError::Protocol(error_of(b))),
                        )
                    } else {
                        (ConnView { pending: self.pending.remove(i), ..self }, Ok(Some(b)))
                    },
                    None => if self.closed {
                        (self, Err(XError::Transport))
                    } else {
                        (self, Ok(None))
                    },
                },
            }
        }
    }
}

/// Removing a table entry preserves the connection invariant.
pub proof fn lemma_inv_remove(c: ConnView, i: int)
    requires
        c.inv(),
        0 <= i < c.pending.len(),
    ensures
        (ConnView { pending: c.pending.remove(i), ..c }).inv(),
{
    let p2 = c.pending.remove(i);
    assert forall|a: int, b: int| 0 <= a < b < p2.len() implies p2[a].seq < p2[b].seq by {
        assert(p2[a] == if a < i { c.pending[a] } else { c.pending[a + 1] });
        assert(p2[b] == if b < i { c.pending[b] } else { c.pending[b + 1] });
    }
    assert forall|a: int| 0 <= a < p2.len() implies (#[trigger] p2[a]).seq < c.next_seq by {
        assert(p2[a] == if a < i { c.pending[a] } else { c.pending[a + 1] });
    }
    assert forall|a: int| 0 <= a < p2.len() implies (match (#[trigger] p2[a]).reply {
        Some(b) => b.len() >= 32,
        None => true,
    }) by {
        assert(p2[a] == if a < i { c.pending[a] } else { c.pending[a + 1] });
    }
}

/// Filing a length-validated buffer into a table entry preserves the
/// connection invariant.
pub proof fn lemma_inv_file(c: ConnView, i: int, b: Seq<u8>)
    requires
        c.inv(),
        0 <= i < c.pending.len(),
        b.len() >= 32,
    ensures
        (ConnView {
            pending: c.pending.update(i, PendingView { reply: Some(b), ..c.pending[i] }),
            ..c
        }).inv(),
{
}

/// Process-wide handle to one transport session: sequence counter,
/// pending-request table, queued events, outgoing bytes and the extension
/// opcode cache.
#[derive(Debug)]
pub struct Connection {
    id: u64,
    next_seq: u64,
    pending: Vec<Pending>,
    events: Vec<Vec<u8>>,
    outbox: Vec<Vec<u8>>,
    exts: Vec<ExtEntry>,
    closed: bool,
}

impl View for Connection {
    type V = ConnView;

    closed spec fn view(&self) -> ConnView {
        ConnView {
            id: self.id,
            next_seq: self.next_seq,
            pending: self.pending@.map_values(|p: Pending| p@),
            events: self.events@.map_values(|b: Vec<u8>| b@),
            outbox: self.outbox@.map_values(|b: Vec<u8>| b@),
            exts: self.exts@.map_values(|e: ExtEntry| e@),
            closed: self.closed,
        }
    }
}

impl Connection {
    /// Well-formedness carried by every verified operation.
    pub open spec fn wf(self) -> bool {
        self@.inv()
    }

    /// A fresh session; the first request will carry sequence number one.
    pub fn new(id: u64) -> (r: Connection)
        ensures
            r.wf(),
            r@ == (ConnView {
                id,
                next_seq: 1,
                pending: Seq::empty(),
                events: Seq::empty(),
                outbox: Seq::empty(),
                exts: Seq::empty(),
                closed: false,
            }),
    {
        let r = Connection {
            id,
            next_seq: 1,
            pending: Vec::new(),
            events: Vec::new(),
            outbox: Vec::new(),
            exts: Vec::new(),
            closed: false,
        };
        proof {
            assert(r@ =~= (ConnView {
                id,
                next_seq: 1,
                pending: Seq::empty(),
                events: Seq::empty(),
                outbox: Seq::empty(),
                exts: Seq::empty(),
                closed: false,
            }));
        }
        r
    }

    /// Tears the session down; every later send or blocking resolution
    /// fails with a transport error.
    pub fn close(&mut self)
        requires
            old(self).wf(),
        ensures
            final(self).wf(),
            final(self)@ == old(self)@.spec_close(),
    {
        self.closed = true;
        proof {
            assert(final(self)@ =~= old(self)@.spec_close());
        }
    }

    /// Serializes nothing itself: takes an already-encoded request, assigns
    /// the next sequence number, queues the bytes for transmission and
    /// returns the correlation cookie immediately, without waiting for any
    /// reply. Fails only when the connection is already closed.
    pub fn issue_request(&mut self, kind: PendingKind, payload: Vec<u8>) -> (r: Result<
        Cookie,
        XError,
    >)
        requires
            old(self).wf(),
            old(self)@.next_seq < u64::MAX,
        ensures
            final(self).wf(),
            match r {
                Ok(ck) => {
                    &&& !old(self)@.closed
                    &&& ck == (Cookie {
                        sequence: old(self)@.next_seq,
                        conn_id: old(self)@.id,
                        kind,
                    })
                    &&& final(self)@ == old(self)@.spec_issue(kind, payload@)
                },
                Err(e) => {
                    &&& e == XError::Transport
                    &&& old(self)@.closed
                    &&& final(self)@ == old(self)@
                },
            },
    {
        if self.closed {
            return Err(XError::Transport);
        }
        let seq = self.next_seq;
        self.next_seq = self.next_seq + 1;
        if !matches!(kind, PendingKind::VoidUnchecked) {
            self.pending.push(Pending { seq, kind, reply: None });
        }
        self.outbox.push(payload);
        proof {
            assert(final(self)@ =~= old(self)@.spec_issue(kind, payload@));
        }
        Ok(Cookie { sequence: seq, conn_id: self.id, kind })
    }

    /// Pops the oldest not-yet-transmitted request bytes; the transport
    /// writes them to the wire in this order.
    pub fn next_outgoing(&mut self) -> (r: Option<Vec<u8>>)
        requires
            old(self).wf(),
        ensures
            final(self).wf(),
            match r {
                Some(b) => {
                    &&& old(self)@.outbox.len() > 0
                    &&& b@ == old(self)@.outbox[0]
                    &&& final(self)@ == (ConnView {
                        outbox: old(self)@.outbox.drop_first(),
                        ..old(self)@
                    })
                },
                None => old(self)@.outbox.len() == 0 && final(self)@ == old(self)@,
            },
    {
        if self.outbox.len() == 0 {
            return None;
        }
        let b = self.outbox.remove(0);
        proof {
            assert(final(self)@ =~= (ConnView {
                outbox: old(self)@.outbox.drop_first(),
                ..old(self)@
            }));
        }
        Some(b)
    }

    /// Pops the oldest queued event or out-of-band error buffer.
    pub fn poll_event(&mut self) -> (r: Option<Vec<u8>>)
        requires
            old(self).wf(),
        ensures
            final(self).wf(),
            match r {
                Some(b) => {
                    &&& old(self)@.events.len() > 0
                    &&& b@ == old(self)@.events[0]
                    &&& final(self)@ == (ConnView {
                        events: old(self)@.events.drop_first(),
                        ..old(self)@
                    })
                },
                None => old(self)@.events.len() == 0 && final(self)@ == old(self)@,
            },
    {
        if self.events.len() == 0 {
            return None;
        }
        let b = self.events.remove(0);
        proof {
            assert(final(self)@ =~= (ConnView {
                events: old(self)@.events.drop_first(),
                ..old(self)@
            }));
        }
        Some(b)
    }

    /// Demultiplexes one received buffer, strictly in arrival order; see
    /// [`ConnView::spec_deliver`] for the exact routing. The transport owns
    /// every buffer until it is handed in here; delivery transfers ownership
    /// to this connection, and resolution hands it on to the caller.
    pub fn deliver(&mut self, buf: Vec<u8>) -> (r: Result<Delivered, XError>)
        requires
            old(self).wf(),
            !old(self)@.closed,
        ensures
            final(self).wf(),
            ({
                let (c2, rr) = old(self)@.spec_deliver(buf@);
                final(self)@ == c2 && r == rr
            }),
    {
        let n = buf.len();
        if n < 32 {
            self.closed = true;
            proof {
                assert(final(self)@ =~= old(self)@.spec_close());
            }
            return Err(XError::Malformed);
        }
        let t = buf[0];
        if t == 0 {
            if n != 32 {
                self.closed = true;
                proof {
                    assert(final(self)@ =~= old(self)@.spec_close());
                }
                return Err(XError::Malformed);
            }
            let w = crate::wire::read_u16_le(&buf, 2);
            match Self::find_waiting(&self.pending, w) {
                Some(i) => {
                    if matches!(self.pending[i].kind, PendingKind::Reply { checked: false }) {
                        let _consumed = self.pending.remove(i);
                        self.events.push(buf);
                        proof {
                            let (c2, _rr) = old(self)@.spec_deliver(buf@);
                            assert(final(self)@ =~= c2);
                            lemma_inv_remove(old(self)@, i as int);
                        }
                        Ok(Delivered::OutOfBandError)
                    } else {
                        let seqv = self.pending[i].seq;
                        let mut e = self.pending.remove(i);
                        e.reply = Some(buf);
                        self.pending.insert(i, e);
                        proof {
                            let (c2, _rr) = old(self)@.spec_deliver(buf@);
                            assert(final(self)@.pending =~= c2.pending);
                            assert(final(self)@ =~= c2);
                            lemma_inv_file(old(self)@, i as int, buf@);
                        }
                        Ok(Delivered::ErrorFiled { seq: seqv })
                    }
                },
                None => {
                    self.events.push(buf);
                    proof {
                        let (c2, _rr) = old(self)@.spec_deliver(buf@);
                        assert(final(self)@ =~= c2);
                    }
                    Ok(Delivered::OutOfBandError)
                },
            }
        } else if t == 1 {
            let l = crate::wire::read_u32_le(&buf, 4);
            if (n as u64) != 32u64 + 4u64 * (l as u64) {
                self.closed = true;
                proof {
                    assert(final(self)@ =~= old(self)@.spec_close());
                }
                return Err(XError::Malformed);
            }
            let w = crate::wire::read_u16_le(&buf, 2);
            match Self::find_waiting(&self.pending, w) {
                Some(i) => {
                    let seqv = self.pending[i].seq;
                    let mut e = self.pending.remove(i);
                    e.reply = Some(buf);
                    self.pending.insert(i, e);
                    proof {
                        let (c2, _rr) = old(self)@.spec_deliver(buf@);
                        assert(final(self)@.pending =~= c2.pending);
                        assert(final(self)@ =~= c2);
                        lemma_inv_file(old(self)@, i as int, buf@);
                    }
                    Ok(Delivered::ReplyFiled { seq: seqv })
                },
                None => Ok(Delivered::Dropped),
            }
        } else {
            if n != 32 {
                self.closed = true;
                proof {
                    assert(final(self)@ =~= old(self)@.spec_close());
                }
                return Err(XError::Malformed);
            }
            self.events.push(buf);
            proof {
                let (c2, _rr) = old(self)@.spec_deliver(buf@);
                assert(final(self)@ =~= c2);
            }
            Ok(Delivered::EventQueued)
        }
    }

    /// Redeems a cookie for the raw reply buffer of its request; see
    /// [`ConnView::spec_try_resolve`] for the exact outcome. Non-blocking:
    /// `Ok(None)` means no matching buffer has been delivered yet and the
    /// cookie stays redeemable.
    pub fn try_resolve(&mut self, ck: &Cookie) -> (r: Result<Option<Vec<u8>>, XError>)
        requires
            old(self).wf(),
        ensures
            final(self).wf(),
            ({
                let (c2, rr) = old(self)@.spec_try_resolve(*ck);
                final(self)@ == c2 && match (r, rr) {
                    (Ok(Some(b)), Ok(Some(sb))) => b@ == sb && b@.len() >= 32,
                    (Ok(None), Ok(None)) => true,
                    (Err(e), Err(se)) => e == se,
                    _ => false,
                }
            }),
    {
        if ck.conn_id != self.id {
            return Err(XError::StaleCookie);
        }
        match Self::find_by_seq(&self.pending, ck.sequence) {
            None => Err(XError::StaleCookie),
            Some(i) => {
                proof {
                    lemma_find_seq_some(old(self)@.pending, ck.sequence, 0, i as int);
                }
                if self.pending[i].reply.is_some() {
                    let e = self.pending.remove(i);
                    proof {
                        lemma_inv_remove(old(self)@, i as int);
                        assert(final(self)@.pending =~= old(self)@.pending.remove(i as int));
                        assert(final(self)@ =~= old(self)@.spec_try_resolve(*ck).0);
                    }
                    let b = e.reply.unwrap();
                    if b[0] == 0 {
                        let pe = ProtocolError::parse(&b);
                        Err(XError::Protocol(pe))
                    } else {
                        Ok(Some(b))
                    }
                } else {
                    if self.closed {
                        Err(XError::Transport)
                    } else {
                        Ok(None)
                    }
                }
            },
        }
    }

    /// Redeems the cookie of a request with no reply payload. An unchecked
    /// void request returns at once — a protocol error for it is only
    /// observable through the out-of-band stream. A checked void request
    /// waits for its acknowledgment or protocol error exactly like a reply.
    pub fn resolve_void(&mut self, ck: &VoidCookie) -> (r: Result<Option<()>, XError>)
        requires
            old(self).wf(),
        ensures
            final(self).wf(),
            ck.base.kind is VoidUnchecked ==> r == Ok::<Option<()>, XError>(Some(()))
                && final(self)@ == old(self)@,
            !(ck.base.kind is VoidUnchecked) ==> ({
                let (c2, rr) = old(self)@.spec_try_resolve(ck.base);
                final(self)@ == c2 && match (r, rr) {
                    (Ok(Some(u)), Ok(Some(_))) => u == (),
                    (Ok(None), Ok(None)) => true,
                    (Err(e), Err(se)) => e == se,
                    _ => false,
                }
            }),
    {
        if matches!(ck.base.kind, PendingKind::VoidUnchecked) {
            return Ok(Some(()));
        }
        match self.try_resolve(&ck.base) {
            Ok(Some(_ack)) => Ok(Some(())),
            Ok(None) => Ok(None),
            Err(e) => Err(e),
        }
    }

    /// Scans the table for the entry pending under this full sequence
    /// number.
    fn find_by_seq(p: &Vec<Pending>, s: u64) -> (r: Option<usize>)
        ensures
            ({
                let sv = p@.map_values(|e: Pending| e@);
                match r {
                    Some(i) => i < p@.len() && find_seq(sv, s, 0) == Some(i as int),
                    None => find_seq(sv, s, 0) is None,
                }
            }),
    {
        let ghost sv = p@.map_values(|e: Pending| e@);
        let n = p.len();
        let mut k: usize = 0;
        while k < n
            invariant
                k <= n,
                n == p@.len(),
                sv == p@.map_values(|e: Pending| e@),
                find_seq(sv, s, 0) == find_seq(sv, s, k as int),
            decreases n - k,
        {
            if p[k].seq == s {
                return Some(k);
            }
            k = k + 1;
        }
        None
    }

    /// The cached mapping of an extension known to be present on this
    /// connection, with no wire traffic.
    pub fn extension_info(&self, name: &Vec<u8>) -> (r: Option<ExtensionInfo>)
        ensures
            r == self@.ext_info(name@),
    {
        match Self::find_ext_idx(&self.exts, name) {
            Some(i) => match self.exts[i].status {
                ExtStatus::Present { info } => Some(info),
                _ => None,
            },
            None => None,
        }
    }

    /// Resolves an extension name to its negotiated opcode mapping; see
    /// [`ConnView::spec_resolve_ext`]. Repeated calls for a cached name
    /// return the identical result and issue no further wire query;
    /// `Ok(None)` means the query's reply has not been delivered yet.
    pub fn resolve_extension(&mut self, name: &Vec<u8>) -> (r: Result<
        Option<ExtensionInfo>,
        XError,
    >)
        requires
            old(self).wf(),
            old(self)@.next_seq < u64::MAX,
            name@.len() <= 0xffff,
        ensures
            final(self).wf(),
            ({
                let (c2, rr) = old(self)@.spec_resolve_ext(name@);
                final(self)@ == c2 && r == rr
            }),
    {
        match Self::find_ext_idx(&self.exts, name) {
            Some(i) => {
                let status = self.exts[i].status;
                match status {
                    ExtStatus::Present { info } => Ok(Some(info)),
                    ExtStatus::Absent => Err(XError::ExtensionNotPresent),
                    ExtStatus::InFlight { seq } => {
                        let ck = Cookie {
                            sequence: seq,
                            conn_id: self.id,
                            kind: PendingKind::Reply { checked: true },
                        };
                        match self.try_resolve(&ck) {
                            Ok(None) => Ok(None),
                            Ok(Some(b)) => {
                                if b[8] != 0 {
                                    let info = ExtensionInfo {
                                        major_opcode: b[9],
                                        first_event: b[10],
                                        first_error: b[11],
                                    };
                                    let mut e = self.exts.remove(i);
                                    e.status = ExtStatus::Present { info };
                                    self.exts.insert(i, e);
                                    proof {
                                        let (c2, _rr) = old(self)@.spec_resolve_ext(name@);
                                        assert(final(self)@.exts =~= c2.exts);
                                        assert(final(self)@ =~= c2);
                                    }
                                    Ok(Some(info))
                                } else {
                                    let mut e = self.exts.remove(i);
                                    e.status = ExtStatus::Absent;
                                    self.exts.insert(i, e);
                                    proof {
                                        let (c2, _rr) = old(self)@.spec_resolve_ext(name@);
                                        assert(final(self)@.exts =~= c2.exts);
                                        assert(final(self)@ =~= c2);
                                    }
                                    Err(XError::ExtensionNotPresent)
                                }
                            },
                            Err(e) => match e {
                                XError::Protocol(_) => {
                                    let mut en = self.exts.remove(i);
                                    en.status = ExtStatus::Absent;
                                    self.exts.insert(i, en);
                                    proof {
                                        let (c2, _rr) = old(self)@.spec_resolve_ext(name@);
                                        assert(final(self)@.exts =~= c2.exts);
                                        assert(final(self)@ =~= c2);
                                    }
                                    Err(XError::ExtensionNotPresent)
                                },
                                _ => Err(e),
                            },
                        }
                    },
                }
            },
            None => {
                if self.closed {
                    return Err(XError::Transport);
                }
                let req = Self::build_query_extension(name);
                let seq = self.next_seq;
                match self.issue_request(PendingKind::Reply { checked: true }, req) {
                    Ok(_ck) => {
                        self.exts.push(
                            ExtEntry { name: name.clone(), status: ExtStatus::InFlight { seq } },
                        );
                        proof {
                            let (c2, _rr) = old(self)@.spec_resolve_ext(name@);
                            assert(final(self)@.exts =~= c2.exts);
                            assert(final(self)@ =~= c2);
                        }
                        Ok(None)
                    },
                    Err(_e) => {
                        proof {
                            assert(false);
                        }
                        Err(XError::Transport)
                    },
                }
            },
        }
    }

    /// Builds the core-protocol query for an extension name.
    fn build_query_extension(name: &Vec<u8>) -> (r: Vec<u8>)
        requires
            name@.len() <= 0xffff,
        ensures
            r@ == query_extension_bytes(name@),
    {
        let mut out: Vec<u8> = Vec::new();
        out.push(QUERY_EXTENSION_OPCODE);
        out.push(0u8);
        let n = name.len();
        let padded = crate::wire::pad4_len(n);
        push_u16_le(&mut out, ((8 + padded) / 4) as u16);
        push_u16_le(&mut out, n as u16);
        out.push(0u8);
        out.push(0u8);
        push_bytes(&mut out, name);
        push_zeros(&mut out, padded - n);
        proof {
            assert(out@ =~= query_extension_bytes(name@));
        }
        out
    }

    /// Scans the cache for an extension name.
    fn find_ext_idx(e: &Vec<ExtEntry>, name: &Vec<u8>) -> (r: Option<usize>)
        ensures
            ({
                let s = e@.map_values(|x: ExtEntry| x@);
                match r {
                    Some(i) => i < e@.len() && find_ext(s, name@, 0) == Some(i as int),
                    None => find_ext(s, name@, 0) is None,
                }
            }),
    {
        let ghost s = e@.map_values(|x: ExtEntry| x@);
        let n = e.len();
        let mut k: usize = 0;
        while k < n
            invariant
                k <= n,
                n == e@.len(),
                s == e@.map_values(|x: ExtEntry| x@),
                find_ext(s, name@, 0) == find_ext(s, name@, k as int),
            decreases n - k,
        {
            if crate::wire::bytes_eq(&e[k].name, name) {
                return Some(k);
            }
            k = k + 1;
        }
        None
    }

    /// Scans the table for the oldest entry still awaiting delivery whose
    /// sequence matches the wire sequence modulo 2^16.
    fn find_waiting(p: &Vec<Pending>, w: u16) -> (r: Option<usize>)
        ensures
            ({
                let s = p@.map_values(|e: Pending| e@);
                match r {
                    Some(i) => i < p@.len() && first_waiting(s, w, 0) == Some(i as int),
                    None => first_waiting(s, w, 0) is None,
                }
            }),
    {
        let ghost s = p@.map_values(|e: Pending| e@);
        let n = p.len();
        let mut k: usize = 0;
        while k < n
            invariant
                k <= n,
                n == p@.len(),
                s == p@.map_values(|e: Pending| e@),
                first_waiting(s, w, 0) == first_waiting(s, w, k as int),
            decreases n - k,
        {
            if p[k].reply.is_none() && ((p[k].seq & 0xffff) as u16) == w {
                return Some(k);
            }
            k = k + 1;
        }
        None
    }
}

/// Index of the cache entry for an extension name.
pub open spec fn find_ext(e: Seq<ExtEntryView>, name: Seq<u8>, from: int) -> Option<int>
    decreases e.len() - from,
{
    if from < 0 || from >= e.len() {
        None
    } else if e[from].name == name {
        Some(from)
    } else {
        find_ext(e, name, from + 1)
    }
}

/// Opcode of the core-protocol request that queries an extension by name.
pub const QUERY_EXTENSION_OPCODE: u8 = 98;

/// Wire encoding of the core-protocol query for an extension name: opcode,
/// request length in 4-byte words, the name's length, then the name padded
/// with zeros to a 4-byte boundary.
pub open spec fn query_extension_bytes(name: Seq<u8>) -> Seq<u8> {
    seq![QUERY_EXTENSION_OPCODE, 0u8] + u16_le(((8 + pad4(name.len() as int)) / 4) as u16)
        + u16_le(name.len() as u16) + seq![0u8, 0u8] + name
        + Seq::new((pad4(name.len() as int) - name.len()) as nat, |i: int| 0u8)
}

impl ConnView {
    /// Resolution state cached for an extension name.
    pub open spec fn ext_status(self, name: Seq<u8>) -> Option<ExtStatus> {
        match find_ext(self.exts, name, 0) {
            Some(i) => Some(self.exts[i].status),
            None => None,
        }
    }

    /// The negotiated mapping of an extension known to be present.
    pub open spec fn ext_info(self, name: Seq<u8>) -> Option<ExtensionInfo> {
        match self.ext_status(name) {
            Some(ExtStatus::Present { info }) => Some(info),
            _ => None,
        }
    }

    /// Resolving an extension name: a cached result is returned without any
    /// wire traffic; an unknown name issues one query request and reports
    /// "not yet"; an in-flight query is completed from its reply once that
    /// has been delivered, caching present or absent for the connection's
    /// lifetime.
    pub open spec fn spec_resolve_ext(self, name: Seq<u8>) -> (ConnView, Result<
        Option<ExtensionInfo>,
        XError,
    >) {
        match find_ext(self.exts, name, 0) {
            Some(i) => match self.exts[i].status {
                ExtStatus::Present { info } => (self, Ok(Some(info))),
                ExtStatus::Absent => (self, Err(XError::ExtensionNotPresent)),
                ExtStatus::InFlight { seq } => {
                    let ck = Cookie {
                        sequence: seq,
                        conn_id: self.id,
                        kind: PendingKind::Reply { checked: true },
                    };
                    let (c2, rr) = self.spec_try_resolve(ck);
                    match rr {
                        Ok(None) => (c2, Ok(None)),
                        Ok(Some(b)) => if b[8] != 0 {
                            let info = ExtensionInfo {
                                major_opcode: b[9],
                                first_event: b[10],
                                first_error: b[11],
                            };
                            (
                                ConnView {
                                    exts: c2.exts.update(
                                        i,
                                        ExtEntryView {
                                            status: ExtStatus::Present { info },
                                            ..c2.exts[i]
                                        },
                                    ),
                                    ..c2
                                },
                                Ok(Some(info)),
                            )
                        } else {
                            (
                                ConnView {
                                    exts: c2.exts.update(
                                        i,
                                        ExtEntryView { status: ExtStatus::Absent, ..c2.exts[i] },
                                    ),
                                    ..c2
                                },
                                Err(XError::ExtensionNotPresent),
                            )
                        },
                        Err(XError::Protocol(_)) => (
                            ConnView {
                                exts: c2.exts.update(
                                    i,
                                    ExtEntryView { status: ExtStatus::Absent, ..c2.exts[i] },
                                ),
                                ..c2
                            },
                            Err(XError::ExtensionNotPresent),
                        ),
                        Err(e) => (c2, Err(e)),
                    }
                },
            },
            None => {
                if self.closed {
                    (self, Err(XError::Transport))
                } else {
                    let c2 = self.spec_issue(
                        PendingKind::Reply { checked: true },
                        query_extension_bytes(name),
                    );
                    (
                        ConnView {
                            exts: c2.exts.push(
                                ExtEntryView {
                                    name,
                                    status: ExtStatus::InFlight { seq: self.next_seq },
                                },
                            ),
                            ..c2
                        },
                        Ok(None),
                    )
                }
            },
        }
    }
}

impl ConnView {
    /// Contract shared by every extension request: on success the returned
    /// cookie embeds the sequence number the send assigned and the encoded
    /// request entered the outgoing queue under the extension's negotiated
    /// major opcode; an unresolved or absent extension fails before
    /// transmission; a closed connection fails with a transport error.
    pub open spec fn ext_request_outcome(
        self,
        post: ConnView,
        r: Result<Cookie, XError>,
        name: Seq<u8>,
        kind: PendingKind,
        req: Seq<u8>,
    ) -> bool {
        match r {
            Ok(ck) => {
                &&& self.ext_info(name) is Some
                &&& !self.closed
                &&& ck == (Cookie { sequence: self.next_seq, conn_id: self.id, kind })
                &&& post == self.spec_issue(kind, req)
            },
            Err(e) => post == self && (e == XError::ExtensionNotPresent && self.ext_info(name)
                is None || e == XError::Transport && self.closed && self.ext_info(name) is Some),
        }
    }

    /// The negotiated major opcode of an extension, meaningful once
    /// `ext_info` is known to be present.
    pub open spec fn ext_major(self, name: Seq<u8>) -> u8 {
        self.ext_info(name).unwrap().major_opcode
    }
}

/// Law: each send assigns the connection's current counter value — the very
/// sequence number embedded in the returned cookie — and two successive
/// requests on one connection carry strictly increasing sequence numbers.
pub proof fn lemma_sequence_numbers_increase(
    c: ConnView,
    k1: PendingKind,
    r1: Seq<u8>,
    k2: PendingKind,
    r2: Seq<u8>,
)
    requires
        c.next_seq + 2 <= u64::MAX,
    ensures
        ({
            let s1 = c.next_seq;
            let c1 = c.spec_issue(k1, r1);
            let s2 = c1.next_seq;
            let c2 = c1.spec_issue(k2, r2);
            s2 == s1 + 1 && s2 > s1 && c2.next_seq > s2
        }),
{
}

/// Law: each reply or protocol error is delivered to at most one resolution
/// call. Once a cookie has been redeemed — for its reply or for its error —
/// redeeming it again fails deterministically with `StaleCookie`, and leaves
/// the connection unchanged.
pub proof fn lemma_no_double_delivery(c: ConnView, ck: Cookie)
    requires
        c.inv(),
        match c.spec_try_resolve(ck).1 {
            Ok(o) => o is Some,
            Err(e) => e is Protocol,
        },
    ensures
        c.spec_try_resolve(ck).0.spec_try_resolve(ck) == (
            c.spec_try_resolve(ck).0,
            Err::<Option<Seq<u8>>, XError>(XError::StaleCookie),
        ),
{
    let (c2, _r) = c.spec_try_resolve(ck);
    let i = find_seq(c.pending, ck.sequence, 0).unwrap();
    lemma_find_seq_some(c.pending, ck.sequence, 0, i);
    let p2 = c.pending.remove(i);
    assert forall|k: int| 0 <= k < p2.len() implies (#[trigger] p2[k]).seq != ck.sequence by {
        assert(p2[k] == if k < i { c.pending[k] } else { c.pending[k + 1] });
        if k < i {
            assert(c.pending[k].seq < c.pending[i].seq);
        } else {
            assert(c.pending[i].seq < c.pending[k + 1].seq);
        }
    }
    lemma_find_seq_none(p2, ck.sequence, 0);
}

/// Law: extension opcode resolution is idempotent. Once a name is cached as
/// present on a connection, every further resolution returns the identical
/// mapping and leaves the connection unchanged — so two resolutions of one
/// name return identical results.
pub proof fn lemma_extension_resolution_idempotent(c: ConnView, name: Seq<u8>)
    requires
        c.ext_info(name) is Some,
    ensures
        c.spec_resolve_ext(name) == (
            c,
            Ok::<Option<ExtensionInfo>, XError>(Some(c.ext_info(name).unwrap())),
        ),
        c.spec_resolve_ext(name).0.spec_resolve_ext(name) == c.spec_resolve_ext(name),
{
}

/// Law: at most one wire query is issued per extension name — as soon as the
/// cache holds an entry for the name (in flight, present or absent), a
/// further resolution leaves the sequence counter and the outgoing queue
/// unchanged.
pub proof fn lemma_at_most_one_extension_query(c: ConnView, name: Seq<u8>)
    requires
        find_ext(c.exts, name, 0) is Some,
    ensures
        c.spec_resolve_ext(name).0.next_seq == c.next_seq,
        c.spec_resolve_ext(name).0.outbox == c.outbox,
{
}

} // verus!
