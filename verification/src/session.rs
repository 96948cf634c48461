//! The sessions that one end of the bridge holds open: each is a writer towards a
//! Discord IPC connection, found by its session id.
use std::collections::HashMap;
use vstd::prelude::*;

use crate::discord::DiscordWrite;
use crate::packet::Packet;

verus! {

broadcast use vstd::std_specs::hash::group_hash_axioms;

/// Why a packet could not be applied to the session table.
#[derive(Debug, Clone, Copy, PartialEq, Eq, Structural)]
pub enum SessionError {
    /// No session with this id is open.
    UnknownSession(u128),
}

/// Opening session `id` with `writer` takes the table `before` to `after`.
pub open spec fn opens<H>(before: Map<u128, H>, id: u128, writer: H, after: Map<u128, H>) -> bool {
    after == before.insert(id, writer)
}

/// Delivering data to session `id` takes the table `before` to `after` with result
/// `r`, as far as the table goes: when the session is open, only its writer may
/// change (what it was handed is stated where the delivery is); otherwise the error
/// names the session and the table stays as it is.
pub open spec fn delivers<H>(
    before: Map<u128, H>,
    id: u128,
    after: Map<u128, H>,
    r: Result<Result<(), std::io::Error>, SessionError>,
) -> bool {
    match r {
        Ok(_) => {
            &&& before.contains_key(id)
            &&& after == before.insert(id, after[id])
        },
        Err(e) => {
            &&& !before.contains_key(id)
            &&& e == SessionError::UnknownSession(id)
            &&& after == before
        },
    }
}

/// Closing session `id` takes the table `before` to `after` with result `r`: when
/// the session is open, its writer is handed back and the session removed; otherwise
/// the error names the session and the table stays as it is.
pub open spec fn closes<H>(
    before: Map<u128, H>,
    id: u128,
    after: Map<u128, H>,
    r: Result<H, SessionError>,
) -> bool {
    match r {
        Ok(w) => before.contains_key(id) && w == before[id] && after == before.remove(id),
        Err(e) => !before.contains_key(id) && e == SessionError::UnknownSession(id) && after
            == before,
    }
}

/// Closing fails exactly when the session is not open: an open session is always
/// closed, its writer handed back, and it is then no longer open.
pub proof fn lemma_close_fails_only_when_closed<H>(
    before: Map<u128, H>,
    id: u128,
    after: Map<u128, H>,
    r: Result<H, SessionError>,
)
    requires
        closes(before, id, after, r),
    ensures
        r is Ok <==> before.contains_key(id),
        before.contains_key(id) ==> (r matches Ok(w) && w == before[id] && !after.contains_key(id)),
        r is Err ==> after == before,
{
}

/// The relay: a session opened with `writer`, then handed `data`, then closed, hands
/// back `writer` as it is after one `send_data` of exactly `data`, whose result the
/// delivery reported; and the table is then as it was before the session was opened,
/// without that session.
pub proof fn lemma_relay<H: DiscordWrite>(
    t0: Map<u128, H>,
    id: u128,
    writer: H,
    t1: Map<u128, H>,
    data: Vec<u8>,
    t2: Map<u128, H>,
    sent: Result<(), std::io::Error>,
    t3: Map<u128, H>,
    back: H,
)
    requires
        opens(t0, id, writer, t1),
        delivers(t1, id, t2, Ok(sent)),
        exists|w: &mut H|
            *w == t1[id] && *final(w) == t2[id] && #[trigger] call_ensures(
                H::send_data,
                (w, data),
                sent,
            ),
        closes(t2, id, t3, Ok(back)),
    ensures
        exists|w: &mut H|
            *w == writer && *final(w) == back && #[trigger] call_ensures(
                H::send_data,
                (w, data),
                sent,
            ),
        t3 == t0.remove(id),
{
    assert(t1[id] == writer);
    assert(t2[id] == back);
    assert(t3 =~= t0.remove(id));
}

/// Once session `id` is closed, data for it is refused, and a delivery to another
/// session leaves it closed.
pub proof fn lemma_closed_refuses<H: DiscordWrite>(
    t0: Map<u128, H>,
    id: u128,
    t1: Map<u128, H>,
    back: H,
    t2: Map<u128, H>,
    r: Result<Result<(), std::io::Error>, SessionError>,
)
    requires
        closes(t0, id, t1, Ok(back)),
        delivers(t1, id, t2, r),
    ensures
        r == Err::<Result<(), std::io::Error>, SessionError>(SessionError::UnknownSession(id)),
        t2 == t1,
{
}

/// What the host does with a packet from the guest, as decided by
/// [`SessionTable::dispatch`].
pub enum HostStep<H> {
    /// Connect to the local Discord client and open session `0` with that connection.
    Open(u128),
    /// The data went to the Discord connection of its session; this is the write's result.
    Delivered(Result<(), std::io::Error>),
    /// The session was closed; this is its writer, to be shut down.
    Closed(H),
}

/// The open sessions, each with the writer of its Discord IPC connection.
pub struct SessionTable<H> {
    sessions: HashMap<u128, H>,
}

impl<H> View for SessionTable<H> {
    type V = Map<u128, H>;

    closed spec fn view(&self) -> Map<u128, H> {
        self.sessions@
    }
}

impl<H: DiscordWrite> SessionTable<H> {
    /// A table with no session open.
    pub fn new() -> (t: Self)
        ensures
            t@ == Map::<u128, H>::empty(),
    {
        SessionTable { sessions: HashMap::new() }
    }

    /// Whether session `id` is open.
    pub fn contains(&self, id: u128) -> (b: bool)
        ensures
            b == self@.contains_key(id),
    {
        self.sessions.contains_key(&id)
    }

    /// Opens session `id` with `writer`; a session already open under `id` is
    /// replaced, and its writer dropped.
    pub fn open(&mut self, id: u128, writer: H)
        ensures
            opens(old(self)@, id, writer, final(self)@),
            final(self)@ == old(self)@.insert(id, writer),
    {
        self.sessions.insert(id, writer);
    }

    /// Writes `data` to the Discord connection of session `id` (see [`delivers`]): the
    /// session's writer is handed exactly `data`, once. The outer `Err` says that no
    /// such session is open, and then nothing is written; the inner result is that of
    /// the write. The set of open sessions does not change.
    pub fn deliver(&mut self, id: u128, data: Vec<u8>) -> (r: Result<
        Result<(), std::io::Error>,
        SessionError,
    >)
        ensures
            delivers(old(self)@, id, final(self)@, r),
            r matches Ok(sent) ==> exists|w: &mut H|
                *w == old(self)@[id] && *final(w) == final(self)@[id] && #[trigger] call_ensures(
                    H::send_data,
                    (w, data),
                    sent,
                ),
            r is Ok <==> old(self)@.contains_key(id),
            final(self)@.dom() == old(self)@.dom(),
            forall|k: u128| k != id && #[trigger] old(self)@.contains_key(k) ==> final(self)@[k]
                == old(self)@[k],
    {
        let ghost handed = data;
        match self.sessions.remove(&id) {
            Some(mut writer) => {
                let ghost before = writer;
                let send = H::send_data;
                let sent = send(&mut writer, data);
                assert(exists|w: &mut H|
                    *w == before && *final(w) == writer && call_ensures(send, (w, handed), sent));
                self.sessions.insert(id, writer);
                assert(self.sessions@ =~= old(self)@.insert(id, self.sessions@[id]));
                assert(self.sessions@.dom() =~= old(self)@.dom());
                Ok(sent)
            },
            None => {
                assert(self.sessions@ =~= old(self)@);
                Err(SessionError::UnknownSession(id))
            },
        }
    }

    /// Closes session `id` and hands back its writer.
    pub fn close(&mut self, id: u128) -> (r: Result<H, SessionError>)
        ensures
            closes(old(self)@, id, final(self)@, r),
            r is Ok <==> old(self)@.contains_key(id),
            r matches Ok(w) ==> (w == old(self)@[id] && final(self)@ == old(self)@.remove(id)),
            r is Err ==> final(self)@ == old(self)@,
    {
        match self.sessions.remove(&id) {
            Some(writer) => {
                assert(self.sessions@ =~= old(self)@.remove(id));
                Ok(writer)
            },
            None => {
                assert(self.sessions@ =~= old(self)@);
                Err(SessionError::UnknownSession(id))
            },
        }
    }

    /// Applies a packet from the other end to the table, as the guest does: the bytes
    /// of a `Data` packet go to its session when that session is open; every other
    /// packet, and data for a session that is not open, is dropped. Returns the
    /// result of the write, if there was one.
    pub fn route(&mut self, packet: Packet) -> (r: Option<Result<(), std::io::Error>>)
        ensures
            !(packet is Data) ==> r is None && final(self)@ == old(self)@,
            packet matches Packet::Data(id, data) ==> (match r {
                Some(sent) => {
                    &&& delivers(old(self)@, id, final(self)@, Ok(sent))
                    &&& exists|w: &mut H|
                        *w == old(self)@[id] && *final(w) == final(self)@[id]
                            && #[trigger] call_ensures(H::send_data, (w, data), sent)
                },
                None => delivers(old(self)@, id, final(self)@, Err(SessionError::UnknownSession(id))),
            }),
            r is Some <==> (packet is Data && old(self)@.contains_key(packet.spec_session())),
            r is None ==> final(self)@ == old(self)@,
            final(self)@.dom() == old(self)@.dom(),
            forall|k: u128|
                k != packet.spec_session() && #[trigger] old(self)@.contains_key(k)
                    ==> final(self)@[k] == old(self)@[k],
    {
        match packet {
            Packet::Data(id, data) => match self.deliver(id, data) {
                Ok(sent) => Some(sent),
                Err(_) => None,
            },
            _ => None,
        }
    }

    /// Applies a packet from the guest to the table, as the host does. `Connect` asks
    /// for a new Discord connection and leaves the table as it is (the session opens
    /// once it is connected); `Data` goes to its session; `Disconnect` closes its
    /// session. Data for, or the end of, a session that is not open is an error.
    pub fn dispatch(&mut self, packet: Packet) -> (r: Result<HostStep<H>, SessionError>)
        ensures
            r is Err <==> !(packet is Connect) && !old(self)@.contains_key(packet.spec_session()),
            packet matches Packet::Connect(id) ==> {
                &&& r matches Ok(HostStep::Open(o)) && o == id
                &&& final(self)@ == old(self)@
            },
            packet matches Packet::Data(id, data) ==> (match r {
                Ok(HostStep::Delivered(sent)) => {
                    &&& delivers(old(self)@, id, final(self)@, Ok(sent))
                    &&& exists|w: &mut H|
                        *w == old(self)@[id] && *final(w) == final(self)@[id]
                            && #[trigger] call_ensures(H::send_data, (w, data), sent)
                },
                Err(e) => delivers(old(self)@, id, final(self)@, Err(e)),
                _ => false,
            }),
            packet is Data ==> final(self)@.dom() == old(self)@.dom(),
            packet is Data ==> forall|k: u128|
                k != packet.spec_session() && #[trigger] old(self)@.contains_key(k)
                    ==> final(self)@[k] == old(self)@[k],
            r is Err ==> final(self)@ == old(self)@,
            packet is Disconnect && old(self)@.contains_key(packet.spec_session()) ==> (r matches Ok(
                HostStep::Closed(w),
            ) && w == old(self)@[packet.spec_session()] && final(self)@ == old(self)@.remove(
                packet.spec_session(),
            )),
            packet matches Packet::Disconnect(id) ==> (match r {
                Ok(HostStep::Closed(w)) => closes(old(self)@, id, final(self)@, Ok(w)),
                Err(e) => closes(old(self)@, id, final(self)@, Err(e)),
                _ => false,
            }),
    {
        match packet {
            Packet::Connect(id) => Ok(HostStep::Open(id)),
            Packet::Data(id, data) => match self.deliver(id, data) {
                Ok(sent) => Ok(HostStep::Delivered(sent)),
                Err(e) => Err(e),
            },
            Packet::Disconnect(id) => match self.close(id) {
                Ok(writer) => Ok(HostStep::Closed(writer)),
                Err(e) => Err(e),
            },
        }
    }
}

} // verus!
