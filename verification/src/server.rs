//! The network session: a periodic-reconnect connection state machine, the
//! reactor bookkeeping that owns the outbound telemetry queue, and the
//! bridge state an application loop works with.
//!
//! Everything here is the decision half of the reactor. The I/O half — the
//! sockets, the readiness poll, the recurring timer — lives outside the
//! crate and drives this state machine: it hands each readiness event and
//! each timer firing to the matching handler below and performs the action
//! the handler returns (send these bytes to this peer, attempt a connect to
//! this address). Exactly one such loop owns a `Server` value at a time, so
//! the connection state is never shared and never duplicated.

use vstd::prelude::*;
use crate::message::{encoded_bytes, decoded, DsMessage, RobotMessage};

verus! {

/// The control port on the remote host; a successful connect to it marks
/// the session as live.
pub const CONTROL_PORT: u16 = 1234;

/// The telemetry port, used both for the local bind and on the remote peer.
pub const TELEMETRY_PORT: u16 = 1235;

/// A plain IPv4 socket address. The I/O layer converts it to its own
/// address type when it opens a connection or sends a datagram.
#[derive(Copy, Clone, Debug, PartialEq, Eq, Structural)]
pub struct PeerAddr {
    pub a: u8,
    pub b: u8,
    pub c: u8,
    pub d: u8,
    pub port: u16,
}

/// The configured remote control address: the robot's host, control port.
pub open spec fn spec_control_addr() -> PeerAddr {
    PeerAddr { a: 10, b: 36, c: 36, d: 21, port: CONTROL_PORT }
}

/// The telemetry peer: the same remote host paired with the telemetry port.
pub open spec fn spec_telemetry_peer() -> PeerAddr {
    PeerAddr { a: 10, b: 36, c: 36, d: 21, port: TELEMETRY_PORT }
}

/// The configured remote control address, for the I/O layer.
pub fn control_addr() -> (r: PeerAddr)
    ensures
        r == spec_control_addr(),
{
    PeerAddr { a: 10, b: 36, c: 36, d: 21, port: CONTROL_PORT }
}

/// The telemetry peer address, derived from the control address by pairing
/// the same host with the telemetry port.
pub fn telemetry_peer() -> (r: PeerAddr)
    ensures
        r == spec_telemetry_peer(),
{
    let control = control_addr();
    PeerAddr { a: control.a, b: control.b, c: control.c, d: control.d, port: TELEMETRY_PORT }
}

/// Which transport channel a command addresses.
#[derive(Copy, Clone, Debug, PartialEq, Eq, Structural)]
pub enum Channel {
    Tcp,
    Udp,
}

/// Whether a control channel to the robot exists. `Connected` records the
/// telemetry peer derived at connect time; the control-channel handle that
/// the successful connect produced is owned by the I/O layer alongside this
/// state. No transition leads back to `Disconnected`: a control-channel
/// read or write error leaves the session `Connected`, a deliberate choice
/// kept from the base design — recovery is driven solely by the timer, and
/// only ever forward from `Disconnected`.
#[derive(Copy, Clone, Debug, PartialEq, Eq, Structural)]
pub enum ConnectionState {
    Disconnected,
    Connected { peer: PeerAddr },
}

/// Whether a byte sequence is the complete wire image of some outbound
/// message.
pub open spec fn is_encoded_message(bytes: Seq<u8>) -> bool {
    exists|m: DsMessage| bytes == encoded_bytes(m)
}

/// The reactor's state: the connection state machine, the outbound
/// telemetry queue, and the two queues of decoded messages and flag
/// updates waiting for the application side.
pub struct Server {
    /// Exactly one connection state at any instant, mutated only by the
    /// handlers below.
    pub state: ConnectionState,
    /// Already-encoded outbound buffers awaiting transmission, drained one
    /// per writable event, most recently pushed first.
    pub udp_messages: Vec<Vec<u8>>,
    /// Decoded inbound messages waiting for `ServerHandle::recv`, oldest
    /// first.
    pub inbound: Vec<RobotMessage>,
    /// Connected-flag updates waiting for `ServerHandle::tick`, oldest
    /// first.
    pub connected_updates: Vec<bool>,
    /// Whether the telemetry socket is registered for write readiness.
    pub write_interest: bool,
    /// How many connects the timer has attempted, for observation.
    pub connect_attempts: u64,
}

impl Server {
    /// Every buffer in the outbound queue is a complete, already-encoded
    /// message — never a fragment.
    pub open spec fn wf(self) -> bool {
        forall|i: int|
            0 <= i < self.udp_messages@.len() ==> #[trigger] is_encoded_message(
                self.udp_messages@[i]@,
            )
    }

    /// The outbound queue as the byte sequences it holds.
    pub open spec fn queue_view(self) -> Seq<Seq<u8>> {
        self.udp_messages@.map(|i: int, b: Vec<u8>| b@)
    }

    /// Well-formedness depends on the outbound queue alone, so it carries
    /// over to any state that holds the same queue.
    proof fn lemma_wf_same_queue(a: Server, b: Server)
        requires
            a.wf(),
            a.udp_messages == b.udp_messages,
        ensures
            b.wf(),
    {
        assert forall|i: int| 0 <= i < b.udp_messages@.len() implies #[trigger] is_encoded_message(
            b.udp_messages@[i]@,
        ) by {
            assert(b.udp_messages@[i] == a.udp_messages@[i]);
            assert(is_encoded_message(a.udp_messages@[i]@));
        }
    }

    /// A fresh reactor: disconnected, nothing queued in any direction. The
    /// I/O layer binds the telemetry socket and registers it for read
    /// readiness when it adopts this state.
    pub fn new() -> (r: Server)
        ensures
            r.state is Disconnected,
            r.udp_messages@.len() == 0,
            r.inbound@.len() == 0,
            r.connected_updates@.len() == 0,
            !r.write_interest,
            r.connect_attempts == 0,
            r.wf(),
    {
        Server {
            state: ConnectionState::Disconnected,
            udp_messages: Vec::new(),
            inbound: Vec::new(),
            connected_updates: Vec::new(),
            write_interest: false,
            connect_attempts: 0,
        }
    }

    /// A command arrived from the application side. For the telemetry
    /// channel: encode the message, push it onto the outbound queue, and
    /// ask for write readiness (idempotent if already asked). The control
    /// channel carries no outbound payload in this design.
    pub fn notify(&mut self, channel: Channel, message: DsMessage)
        requires
            old(self).wf(),
        ensures
            final(self).wf(),
            final(self).state == old(self).state,
            final(self).inbound == old(self).inbound,
            final(self).connected_updates == old(self).connected_updates,
            final(self).connect_attempts == old(self).connect_attempts,
            channel is Udp ==> {
                &&& final(self).queue_view() == old(self).queue_view().push(
                    encoded_bytes(message),
                )
                &&& final(self).udp_messages@.len() == old(self).udp_messages@.len() + 1
                &&& final(self).write_interest
            },
            channel is Tcp ==> *final(self) == *old(self),
    {
        match channel {
            Channel::Tcp => (),
            Channel::Udp => {
                self.write_interest = true;
                let buffer = message.encode();
                self.udp_messages.push(buffer);
                proof {
                    assert(self.queue_view() =~= old(self).queue_view().push(
                        encoded_bytes(message),
                    ));
                    assert forall|i: int|
                        0 <= i < self.udp_messages@.len() implies #[trigger] is_encoded_message(
                        self.udp_messages@[i]@,
                    ) by {
                        if i < old(self).udp_messages@.len() {
                            assert(self.udp_messages@[i] == old(self).udp_messages@[i]);
                            assert(is_encoded_message(old(self).udp_messages@[i]@));
                        } else {
                            assert(self.udp_messages@[i]@ == encoded_bytes(message));
                        }
                    }
                }
            },
        }
    }

    /// A datagram arrived on the telemetry socket. Decode it and queue the
    /// message for the application; a datagram that does not decode is
    /// dropped and nothing else changes, so malformed input can never harm
    /// the reactor.
    pub fn ready_udp_readable(&mut self, data: &[u8])
        requires
            old(self).wf(),
        ensures
            final(self).wf(),
            final(self).state == old(self).state,
            final(self).udp_messages == old(self).udp_messages,
            final(self).connected_updates == old(self).connected_updates,
            final(self).write_interest == old(self).write_interest,
            final(self).connect_attempts == old(self).connect_attempts,
            final(self).inbound@ == match decoded(data@) {
                Some(m) => old(self).inbound@.push(m),
                None => old(self).inbound@,
            },
    {
        if let Some(message) = RobotMessage::decode(data) {
            self.inbound.push(message);
        }
        proof {
            Server::lemma_wf_same_queue(*old(self), *self);
        }
    }

    /// The telemetry socket reported write readiness. While disconnected
    /// there is no peer to send to: the event is skipped (the I/O layer
    /// logs it; it cannot occur under correct use). Otherwise the most
    /// recently pushed buffer leaves the queue, to be sent to the
    /// telemetry peer; once the queue is empty, write interest is dropped
    /// so a perpetually writable socket cannot busy-loop. A writable event
    /// with a connected session and an empty queue would be an internal
    /// invariant violation, excluded here rather than handled.
    pub fn ready_udp_writable(&mut self) -> (r: Option<(Vec<u8>, PeerAddr)>)
        requires
            old(self).wf(),
            old(self).state is Connected ==> old(self).udp_messages@.len() > 0,
        ensures
            final(self).wf(),
            final(self).state == old(self).state,
            final(self).inbound == old(self).inbound,
            final(self).connected_updates == old(self).connected_updates,
            final(self).connect_attempts == old(self).connect_attempts,
            old(self).state is Disconnected ==> r is None && *final(self) == *old(self),
            old(self).state matches ConnectionState::Connected { peer } ==> {
                &&& r matches Some(out) && out.1 == peer && out.0@ == old(
                    self,
                ).queue_view().last()
                &&& final(self).queue_view() == old(self).queue_view().drop_last()
                &&& final(self).udp_messages@.len() == old(self).udp_messages@.len() - 1
                &&& final(self).write_interest == (old(self).udp_messages@.len() > 1
                    && old(self).write_interest)
            },
    {
        let peer = match self.state {
            ConnectionState::Connected { peer } => peer,
            ConnectionState::Disconnected => {
                proof {
                    Server::lemma_wf_same_queue(*old(self), *self);
                }
                return None;
            },
        };
        let buffer = self.udp_messages.pop().unwrap();
        if self.udp_messages.len() == 0 {
            self.write_interest = false;
        }
        proof {
            assert(self.queue_view() =~= old(self).queue_view().drop_last());
            assert(buffer@ == old(self).queue_view().last());
            assert forall|i: int|
                0 <= i < self.udp_messages@.len() implies #[trigger] is_encoded_message(
                self.udp_messages@[i]@,
            ) by {
                assert(self.udp_messages@[i] == old(self).udp_messages@[i]);
                assert(is_encoded_message(old(self).udp_messages@[i]@));
            }
        }
        Some((buffer, peer))
    }

    /// The control socket reported read readiness. No payload protocol is
    /// defined over the control channel yet; the event is acknowledged and
    /// nothing changes. Reserved for future inbound traffic.
    pub fn ready_tcp_readable(&mut self)
        ensures
            *final(self) == *old(self),
    {
    }

    /// The recurring timer fired. The I/O layer rearms the timer on every
    /// firing regardless of state. While disconnected, exactly one connect
    /// attempt is made per firing: the returned address is the control
    /// address the I/O layer must now try to connect to, reporting success
    /// through `connect_succeeded` and a failure not at all — the state is
    /// already right for the fixed-period retry at the next firing. While
    /// connected, nothing happens.
    pub fn timeout(&mut self) -> (r: Option<PeerAddr>)
        requires
            old(self).wf(),
            old(self).connect_attempts < u64::MAX,
        ensures
            final(self).wf(),
            old(self).state is Disconnected ==> r == Some(spec_control_addr()) && *final(self)
                == retry_step(*old(self)),
            old(self).state is Connected ==> r is None && *final(self) == *old(self),
    {
        let r = match self.state {
            ConnectionState::Disconnected => {
                self.connect_attempts = self.connect_attempts + 1;
                Some(control_addr())
            },
            ConnectionState::Connected { .. } => None,
        };
        proof {
            Server::lemma_wf_same_queue(*old(self), *self);
        }
        r
    }

    /// A connect attempt issued by `timeout` succeeded. Derive the
    /// telemetry peer from the same remote host, move to `Connected`, and
    /// queue a flag update for the application; the I/O layer keeps the
    /// new control handle and registers it for read readiness.
    pub fn connect_succeeded(&mut self)
        requires
            old(self).wf(),
            old(self).state is Disconnected,
        ensures
            final(self).wf(),
            final(self).state == (ConnectionState::Connected { peer: spec_telemetry_peer() }),
            final(self).connected_updates@ == old(self).connected_updates@.push(true),
            final(self).udp_messages == old(self).udp_messages,
            final(self).inbound == old(self).inbound,
            final(self).write_interest == old(self).write_interest,
            final(self).connect_attempts == old(self).connect_attempts,
    {
        let peer = telemetry_peer();
        self.state = ConnectionState::Connected { peer };
        self.connected_updates.push(true);
        proof {
            Server::lemma_wf_same_queue(*old(self), *self);
        }
    }
}

/// What one timer firing does to a disconnected reactor whose connect
/// attempt then fails: one more attempt on the books, everything else as
/// it was.
pub open spec fn retry_step(s: Server) -> Server {
    Server { connect_attempts: (s.connect_attempts + 1) as u64, ..s }
}

/// `n` timer firings in a row, each one's connect attempt failing.
pub open spec fn retry_steps(s: Server, n: nat) -> Server
    decreases n,
{
    if n == 0 {
        s
    } else {
        retry_step(retry_steps(s, (n - 1) as nat))
    }
}

/// LAW: while no connect attempt succeeds, the session stays
/// `Disconnected` through any number of timer firings, each firing makes
/// exactly one connect attempt, and no queue is touched.
pub proof fn lemma_never_connecting_stays_disconnected(s: Server, n: nat)
    requires
        s.state is Disconnected,
        s.connect_attempts + n <= u64::MAX,
    ensures
        retry_steps(s, n).state is Disconnected,
        retry_steps(s, n).connect_attempts == s.connect_attempts + n,
        retry_steps(s, n).udp_messages == s.udp_messages,
        retry_steps(s, n).inbound == s.inbound,
        retry_steps(s, n).connected_updates == s.connected_updates,
    decreases n,
{
    if n > 0 {
        lemma_never_connecting_stays_disconnected(s, (n - 1) as nat);
    }
}

/// LAW: the outbound queue drains last-in-first-out. With any backlog `q`,
/// after queueing `a` and then `b`, the first writable event takes `b`'s
/// encoding, the second takes `a`'s, and the backlog is back to `q`.
pub proof fn lemma_outbound_lifo(q: Seq<Seq<u8>>, a: DsMessage, b: DsMessage)
    ensures
        ({
            let q2 = q.push(encoded_bytes(a)).push(encoded_bytes(b));
            q2.last() == encoded_bytes(b) && q2.drop_last().last() == encoded_bytes(a)
                && q2.drop_last().drop_last() == q
        }),
{
    let q1 = q.push(encoded_bytes(a));
    let q2 = q1.push(encoded_bytes(b));
    assert(q2.drop_last() =~= q1);
    assert(q1.drop_last() =~= q);
}

/// LAW: inbound delivery is first-in-first-out. With any backlog `q`, two
/// messages decoded in the order `m1`, `m2` stand at adjacent positions in
/// that order, and `recv` returns positions front first.
pub proof fn lemma_inbound_fifo(q: Seq<RobotMessage>, m1: RobotMessage, m2: RobotMessage)
    ensures
        ({
            let q2 = q.push(m1).push(m2);
            q2[q.len() as int] == m1 && q2[q.len() as int + 1] == m2
        }),
{
}

/// The application side of the bridge: the cached connected flag together
/// with the session it feeds and drains. The I/O loop drives the reactor
/// handlers above and the application loop calls the methods below;
/// nothing here touches a socket. The handle owns the session for the
/// remainder of the process — no shutdown or join is defined, and a
/// submitted message is never silently dropped.
pub struct ServerHandle {
    /// The session this handle feeds and drains.
    pub server: Server,
    /// The most recent connected-flag update `tick` has seen.
    pub connected: bool,
}

impl ServerHandle {
    /// A fresh bridge over a fresh, disconnected session.
    pub fn new() -> (r: ServerHandle)
        ensures
            r.server.state is Disconnected,
            r.server.udp_messages@.len() == 0,
            r.server.inbound@.len() == 0,
            r.server.connected_updates@.len() == 0,
            !r.server.write_interest,
            r.server.connect_attempts == 0,
            r.server.wf(),
            !r.connected,
    {
        ServerHandle { server: Server::new(), connected: false }
    }

    /// Submit one outbound message for the telemetry channel. Non-blocking:
    /// the message is encoded and queued; transmission happens at the next
    /// writable event.
    pub fn send_udp(&mut self, message: DsMessage)
        requires
            old(self).server.wf(),
        ensures
            final(self).server.wf(),
            final(self).server.queue_view() == old(self).server.queue_view().push(
                encoded_bytes(message),
            ),
            final(self).server.udp_messages@.len() == old(self).server.udp_messages@.len() + 1,
            final(self).server.write_interest,
            final(self).server.state == old(self).server.state,
            final(self).server.inbound == old(self).server.inbound,
            final(self).server.connected_updates == old(self).server.connected_updates,
            final(self).server.connect_attempts == old(self).server.connect_attempts,
            final(self).connected == old(self).connected,
    {
        self.server.notify(Channel::Udp, message);
    }

    /// Take at most one pending decoded inbound message, oldest first.
    /// Callers loop until `None` to drain a batch.
    pub fn recv(&mut self) -> (r: Option<RobotMessage>)
        ensures
            old(self).server.wf() ==> final(self).server.wf(),
            old(self).server.inbound@.len() == 0 ==> r is None && *final(self) == *old(self),
            old(self).server.inbound@.len() > 0 ==> r == Some(old(self).server.inbound@[0])
                && final(self).server.inbound@ == old(self).server.inbound@.skip(1),
            final(self).server.state == old(self).server.state,
            final(self).server.udp_messages == old(self).server.udp_messages,
            final(self).server.connected_updates == old(self).server.connected_updates,
            final(self).server.write_interest == old(self).server.write_interest,
            final(self).server.connect_attempts == old(self).server.connect_attempts,
            final(self).connected == old(self).connected,
    {
        let r = if self.server.inbound.len() == 0 {
            None
        } else {
            let message = self.server.inbound.remove(0);
            proof {
                assert(self.server.inbound@ =~= old(self).server.inbound@.skip(1));
            }
            Some(message)
        };
        proof {
            if old(self).server.wf() {
                Server::lemma_wf_same_queue(old(self).server, self.server);
            }
        }
        r
    }

    /// Drain all pending connected-flag updates and cache the most recent
    /// one. Non-blocking; must be called periodically by the application
    /// loop; has no effect on reactor-owned state.
    pub fn tick(&mut self)
        ensures
            old(self).server.wf() ==> final(self).server.wf(),
            final(self).server.connected_updates@.len() == 0,
            final(self).connected == (if old(self).server.connected_updates@.len() == 0 {
                old(self).connected
            } else {
                old(self).server.connected_updates@.last()
            }),
            final(self).server.state == old(self).server.state,
            final(self).server.udp_messages == old(self).server.udp_messages,
            final(self).server.inbound == old(self).server.inbound,
            final(self).server.write_interest == old(self).server.write_interest,
            final(self).server.connect_attempts == old(self).server.connect_attempts,
    {
        let pending = self.server.connected_updates.len();
        if pending > 0 {
            self.connected = self.server.connected_updates[pending - 1];
            self.server.connected_updates.clear();
        }
        proof {
            if old(self).server.wf() {
                Server::lemma_wf_same_queue(old(self).server, self.server);
            }
        }
    }
}

} // verus!
