//! The turn state machine: who may move, and what a move or a packet
//! from the peer does to a session.
//!
//! A session never reads or writes. The caller hands in what happened (a
//! key, or the outcome of one read that did not block) and gets back what to
//! do (a packet to send, or an error to stop on).

use crate::board::{Direction, Position};
use crate::codec::{decode, encode, packet_of, position_of};
use crate::input::Key;
use vstd::prelude::*;

verus! {

/// Which end of the connection this side is. It is chosen once and never
/// changes.
#[derive(Clone, Copy, Debug, PartialEq, Eq, Structural)]
pub enum Role {
    /// The side that listened. It starts in the corner (0, 0) and moves
    /// first.
    Host,
    /// The side that dialled. It starts at (7, 7) and waits first.
    Client,
}

/// Whose turn it is, seen from this side.
#[derive(Clone, Copy, Debug, PartialEq, Eq, Structural)]
pub enum TurnPhase {
    /// This side may move; the transport is not read.
    Playing,
    /// This side has moved and waits for the peer's move; keys are
    /// ignored.
    WaitingForOpponent,
}

/// What one read of the transport brought.
#[derive(Clone, Copy, Debug, PartialEq, Eq)]
pub enum PollEvent {
    /// Nothing was there to read yet.
    NoData,
    /// The two bytes of a move.
    Packet([u8; 2]),
    /// The read failed for another reason than that nothing was there.
    Failed,
}

/// Why a session cannot go on.
#[derive(Clone, Copy, Debug, PartialEq, Eq, Structural)]
pub enum SessionError {
    /// The transport failed while this side waited for the peer.
    TransportFailed,
}

/// One side's state of the game.
#[derive(Clone, Copy, Debug, PartialEq, Eq, Structural)]
pub struct Session {
    pub role: Role,
    pub phase: TurnPhase,
    /// Where this side's token stands.
    pub local: Position,
    /// Where the peer's token stood when it last told.
    pub opponent: Position,
}

impl Role {
    /// The corner in which this role's token starts.
    pub open spec fn start(self) -> Position {
        match self {
            Role::Host => Position { col: 0, row: 0 },
            Role::Client => Position { col: 7, row: 7 },
        }
    }

    /// The other role.
    pub open spec fn peer(self) -> Role {
        match self {
            Role::Host => Role::Client,
            Role::Client => Role::Host,
        }
    }

    /// The phase in which this role starts: the host plays, the client
    /// waits.
    pub open spec fn first_phase(self) -> TurnPhase {
        match self {
            Role::Host => TurnPhase::Playing,
            Role::Client => TurnPhase::WaitingForOpponent,
        }
    }

    /// Gives the other role.
    pub fn other(&self) -> (r: Role)
        ensures
            r == self.peer(),
    {
        match self {
            Role::Host => Role::Client,
            Role::Client => Role::Host,
        }
    }

    /// Gives the corner in which this role's token starts.
    pub fn start_position(&self) -> (p: Position)
        ensures
            p == self.start(),
            p.in_bounds(),
    {
        match self {
            Role::Host => Position { col: 0, row: 0 },
            Role::Client => Position { col: 7, row: 7 },
        }
    }

    /// Gives the phase in which this role starts.
    pub fn initial_phase(&self) -> (phase: TurnPhase)
        ensures
            phase == self.first_phase(),
    {
        match self {
            Role::Host => TurnPhase::Playing,
            Role::Client => TurnPhase::WaitingForOpponent,
        }
    }
}

impl Session {
    /// The session as it stands right after the connection was made.
    pub open spec fn initial(role: Role) -> Session {
        Session {
            role,
            phase: role.first_phase(),
            local: role.start(),
            opponent: role.peer().start(),
        }
    }

    /// This side's token is on the board.
    pub open spec fn wf(self) -> bool {
        self.local.in_bounds()
    }

    /// The move `dir` is taken: it is this side's turn and the step stays
    /// on the board.
    pub open spec fn accepts(self, dir: Direction) -> bool {
        self.phase == TurnPhase::Playing && self.local.step(dir) is Some
    }

    /// The session after the player asked for a move in direction `dir`.
    /// A move that is taken puts the token one step further and ends the
    /// turn; one that is not changes nothing.
    pub open spec fn after_direction(self, dir: Direction) -> Session {
        if self.accepts(dir) {
            Session {
                phase: TurnPhase::WaitingForOpponent,
                local: self.local.step(dir).unwrap(),
                ..self
            }
        } else {
            self
        }
    }

    /// The packet to send after the player asked for a move in direction
    /// `dir`: the new position where the move is taken, nothing else.
    pub open spec fn packet_for(self, dir: Direction) -> Option<Seq<u8>> {
        if self.accepts(dir) {
            Some(packet_of(self.local.step(dir).unwrap()))
        } else {
            None
        }
    }

    /// The session after a key was pressed: as after the direction that the
    /// key stands for, and unchanged for any other key.
    pub open spec fn after_key(self, key: Key) -> Session {
        match key.direction() {
            Some(dir) => self.after_direction(dir),
            None => self,
        }
    }

    /// The packet to send after a key was pressed.
    pub open spec fn packet_for_key(self, key: Key) -> Option<Seq<u8>> {
        match key.direction() {
            Some(dir) => self.packet_for(dir),
            None => None,
        }
    }

    /// The transport is read in this phase and in no other.
    pub open spec fn polls(self) -> bool {
        self.phase == TurnPhase::WaitingForOpponent
    }

    /// The session after one read of the transport. Only a packet that
    /// comes while this side waits changes anything: the peer's token goes
    /// where the packet says and the turn comes back.
    pub open spec fn after_poll(self, event: PollEvent) -> Session {
        match event {
            PollEvent::Packet(bytes) if self.polls() => Session {
                phase: TurnPhase::Playing,
                opponent: position_of(bytes@),
                ..self
            },
            _ => self,
        }
    }

    /// The read ends the session: it failed while this side waited.
    pub open spec fn poll_fails(self, event: PollEvent) -> bool {
        self.polls() && event is Failed
    }

    /// Starts a session for `role`: the host in (0, 0) and playing, the
    /// client in (7, 7) and waiting, each with the peer in the other
    /// corner.
    pub fn new(role: Role) -> (s: Session)
        ensures
            s == Session::initial(role),
            s.wf(),
            s.opponent.in_bounds(),
    {
        Session {
            role,
            phase: role.initial_phase(),
            local: role.start_position(),
            opponent: role.other().start_position(),
        }
    }

    /// Tells whether the transport is to be read on this tick.
    pub fn wants_poll(&self) -> (b: bool)
        ensures
            b == self.polls(),
    {
        self.phase == TurnPhase::WaitingForOpponent
    }

    /// Handles a request to move in direction `dir`. Where it is this
    /// side's turn and the step stays on the board, the token moves, the
    /// turn ends and the packet to send is returned. Otherwise nothing
    /// changes and nothing is to be sent.
    pub fn on_direction(&mut self, dir: Direction) -> (packet: Option<[u8; 2]>)
        ensures
            *final(self) == old(self).after_direction(dir),
            packet is Some <==> old(self).accepts(dir),
            packet is Some ==> Some(packet.unwrap()@) == old(self).packet_for(dir),
            packet is Some ==> packet.unwrap()@ == packet_of(final(self).local),
            old(self).wf() ==> final(self).wf(),
    {
        if self.phase != TurnPhase::Playing {
            return None;
        }
        match self.local.stepped(dir) {
            Some(next) => {
                self.local = next;
                self.phase = TurnPhase::WaitingForOpponent;
                Some(encode(next))
            },
            None => None,
        }
    }

    /// Handles a key: a key that steers is a request to move in its
    /// direction, any other key does nothing.
    pub fn on_key(&mut self, key: Key) -> (packet: Option<[u8; 2]>)
        ensures
            *final(self) == old(self).after_key(key),
            packet is Some <==> old(self).packet_for_key(key) is Some,
            packet is Some ==> Some(packet.unwrap()@) == old(self).packet_for_key(key),
            old(self).wf() ==> final(self).wf(),
    {
        match key.to_direction() {
            Some(dir) => self.on_direction(dir),
            None => None,
        }
    }

    /// Handles the outcome of one read of the transport. While this side
    /// waits, a packet sets the peer's position and gives the turn back,
    /// no data changes nothing, and a failed read is an error that leaves
    /// the session as it was. While this side plays, no outcome changes
    /// anything.
    pub fn on_poll(&mut self, event: PollEvent) -> (res: Result<(), SessionError>)
        ensures
            *final(self) == old(self).after_poll(event),
            res is Err <==> old(self).poll_fails(event),
            res is Err ==> res == Err::<(), SessionError>(SessionError::TransportFailed),
            old(self).wf() ==> final(self).wf(),
    {
        if self.phase != TurnPhase::WaitingForOpponent {
            return Ok(());
        }
        match event {
            PollEvent::NoData => Ok(()),
            PollEvent::Packet(bytes) => {
                self.opponent = decode(bytes);
                self.phase = TurnPhase::Playing;
                Ok(())
            },
            PollEvent::Failed => Err(SessionError::TransportFailed),
        }
    }
}

} // verus!
