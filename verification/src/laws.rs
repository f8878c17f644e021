//! What holds of every session: the rules of taking turns, stated over
//! the transitions of the state machine.

use crate::board::{Direction, BOARD_MAX};
use crate::codec::{packet_of, position_of};
use crate::input::Key;
use crate::turn::{PollEvent, Role, Session, TurnPhase};
use vstd::prelude::*;

verus! {

/// A move that is asked for while playing, and whose changed coordinate
/// stays on the board, is taken: the token goes exactly one step along
/// exactly one axis, the turn passes to the peer, and the packet to send
/// names the new position. Nothing else changes.
pub proof fn lemma_move_taken(s: Session, dir: Direction)
    requires
        s.wf(),
        s.phase == TurnPhase::Playing,
        0 <= s.local.target(dir) <= BOARD_MAX,
    ensures
        s.accepts(dir),
        s.after_direction(dir).phase == TurnPhase::WaitingForOpponent,
        s.after_direction(dir).role == s.role,
        s.after_direction(dir).opponent == s.opponent,
        ({
            let before = s.local;
            let after = s.after_direction(dir).local;
            match dir {
                Direction::Left => after.col == before.col - 1 && after.row == before.row,
                Direction::Right => after.col == before.col + 1 && after.row == before.row,
                Direction::Up => after.col == before.col && after.row == before.row - 1,
                Direction::Down => after.col == before.col && after.row == before.row + 1,
            }
        }),
        s.after_direction(dir).wf(),
        s.packet_for(dir) == Some(packet_of(s.after_direction(dir).local)),
{
}

/// A move whose changed coordinate would leave the board is not taken, in
/// whatever phase: the session stays as it is and nothing is sent.
pub proof fn lemma_move_off_board_ignored(s: Session, dir: Direction)
    requires
        s.wf(),
        !(0 <= s.local.target(dir) <= BOARD_MAX),
    ensures
        !s.accepts(dir),
        s.after_direction(dir) == s,
        s.packet_for(dir) is None,
{
}

/// While a session waits for the peer, no direction and no key changes it
/// or sends anything.
pub proof fn lemma_input_ignored_while_waiting(s: Session, dir: Direction, key: Key)
    requires
        s.phase == TurnPhase::WaitingForOpponent,
    ensures
        s.after_direction(dir) == s,
        s.packet_for(dir) is None,
        s.after_key(key) == s,
        s.packet_for_key(key) is None,
{
}

/// A key that does not steer changes nothing and sends nothing, in
/// whatever phase.
pub proof fn lemma_other_key_ignored(s: Session, key: Key)
    requires
        key.direction() is None,
    ensures
        s.after_key(key) == s,
        s.packet_for_key(key) is None,
{
}

/// A packet that comes while a session waits puts the peer's token where
/// the packet says and gives the turn back; this side's token and role
/// stay. The read is no failure.
pub proof fn lemma_packet_returns_turn(s: Session, bytes: [u8; 2])
    requires
        s.phase == TurnPhase::WaitingForOpponent,
    ensures
        s.after_poll(PollEvent::Packet(bytes)).opponent == position_of(bytes@),
        s.after_poll(PollEvent::Packet(bytes)).phase == TurnPhase::Playing,
        s.after_poll(PollEvent::Packet(bytes)).local == s.local,
        s.after_poll(PollEvent::Packet(bytes)).role == s.role,
        !s.poll_fails(PollEvent::Packet(bytes)),
{
}

/// One packet gives one transition: once it has given the turn back, no
/// further outcome of a read changes the session until this side has
/// moved.
pub proof fn lemma_packet_consumed_once(s: Session, bytes: [u8; 2], next: PollEvent)
    requires
        s.phase == TurnPhase::WaitingForOpponent,
    ensures
        s.after_poll(PollEvent::Packet(bytes)).after_poll(next) == s.after_poll(
            PollEvent::Packet(bytes),
        ),
        !s.after_poll(PollEvent::Packet(bytes)).poll_fails(next),
{
}

/// While a session plays, no outcome of a read changes it or ends it.
pub proof fn lemma_poll_ignored_while_playing(s: Session, event: PollEvent)
    requires
        s.phase == TurnPhase::Playing,
    ensures
        s.after_poll(event) == s,
        !s.poll_fails(event),
{
}

/// A read that finds no data leaves the phase and both positions as they
/// were, and is no failure.
pub proof fn lemma_no_data_changes_nothing(s: Session)
    ensures
        s.after_poll(PollEvent::NoData) == s,
        !s.poll_fails(PollEvent::NoData),
{
}

/// A failed read changes nothing either; it ends the session exactly
/// where the session was waiting.
pub proof fn lemma_failed_read_changes_nothing(s: Session)
    ensures
        s.after_poll(PollEvent::Failed) == s,
        s.poll_fails(PollEvent::Failed) <==> s.phase == TurnPhase::WaitingForOpponent,
{
}

/// Of two moves asked for in a row, the second does nothing where the first
/// was taken, whatever its direction.
pub proof fn lemma_second_move_ignored(s: Session, first: Direction, second: Direction)
    requires
        s.accepts(first),
    ensures
        s.after_direction(first).phase == TurnPhase::WaitingForOpponent,
        s.after_direction(first).after_direction(second) == s.after_direction(first),
        s.after_direction(first).packet_for(second) is None,
{
}

/// The turn ends exactly when a packet is to be sent: a session that plays
/// is waiting afterwards if and only if its move produced a packet.
pub proof fn lemma_waiting_iff_packet_sent(s: Session, dir: Direction)
    requires
        s.phase == TurnPhase::Playing,
    ensures
        s.after_direction(dir).phase == TurnPhase::WaitingForOpponent <==> s.packet_for(dir) is Some,
{
}

/// The turn comes back exactly when a packet arrives: a session that waits
/// is playing afterwards if and only if the read brought a packet.
pub proof fn lemma_playing_iff_packet_received(s: Session, event: PollEvent)
    requires
        s.phase == TurnPhase::WaitingForOpponent,
    ensures
        s.after_poll(event).phase == TurnPhase::Playing <==> event is Packet,
{
}

/// No transition takes this side's token off the board, and none changes
/// the role.
pub proof fn lemma_local_stays_on_board(s: Session, dir: Direction, key: Key, event: PollEvent)
    requires
        s.wf(),
    ensures
        s.after_direction(dir).wf(),
        s.after_key(key).wf(),
        s.after_poll(event).wf(),
        s.after_direction(dir).role == s.role,
        s.after_key(key).role == s.role,
        s.after_poll(event).role == s.role,
{
}

/// The peer's token stays on the board as long as the peer's packets name
/// places on the board. A packet is not checked, so one that names
/// another place puts the peer's token there.
pub proof fn lemma_opponent_on_board(s: Session, event: PollEvent)
    requires
        s.opponent.in_bounds(),
        event matches PollEvent::Packet(bytes) ==> position_of(bytes@).in_bounds(),
    ensures
        s.after_poll(event).opponent.in_bounds(),
{
}

/// After the connection is made exactly one side plays and the other
/// waits, each token stands on the board, and each side holds the corner
/// of the other as the peer's position.
pub proof fn lemma_start_alternates(role: Role)
    ensures
        Session::initial(Role::Host).phase == TurnPhase::Playing,
        Session::initial(Role::Client).phase == TurnPhase::WaitingForOpponent,
        Session::initial(role).phase != Session::initial(role.peer()).phase,
        Session::initial(role).opponent == Session::initial(role.peer()).local,
        Session::initial(role).wf(),
        Session::initial(role).opponent.in_bounds(),
        Session::initial(role).role == role,
{
}

/// What one side sends the other learns: where the mover's move is taken
/// and its packet reaches the waiting peer, the peer holds the mover's new
/// position as the opponent's, and both have changed phase.
pub proof fn lemma_peer_learns_move(mover: Session, waiter: Session, dir: Direction, bytes: [u8; 2])
    requires
        mover.accepts(dir),
        waiter.phase == TurnPhase::WaitingForOpponent,
        mover.packet_for(dir) == Some(bytes@),
    ensures
        waiter.after_poll(PollEvent::Packet(bytes)).opponent == mover.after_direction(dir).local,
        waiter.after_poll(PollEvent::Packet(bytes)).opponent.in_bounds() <== mover.wf(),
        waiter.after_poll(PollEvent::Packet(bytes)).phase == TurnPhase::Playing,
        mover.after_direction(dir).phase == TurnPhase::WaitingForOpponent,
{
    let sent = mover.local.step(dir).unwrap();
    assert(bytes@ == packet_of(sent));
    assert(bytes@[0] == sent.col && bytes@[1] == sent.row);
}

} // verus!
