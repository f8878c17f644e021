use grid_duel::board::{Direction, Position, BOARD_MAX};
use grid_duel::codec::decode;
use grid_duel::input::Key;
use grid_duel::turn::{PollEvent, Role, Session, SessionError, TurnPhase};

const DIRECTIONS: [Direction; 4] =
    [Direction::Left, Direction::Right, Direction::Up, Direction::Down];

const KEYS: [Key; 9] = [
    Key::Left,
    Key::Right,
    Key::Up,
    Key::Down,
    Key::A,
    Key::D,
    Key::W,
    Key::S,
    Key::Other,
];

fn session_at(phase: TurnPhase, col: u8, row: u8) -> Session {
    Session {
        role: Role::Client,
        phase,
        local: Position::new(col, row),
        opponent: Position::new(0, 0),
    }
}

#[test]
fn host_starts_playing_in_the_origin() {
    let s = Session::new(Role::Host);
    assert_eq!(s.role, Role::Host);
    assert_eq!(s.phase, TurnPhase::Playing);
    assert_eq!(s.local, Position::new(0, 0));
    assert_eq!(s.opponent, Position::new(7, 7));
    assert!(!s.wants_poll());
}

#[test]
fn client_starts_waiting_at_seven_seven() {
    let s = Session::new(Role::Client);
    assert_eq!(s.role, Role::Client);
    assert_eq!(s.phase, TurnPhase::WaitingForOpponent);
    assert_eq!(s.local, Position::new(7, 7));
    assert_eq!(s.opponent, Position::new(0, 0));
    assert!(s.wants_poll());
}

#[test]
fn roles_mirror_each_other() {
    assert_eq!(Role::Host.other(), Role::Client);
    assert_eq!(Role::Client.other(), Role::Host);
    assert_eq!(Role::Host.start_position(), Position::new(0, 0));
    assert_eq!(Role::Client.start_position(), Position::new(7, 7));
    assert_eq!(Role::Host.initial_phase(), TurnPhase::Playing);
    assert_eq!(Role::Client.initial_phase(), TurnPhase::WaitingForOpponent);
    let host = Session::new(Role::Host);
    let client = Session::new(Role::Client);
    assert_ne!(host.phase, client.phase);
    assert_eq!(host.opponent, client.local);
    assert_eq!(client.opponent, host.local);
}

#[test]
fn host_moves_right_and_client_learns_it() {
    let mut host = Session::new(Role::Host);
    let mut client = Session::new(Role::Client);

    let packet = host.on_direction(Direction::Right);
    assert_eq!(packet, Some([1, 0]));
    assert_eq!(host.local, Position::new(1, 0));
    assert_eq!(host.phase, TurnPhase::WaitingForOpponent);
    assert_eq!(host.opponent, Position::new(7, 7));

    assert_eq!(client.on_poll(PollEvent::Packet([1, 0])), Ok(()));
    assert_eq!(client.opponent, Position::new(1, 0));
    assert_eq!(client.phase, TurnPhase::Playing);
    assert_eq!(client.local, Position::new(7, 7));
}

#[test]
fn client_cannot_move_right_beyond_eight() {
    let mut client = Session::new(Role::Client);
    assert_eq!(client.on_poll(PollEvent::Packet([1, 0])), Ok(()));
    assert_eq!(client.on_direction(Direction::Right), Some([8, 7]));
    assert_eq!(client.on_poll(PollEvent::Packet([2, 0])), Ok(()));
    assert_eq!(client.phase, TurnPhase::Playing);
    assert_eq!(client.local, Position::new(8, 7));

    let before = client;
    assert_eq!(client.on_direction(Direction::Right), None);
    assert_eq!(client, before);
    assert_eq!(client.phase, TurnPhase::Playing);
    assert_eq!(client.local, Position::new(8, 7));
}

#[test]
fn second_input_in_a_row_is_ignored() {
    for second in DIRECTIONS {
        let mut host = Session::new(Role::Host);
        assert_eq!(host.on_direction(Direction::Down), Some([0, 1]));
        assert_eq!(host.phase, TurnPhase::WaitingForOpponent);
        let after_first = host;
        assert_eq!(host.on_direction(second), None);
        assert_eq!(host, after_first);
    }
}

#[test]
fn accepted_move_changes_one_axis_and_ends_the_turn() {
    for col in 0..=BOARD_MAX {
        for row in 0..=BOARD_MAX {
            for dir in DIRECTIONS {
                let mut s = session_at(TurnPhase::Playing, col, row);
                let before = s;
                let expected = before.local.stepped(dir);
                let packet = s.on_direction(dir);
                match expected {
                    Some(next) => {
                        assert_eq!(packet, Some([next.col, next.row]));
                        assert_eq!(s.local, next);
                        assert_eq!(s.phase, TurnPhase::WaitingForOpponent);
                        assert_eq!(s.opponent, before.opponent);
                        assert_eq!(s.role, before.role);
                        assert!(s.local.is_in_bounds());
                    }
                    None => {
                        assert_eq!(packet, None);
                        assert_eq!(s, before);
                    }
                }
            }
        }
    }
}

#[test]
fn move_off_the_board_is_a_no_op() {
    let mut s = session_at(TurnPhase::Playing, 0, 0);
    let before = s;
    assert_eq!(s.on_direction(Direction::Left), None);
    assert_eq!(s, before);
    assert_eq!(s.on_direction(Direction::Up), None);
    assert_eq!(s, before);

    let mut s = session_at(TurnPhase::Playing, 8, 8);
    let before = s;
    assert_eq!(s.on_direction(Direction::Right), None);
    assert_eq!(s, before);
    assert_eq!(s.on_direction(Direction::Down), None);
    assert_eq!(s, before);
}

#[test]
fn input_is_ignored_while_waiting() {
    for col in 0..=BOARD_MAX {
        for row in 0..=BOARD_MAX {
            for dir in DIRECTIONS {
                let mut s = session_at(TurnPhase::WaitingForOpponent, col, row);
                let before = s;
                assert_eq!(s.on_direction(dir), None);
                assert_eq!(s, before);
            }
            for key in KEYS {
                let mut s = session_at(TurnPhase::WaitingForOpponent, col, row);
                let before = s;
                assert_eq!(s.on_key(key), None);
                assert_eq!(s, before);
            }
        }
    }
}

#[test]
fn keys_move_like_their_directions() {
    let cases = [
        (Key::Left, [3, 4]),
        (Key::A, [3, 4]),
        (Key::Right, [5, 4]),
        (Key::D, [5, 4]),
        (Key::Up, [4, 3]),
        (Key::W, [4, 3]),
        (Key::Down, [4, 5]),
        (Key::S, [4, 5]),
    ];
    for (key, packet) in cases {
        let mut s = session_at(TurnPhase::Playing, 4, 4);
        assert_eq!(s.on_key(key), Some(packet));
        assert_eq!(s.local, decode(packet));
        assert_eq!(s.phase, TurnPhase::WaitingForOpponent);
    }
}

#[test]
fn other_key_is_a_no_op_while_playing() {
    let mut s = session_at(TurnPhase::Playing, 4, 4);
    let before = s;
    assert_eq!(s.on_key(Key::Other), None);
    assert_eq!(s, before);
}

#[test]
fn packet_while_waiting_sets_opponent_and_returns_turn() {
    let mut s = session_at(TurnPhase::WaitingForOpponent, 2, 3);
    assert_eq!(s.on_poll(PollEvent::Packet([5, 6])), Ok(()));
    assert_eq!(s.opponent, Position::new(5, 6));
    assert_eq!(s.phase, TurnPhase::Playing);
    assert_eq!(s.local, Position::new(2, 3));
    assert!(!s.wants_poll());
}

#[test]
fn packet_is_consumed_once() {
    let mut s = session_at(TurnPhase::WaitingForOpponent, 2, 3);
    assert_eq!(s.on_poll(PollEvent::Packet([5, 6])), Ok(()));
    let after = s;
    assert_eq!(s.on_poll(PollEvent::Packet([1, 1])), Ok(()));
    assert_eq!(s, after);
    assert_eq!(s.on_poll(PollEvent::NoData), Ok(()));
    assert_eq!(s, after);
    assert_eq!(s.on_poll(PollEvent::Failed), Ok(()));
    assert_eq!(s, after);
}

#[test]
fn packet_off_the_board_is_taken_as_it_comes() {
    let mut s = session_at(TurnPhase::WaitingForOpponent, 2, 3);
    assert_eq!(s.on_poll(PollEvent::Packet([9, 200])), Ok(()));
    assert_eq!(s.opponent, Position::new(9, 200));
    assert!(!s.opponent.is_in_bounds());
    assert_eq!(s.phase, TurnPhase::Playing);
}

#[test]
fn no_data_changes_nothing() {
    let mut waiting = session_at(TurnPhase::WaitingForOpponent, 2, 3);
    let before = waiting;
    assert_eq!(waiting.on_poll(PollEvent::NoData), Ok(()));
    assert_eq!(waiting, before);

    let mut playing = session_at(TurnPhase::Playing, 2, 3);
    let before = playing;
    assert_eq!(playing.on_poll(PollEvent::NoData), Ok(()));
    assert_eq!(playing, before);
}

#[test]
fn failed_read_while_waiting_is_an_error() {
    let mut s = session_at(TurnPhase::WaitingForOpponent, 2, 3);
    let before = s;
    assert_eq!(s.on_poll(PollEvent::Failed), Err(SessionError::TransportFailed));
    assert_eq!(s, before);
}

#[test]
fn turns_alternate_over_a_whole_exchange() {
    let mut host = Session::new(Role::Host);
    let mut client = Session::new(Role::Client);
    let host_moves = [Direction::Right, Direction::Down, Direction::Right];
    let client_moves = [Direction::Left, Direction::Up, Direction::Right];
    for i in 0..3 {
        assert!(!host.wants_poll());
        assert!(client.wants_poll());
        let sent = host.on_direction(host_moves[i]).unwrap();
        assert_eq!(client.on_poll(PollEvent::Packet(sent)), Ok(()));
        assert_eq!(client.opponent, host.local);

        assert!(host.wants_poll());
        assert!(!client.wants_poll());
        assert_eq!(host.on_poll(PollEvent::NoData), Ok(()));
        let sent = client.on_direction(client_moves[i]).unwrap();
        assert_eq!(host.on_poll(PollEvent::Packet(sent)), Ok(()));
        assert_eq!(host.opponent, client.local);
    }
    assert_eq!(host.local, Position::new(2, 1));
    assert_eq!(client.local, Position::new(7, 6));
}
