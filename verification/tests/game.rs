use tris3d::errors::Error;
use tris3d::game::Game;
use tris3d::game::Status;

#[test]
fn new_game_is_waiting_for_players() {
    assert_eq!(Game::new().num_players(), 0);
    assert_eq!(Game::new().status, Status::WaitingForPlayers);
}

#[test]
fn add_player_increments_num_players() {
    let mut game = Game::new();
    match game.add_player(String::from("player 1")) {
        Ok(_) => assert_eq!(game.num_players(), 1),
        Err(_) => assert!(false),
    }
    match game.add_player(String::from("player 2")) {
        Ok(_) => assert_eq!(game.num_players(), 2),
        Err(_) => assert!(false),
    }
    match game.add_player(String::from("player 3")) {
        Ok(_) => assert_eq!(game.num_players(), 3),
        Err(_) => assert!(false),
    }
}

#[test]
fn add_player_checks_it_was_not_already_added() {
    let mut game = Game::new();
    game.add_player(String::from("Alice")).unwrap();

    assert_eq!(
        game.add_player(String::from("Alice")).unwrap_err(),
        Error::CannotAddSamePlayerTwice
    );
}

#[test]
fn add_player_does_not_add_more_players_than_allowed() {
    let mut game = Game::new();
    game.add_player(String::from("Alice")).unwrap();
    game.add_player(String::from("Bob")).unwrap();
    game.add_player(String::from("Neuromancer")).unwrap();

    assert_eq!(
        game.add_player(String::from("Another player")).unwrap_err(),
        Error::CannotAddMoreThanThreePlayers
    );
}

#[test]
fn game_starts_when_third_player_joins() {
    let mut game = Game::new();
    game.add_player(String::from("Alice")).unwrap();
    assert_eq!(game.status, Status::WaitingForPlayers);
    game.add_player(String::from("Bob")).unwrap();
    assert_eq!(game.status, Status::WaitingForPlayers);
    game.add_player(String::from("Neuromancer")).unwrap();
    assert_eq!(game.status, Status::IsPlaying);
}

#[test]
fn add_move_checks_that_game_is_not_waiting_for_players() {
    let mut game = Game::new();
    game.add_player(String::from("Alice")).unwrap();
    game.add_player(String::from("Bob")).unwrap();

    assert_eq!(
        game.add_move(String::from("Alice"), 'A').unwrap_err(),
        Error::GameNotStartedYet
    );
}

#[test]
fn add_move_checks_that_player_is_playing() {
    let mut game = Game::new();
    game.add_player(String::from("Alice")).unwrap();
    game.add_player(String::from("Bob")).unwrap();
    game.add_player(String::from("Neuromancer")).unwrap();

    assert_eq!(
        game.add_move(String::from("Alice"), ' ').unwrap_err(),
        Error::InvalidPosition
    );
}

#[test]
fn add_move_checks_that_player_turn_is_correct() {
    let mut game = Game::new();
    game.add_player(String::from("Alice")).unwrap();
    game.add_player(String::from("Bob")).unwrap();
    game.add_player(String::from("Neuromancer")).unwrap();

    assert_eq!(
        game.add_move(String::from("Bob"), 'A').unwrap_err(),
        Error::PlayerMustWaitForTurn
    );
}

#[test]
fn add_move_checks_that_position_is_valid() {
    let mut game = Game::new();
    game.add_player(String::from("Alice")).unwrap();
    game.add_player(String::from("Bob")).unwrap();
    game.add_player(String::from("Neuromancer")).unwrap();

    assert_eq!(
        game.add_move(String::from("Another player"), 'A').unwrap_err(),
        Error::PlayerNotFound
    );
}

#[test]
fn add_move_checks_if_game_is_over() {
    let mut game = Game::new();
    game.add_player(String::from("Alice")).unwrap();
    game.add_player(String::from("Bob")).unwrap();
    game.add_player(String::from("Neuromancer")).unwrap();

    game.add_move(String::from("Alice"), 'A').unwrap();
    game.add_move(String::from("Bob"), 'H').unwrap();
    game.add_move(String::from("Neuromancer"), 'G').unwrap();
    game.add_move(String::from("Alice"), '*').unwrap();
    game.add_move(String::from("Bob"), 'I').unwrap();
    game.add_move(String::from("Neuromancer"), 'F').unwrap();
    game.add_move(String::from("Alice"), 'V').unwrap();

    assert_eq!(
        game.add_move(String::from("Bob"), 'B').unwrap_err(),
        Error::GameIsOver
    );
}

#[test]
fn play() {
    let mut game = tris3d::new_game();

    let player_1 = String::from("Alice");
    let player_2 = String::from("Bob");
    let player_3 = String::from("Neuromancer");

    game.add_player(player_1).unwrap();
    game.add_player(player_2).unwrap();
    game.add_player(player_3).unwrap();

    assert_eq!(game.add_move(String::from("Alice"), 'A').unwrap(), 0);
    assert_eq!(game.add_move(String::from("Bob"), 'H').unwrap(), 0);
    assert_eq!(game.add_move(String::from("Neuromancer"), 'G').unwrap(), 0);
    assert_eq!(game.add_move(String::from("Alice"), '*').unwrap(), 0);
    assert_eq!(game.add_move(String::from("Bob"), 'I').unwrap(), 0);
    assert_eq!(game.add_move(String::from("Neuromancer"), 'F').unwrap(), 0);
    assert_eq!(game.add_move(String::from("Alice"), 'V').unwrap(), 1);

    assert_eq!(game.status, tris3d::game::Status::IsOver);
}
