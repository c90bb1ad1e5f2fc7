use werewolf_game::abstimmung::{handle_vote, ActionKind};
use werewolf_game::nachrichten::ClientMessage;
use werewolf_game::sitzung::{handle_message, PlayerDevice};
use werewolf_game::spiel::Game;

#[test]
fn add_user_msg() {
    let mut game = Game::new();
    let mut play_dev: Vec<PlayerDevice> = Vec::new();
    let game_started = false;

    let username = "Nutzer".to_string();

    let token = uuid::Uuid::new_v4().to_string();
    play_dev.push(PlayerDevice { name: username.clone(), token: token.clone() });
    game.add_player(username.clone());

    assert_eq!(game.players.len(), 1);
    assert_eq!(play_dev.len(), 1);
    assert_eq!(play_dev[0].name, "Nutzer");
    assert!(!game_started, "Spiel sollte noch nicht gestartet sein");
}

#[test]
fn not_existing_player_gets_lynched() {
    let mut game = Game::new();
    game.add_player("Nutzer".into());
    let result = handle_vote(&mut game, "Nutzer".to_string(), "NichtNutzer".to_string(), ActionKind::DorfLyncht);

    assert_eq!(result, Err("Spieler nicht gefunden oder nicht lebendig".to_string()));
}

#[test]
fn not_existing_player_cannot_vote() {
    let mut game = Game::new();
    game.add_player("Nutzer".into());
    let result = handle_vote(&mut game, "NichtNutzer".to_string(), "Nutzer".to_string(), ActionKind::DorfLyncht);

    assert_eq!(result, Err("Spieler nicht gefunden oder nicht lebendig".to_string()));
}

#[test]
fn player_cannot_vote_twice() {
    let mut game = Game::new();
    game.add_player("Nutzer1".into());
    game.add_player("Nutzer2".into());
    let _ = handle_vote(&mut game, "Nutzer1".to_string(), "Nutzer2".to_string(), ActionKind::DorfLyncht);
    let result = handle_vote(&mut game, "Nutzer1".to_string(), "Nutzer2".to_string(), ActionKind::DorfLyncht);

    assert_eq!(result, Err("Du hast schon abgestimmt".to_string()));
}

#[test]
fn wrong_does_not_change_game_state() {
    let mut game = Game::new();
    game.add_player("Nutzer".into());
    let before = game.clone();
    let _ = handle_vote(&mut game, "Nutzer".to_string(), "NichtNutzer".to_string(), ActionKind::DorfLyncht);

    assert_eq!(game, before);
}

#[test]
fn reject_duplicate_name() {
    let mut game = Game::new();
    let mut game_started = false;
    let mut play_dev: Vec<PlayerDevice> = Vec::new();
    let username = "Nutzer".to_string();
    handle_message(&mut game, &mut game_started, &mut play_dev, ClientMessage::AddUser { username: username.clone() })
        .unwrap();
    let result = handle_message(
        &mut game,
        &mut game_started,
        &mut play_dev,
        ClientMessage::AddUser { username: username.clone() },
    );

    assert_eq!(result, Err("Name existiert bereits".to_string()));
    assert_eq!(game.players.len(), 1);
}
