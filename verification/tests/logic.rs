use werewolf_game::rollen::{Rolle, Team};
use werewolf_game::spiel::{Game, HexenAktion, Phase, Winner};

#[test]
fn test_new_game() {
    let game = Game::new();

    assert_eq!(game.players.len(), 0);
    assert_eq!(game.phase, Phase::Tag);
    assert_eq!(game.heiltrank_genutzt, false);
    assert_eq!(game.bereits_getoetet, false);
    assert_eq!(game.tag_opfer, None);
    assert_eq!(game.nacht_opfer, None);
    assert_eq!(game.hexe_opfer, None);
    assert_eq!(game.geheilter_von_hexe, None);
    assert_eq!(game.liebende_aktiv, false);
    assert_eq!(game.amor_hat_gewaehlt, false);
    assert_eq!(game.jaeger_ziel, None);
    assert_eq!(game.geschuetzter_von_doktor, None);
    assert_eq!(game.priester_hat_geworfen, false);
}

#[test]
fn test_add_player() {
    let mut game = Game::new();

    game.add_player("Name1".to_string());
    game.add_player("Name2".to_string());
    game.add_player("Name3".to_string());

    assert_eq!(game.players.len(), 3);
}

#[test]
fn test_verteile_rollen() {
    let mut game = Game::new();
    game.add_player("Name1".to_string());
    game.add_player("Name2".to_string());
    game.add_player("Name3".to_string());

    let result = game.verteile_rollen();
    assert!(result.is_ok());

    let anzahl_werwoelfe = game.players.iter().filter(|p| matches!(p.rolle, Rolle::Werwolf)).count();
    assert_eq!(anzahl_werwoelfe, 1);
}

#[test]
fn test_verteile_rollen_2() {
    let mut game = Game::new();
    game.add_player("Name1".to_string());
    game.add_player("Name2".to_string());

    let result = game.verteile_rollen();
    assert!(result.is_err());
}

#[test]
fn test_rolle_von() {
    let mut game = Game::new();

    game.add_player("Name1".to_string());
    game.add_player("Name2".to_string());
    game.add_player("Name3".to_string());

    let _ = game.verteile_rollen();

    let rolle = game.rolle_von("Name1");

    assert!(rolle.is_some());
}

#[test]
fn test_rolle_von2() {
    let mut game = Game::new();

    game.add_player("Name1".to_string());
    game.add_player("Name2".to_string());
    game.add_player("Name3".to_string());

    let _ = game.verteile_rollen();

    let rolle = game.rolle_von("Unbekannt");

    assert!(rolle.is_none());
}

#[test]
fn test_tag_lynchen() {
    let mut game = Game::new();

    game.add_player("Name1".to_string());
    game.add_player("Name2".to_string());
    game.add_player("Name3".to_string());

    game.verteile_rollen().unwrap();
    // The night after the lynching starts with the werewolves only while one
    // of them lives: deal again until Name1 is not the single werewolf.
    while game.players[0].rolle == Rolle::Werwolf {
        game.verteile_rollen().unwrap();
    }

    assert_eq!(game.phase, Phase::Tag);

    game.tag_lynchen("Name1");

    assert!(game.tag_opfer.is_some());
    assert_eq!(game.tag_opfer.as_ref().unwrap(), "Name1");
    assert!(!game.players[0].lebend);
    assert_eq!(game.phase, Phase::WerwoelfePhase);
}

#[test]
fn test_check_win_dorf() {
    let mut game = Game::new();

    game.add_player("Name1".to_string());
    game.add_player("Name2".to_string());
    game.add_player("Name3".to_string());

    game.verteile_rollen().unwrap();

    for p in game.players.iter_mut() {
        if p.rolle == Rolle::Werwolf {
            p.lebend = false;
        }
    }

    let result = game.check_win();

    assert_eq!(result, Some(Winner::Dorf));
}

#[test]
fn test_check_win_werwoelfe() {
    let mut game = Game::new();

    game.add_player("Name1".to_string());
    game.add_player("Name2".to_string());
    game.add_player("Name3".to_string());

    game.verteile_rollen().unwrap();
    for p in game.players.iter_mut() {
        if p.rolle != Rolle::Werwolf {
            p.lebend = false;
        }
    }

    let result = game.check_win();

    assert_eq!(result, Some(Winner::Werwolf));
}

#[test]
fn test_liebespaar() {
    let mut game = Game::new();
    game.add_player("Name1".to_string());
    game.add_player("Name2".to_string());
    game.add_player("Name3".to_string());

    game.liebender_1 = Some("Name2".into());
    game.liebender_2 = Some("Name3".into());
    game.liebende_aktiv = true;

    game.spieler_stirbt("Name2");

    assert!(!game.players[1].lebend);
    assert!(!game.players[2].lebend);
}

#[test]
fn test_jaeger() {
    let mut game = Game::new();
    game.add_player("Name1".to_string());
    game.add_player("Name2".to_string());
    game.add_player("Name3".to_string());

    game.players[0].rolle = Rolle::Jaeger;
    game.jaeger_ziel = Some("Name3".into());
    game.spieler_stirbt("Name1");

    assert!(!game.players[2].lebend);
}

#[test]
fn test_spieler_stirbt_normaler_fall() {
    let mut game = Game::new();
    game.add_player("Name1".to_string());
    game.add_player("Name2".to_string());
    game.add_player("Name3".to_string());

    game.spieler_stirbt("Name1");

    assert!(!game.players[0].lebend);
}

#[test]
fn spieler_stirbt_doppelt() {
    let mut game = Game::new();
    game.add_player("Name1".into());
    game.add_player("Name2".to_string());
    game.add_player("Name3".to_string());

    game.spieler_stirbt("Name1");
    game.spieler_stirbt("Name1");

    assert!(!game.players[0].lebend);
}

#[test]
fn test_werwolf_toetet() {
    let mut game = Game::new();
    game.add_player("Wolf".into());
    game.add_player("Opfer".into());
    game.players[0].rolle = Rolle::Werwolf;
    game.phase = Phase::WerwoelfePhase;

    let result = game.werwolf_toetet("Wolf", "Opfer");
    assert!(result.is_ok());
    assert_eq!(game.nacht_opfer, Some("Opfer".to_string()));
}

#[test]
fn test_seher_schaut() {
    let mut game = Game::new();
    game.add_player("Seher".into());
    game.add_player("Ziel".into());
    game.players[0].rolle = Rolle::Seher;
    game.players[1].rolle = Rolle::Werwolf;
    game.phase = Phase::SeherPhase;

    let rolle = game.seher_schaut("Ziel").unwrap();
    assert_eq!(rolle, Rolle::Werwolf);
}

#[test]
fn test_hexe_heilt() {
    let mut game = Game::new();
    game.add_player("Hexe".into());
    game.players[0].rolle = Rolle::Hexe;
    game.phase = Phase::HexePhase;
    game.nacht_opfer = Some("X".to_string());

    let result = game.hexe_arbeitet(HexenAktion::Heilen, "Hexe", "");
    assert!(result.is_ok());
    assert!(game.heiltrank_genutzt);
}

#[test]
fn test_hexe_vergiftet() {
    let mut game = Game::new();
    game.add_player("Hexe".into());
    game.add_player("Ziel".into());
    game.players[0].rolle = Rolle::Hexe;
    game.phase = Phase::HexePhase;

    let result = game.hexe_arbeitet(HexenAktion::Vergiften, "Hexe", "Ziel");
    assert!(result.is_ok());
    assert_eq!(game.hexe_opfer, Some("Ziel".to_string()));
}

#[test]
fn test_amor_verliebt() {
    let mut game = Game::new();
    game.add_player("Amor".into());
    game.add_player("A".into());
    game.add_player("B".into());
    game.players[0].rolle = Rolle::Amor;
    game.phase = Phase::AmorPhase;

    let result = game.amor_waehlt("A", "B");
    assert!(result.is_ok());
    assert_eq!(game.liebender_1, Some("A".to_string()));
    assert_eq!(game.liebender_2, Some("B".to_string()));
}

#[test]
fn test_jaeger_schiesst() {
    let mut game = Game::new();
    game.add_player("Jäger".into());
    game.add_player("Ziel".into());
    game.players[0].rolle = Rolle::Jaeger;
    game.jaeger_ziel = Some("Ziel".to_string());

    game.spieler_stirbt("Jäger");
    assert!(!game.players[1].lebend);
}

#[test]
fn test_doktor_schuetzt() {
    let mut game = Game::new();
    game.add_player("Doktor".into());
    game.add_player("Patient".into());
    game.players[0].rolle = Rolle::Doktor;
    game.phase = Phase::DoktorPhase;

    let _ = game.doktor_schuetzt("Patient");
    assert_eq!(game.geschuetzter_von_doktor, Some("Patient".to_string()));
}

#[test]
fn test_priester_toetet_werwolf() {
    let mut game = Game::new();
    game.add_player("Priester".into());
    game.add_player("Wolf".into());
    game.players[0].rolle = Rolle::Priester;
    game.players[1].rolle = Rolle::Werwolf;
    game.phase = Phase::PriesterPhase;

    let result = game.priester_wirft("Priester", Some("Wolf"));
    assert!(result.is_ok());
    assert!(!game.players[1].lebend);
}

#[test]
fn test_priester_stirbt_bei_falschem_ziel() {
    let mut game = Game::new();
    game.add_player("Priester".into());
    game.add_player("Dorf".into());
    game.players[0].rolle = Rolle::Priester;
    game.players[1].rolle = Rolle::Dorfbewohner;
    game.phase = Phase::PriesterPhase;

    let result = game.priester_wirft("Priester", Some("Dorf"));
    assert!(result.is_ok());
    assert!(!game.players[0].lebend); // Priester tot
    assert!(game.players[1].lebend); // Dorf lebt
}

#[test]
fn test_liebespaar_stirbt_zusammen() {
    let mut game = Game::new();
    game.add_player("A".into());
    game.add_player("B".into());
    game.liebender_1 = Some("A".to_string());
    game.liebender_2 = Some("B".to_string());

    game.spieler_stirbt("A");
    assert!(!game.players[1].lebend);
}

#[test]
fn test_liebende_gewinnen() {
    let mut game = Game::new();
    game.add_player("L1".into());
    game.add_player("L2".into());
    for p in &mut game.players {
        p.lebend = true;
        p.team = Team::TeamLiebende;
    }
    assert_eq!(game.check_win(), Some(Winner::Liebende));
}
