use base64::Engine;
use werewolf_game::abstimmung::{handle_vote, ActionKind};
use werewolf_game::anzeige::{generate_qr, svg_als_data_url};
use werewolf_game::nachrichten::{parse_client_message, ClientMessage};
use werewolf_game::rollen::{Rolle, Team};
use werewolf_game::sitzung::{benutzer_hinzufuegen, handle_message, Ausgabe, PlayerDevice};
use werewolf_game::spiel::{Game, HexenAktion, Phase, Winner};
use werewolf_game::verteilung::rollen_liste_fuer;

fn spiel_mit(rollen: &[(&str, Rolle)]) -> Game {
    let mut game = Game::new();
    for (name, rolle) in rollen {
        game.add_player(name.to_string());
        let i = game.players.len() - 1;
        game.players[i].rolle = *rolle;
        game.players[i].team = rolle.team();
    }
    game
}

#[test]
fn tag_lynchen_toetet_und_beginnt_die_nacht() {
    let mut game = spiel_mit(&[
        ("Name1", Rolle::Dorfbewohner),
        ("Name2", Rolle::Werwolf),
        ("Name3", Rolle::Dorfbewohner),
    ]);
    game.tag_lynchen("Name1");
    assert_eq!(game.tag_opfer.as_deref(), Some("Name1"));
    assert!(!game.players[0].lebend);
    assert_eq!(game.phase, Phase::WerwoelfePhase);
}

#[test]
fn tag_lynchen_des_letzten_werwolfs_fuehrt_zum_tag() {
    let mut game = spiel_mit(&[
        ("Name1", Rolle::Werwolf),
        ("Name2", Rolle::Dorfbewohner),
        ("Name3", Rolle::Dorfbewohner),
    ]);
    game.tag_lynchen("Name1");
    assert_eq!(game.phase, Phase::Tag);
    assert_eq!(game.check_win(), Some(Winner::Dorf));
}

#[test]
fn nachtordnung_und_neue_runde() {
    let mut game = spiel_mit(&[
        ("A", Rolle::Amor),
        ("W", Rolle::Werwolf),
        ("S", Rolle::Seher),
        ("H", Rolle::Hexe),
        ("D", Rolle::Doktor),
    ]);
    let mut gesehen = Vec::new();
    for _ in 0..6 {
        game.phase_change();
        gesehen.push(game.phase);
    }
    assert_eq!(
        gesehen,
        vec![
            Phase::AmorPhase,
            Phase::WerwoelfePhase,
            Phase::SeherPhase,
            Phase::HexePhase,
            Phase::DoktorPhase,
            Phase::Tag
        ]
    );
    assert_eq!(game.runden, 2);
}

#[test]
fn tote_rollen_werden_uebersprungen() {
    let mut game = spiel_mit(&[("A", Rolle::Amor), ("W", Rolle::Werwolf), ("S", Rolle::Seher)]);
    game.players[0].lebend = false;
    game.phase_change();
    assert_eq!(game.phase, Phase::WerwoelfePhase);
    game.phase = Phase::PriesterPhase;
    game.phase_change();
    assert_eq!(game.phase, Phase::PriesterPhase);
}

#[test]
fn nacht_aufloesung_toetet_opfer_und_gift() {
    let mut game = spiel_mit(&[("A", Rolle::Dorfbewohner), ("B", Rolle::Dorfbewohner), ("C", Rolle::Werwolf)]);
    game.nacht_opfer = Some("A".to_string());
    game.hexe_opfer = Some("B".to_string());
    game.nacht_aufloesung();
    assert!(!game.players[0].lebend);
    assert!(!game.players[1].lebend);
    assert!(game.players[2].lebend);
    assert_eq!(game.nacht_opfer, None);
    assert_eq!(game.hexe_opfer, None);
}

#[test]
fn nacht_aufloesung_geheilt_und_geschuetzt() {
    let mut game = spiel_mit(&[("A", Rolle::Dorfbewohner), ("B", Rolle::Dorfbewohner)]);
    game.nacht_opfer = Some("A".to_string());
    game.geheilter_von_hexe = Some("A".to_string());
    game.hexe_opfer = Some("B".to_string());
    game.geschuetzter_von_doktor = Some("B".to_string());
    game.nacht_aufloesung();
    assert!(game.players[0].lebend);
    assert!(game.players[1].lebend);
    assert_eq!(game.geheilter_von_hexe, None);
    assert_eq!(game.geschuetzter_von_doktor, Some("B".to_string()));
}

#[test]
fn schutz_bleibt_bis_zum_naechsten_schutz() {
    let mut game = spiel_mit(&[("D", Rolle::Doktor), ("P", Rolle::Dorfbewohner), ("W", Rolle::Werwolf)]);
    game.doktor_schuetzt("P").unwrap();
    assert_eq!(game.phase, Phase::WerwoelfePhase);
    assert_eq!(game.geschuetzter_von_doktor, Some("P".to_string()));
    game.phase = Phase::DoktorPhase;
    game.doktor_schuetzt("W").unwrap();
    assert_eq!(game.phase, Phase::Tag);
    assert_eq!(game.geschuetzter_von_doktor, Some("W".to_string()));
    game.phase_change();
    assert_eq!(game.phase, Phase::WerwoelfePhase);
    assert_eq!(game.geschuetzter_von_doktor, Some("W".to_string()));
}

#[test]
fn spielbeginn_fuehrt_in_die_erste_nacht() {
    let mut game = spiel_mit(&[("A", Rolle::Amor), ("W", Rolle::Werwolf), ("D", Rolle::Dorfbewohner)]);
    game.phase = Phase::Spielbeginn;
    game.phase_change();
    assert_eq!(game.phase, Phase::AmorPhase);
    assert_eq!(game.runden, 1);
}

#[test]
fn jaeger_und_liebe_in_einer_kette() {
    let mut game = spiel_mit(&[
        ("J", Rolle::Jaeger),
        ("X", Rolle::Dorfbewohner),
        ("Y", Rolle::Dorfbewohner),
        ("Z", Rolle::Werwolf),
    ]);
    game.jaeger_ziel = Some("X".to_string());
    game.liebender_1 = Some("X".to_string());
    game.liebender_2 = Some("Y".to_string());
    game.liebende_aktiv = true;
    game.spieler_stirbt("J");
    assert!(!game.players[0].lebend);
    assert!(!game.players[1].lebend);
    assert!(!game.players[2].lebend);
    assert!(game.players[3].lebend);
    assert!(!game.liebende_aktiv);
    assert_eq!(game.check_win(), Some(Winner::Werwolf));
}

#[test]
fn unbekannter_tod_aendert_nichts() {
    let mut game = spiel_mit(&[("A", Rolle::Dorfbewohner)]);
    let vorher = game.clone();
    game.spieler_stirbt("Niemand");
    assert_eq!(game, vorher);
}

#[test]
fn kein_sieger_bei_gemischten_teams() {
    let game = spiel_mit(&[("A", Rolle::Dorfbewohner), ("B", Rolle::Dorfbewohner), ("C", Rolle::Werwolf)]);
    assert_eq!(game.check_win(), None);
    let mut liebe = spiel_mit(&[("A", Rolle::Dorfbewohner), ("B", Rolle::Seher), ("C", Rolle::Hexe)]);
    liebe.players[1].team = Team::TeamLiebende;
    liebe.players[2].team = Team::TeamLiebende;
    assert_eq!(liebe.check_win(), None);
    let leer = Game::new();
    assert_eq!(leer.check_win(), None);
}

#[test]
fn werwoelfe_gewinnen_bei_gleichstand() {
    let game = spiel_mit(&[
        ("W1", Rolle::Werwolf),
        ("S", Rolle::Seher),
        ("H", Rolle::Hexe),
        ("W2", Rolle::Werwolf),
    ]);
    assert_eq!(game.check_win(), Some(Winner::Werwolf));
    let eins_zu_eins = spiel_mit(&[("W", Rolle::Werwolf), ("D", Rolle::Dorfbewohner)]);
    assert_eq!(eins_zu_eins.check_win(), Some(Winner::Werwolf));
    let mut mit_liebe = spiel_mit(&[
        ("W", Rolle::Werwolf),
        ("D", Rolle::Dorfbewohner),
        ("L1", Rolle::Dorfbewohner),
    ]);
    mit_liebe.players[2].team = Team::TeamLiebende;
    assert_eq!(mit_liebe.check_win(), None);
}

#[test]
fn has_role_nur_lebende() {
    let mut game = spiel_mit(&[("S", Rolle::Seher)]);
    assert!(game.has_role(Rolle::Seher));
    assert!(!game.has_role(Rolle::Hexe));
    game.players[0].lebend = false;
    assert!(!game.has_role(Rolle::Seher));
}

#[test]
fn werwolf_fehler() {
    let mut game = spiel_mit(&[("W", Rolle::Werwolf), ("D", Rolle::Dorfbewohner), ("T", Rolle::Dorfbewohner)]);
    assert_eq!(game.werwolf_toetet("W", "D"), Err("Die Werwölfe sind gerade nicht dran.".to_string()));
    game.phase = Phase::WerwoelfePhase;
    assert_eq!(game.werwolf_toetet("D", "T"), Err("Du bist kein Werwolf.".to_string()));
    assert_eq!(game.werwolf_toetet("W", "X"), Err("Zielperson existiert nicht.".to_string()));
    game.players[2].lebend = false;
    assert_eq!(game.werwolf_toetet("W", "T"), Err("Der Spieler ist bereits tot.".to_string()));
    assert_eq!(game.werwolf_toetet("W", "W"), Err("Man kann sich nicht selbst wählen.".to_string()));
    let mut zwei = spiel_mit(&[("W", Rolle::Werwolf), ("V", Rolle::Werwolf), ("D", Rolle::Dorfbewohner)]);
    zwei.phase = Phase::WerwoelfePhase;
    zwei.players[1].lebend = false;
    assert_eq!(zwei.werwolf_toetet("V", "D"), Err("Nur lebende Werwölfe dürfen wählen.".to_string()));
    zwei.players[0].lebend = false;
    assert_eq!(zwei.werwolf_toetet("W", "D"), Err("Es gibt keine lebenden Werwölfe mehr".to_string()));
}

#[test]
fn seher_fehler_und_einmaliger_blick() {
    let mut game = spiel_mit(&[("S", Rolle::Seher), ("Z", Rolle::Werwolf), ("T", Rolle::Dorfbewohner)]);
    assert_eq!(game.seher_schaut("Z"), Err("Seher ist nicht dran.".to_string()));
    game.phase = Phase::SeherPhase;
    assert_eq!(game.seher_schaut("X"), Err("Ziel existiert nicht.".to_string()));
    game.players[2].lebend = false;
    assert_eq!(game.seher_schaut("T"), Err("Opfer lebt nicht mehr".to_string()));
    assert_eq!(game.seher_schaut("Z"), Ok(Rolle::Werwolf));
    game.phase = Phase::SeherPhase;
    assert_eq!(game.seher_schaut("Z"), Err("Der Seher hat bereits einmal diese Runde gesehen.".to_string()));
    game.players[0].lebend = false;
    assert_eq!(
        game.seher_schaut("Z"),
        Err("Der Seher lebt nicht mehr und kann deswegen nicht mehr sehen.".to_string())
    );
    let mut ohne = spiel_mit(&[("Z", Rolle::Werwolf)]);
    ohne.phase = Phase::SeherPhase;
    assert_eq!(ohne.seher_schaut("Z"), Err("Kein Seher im Spiel".to_string()));
}

#[test]
fn hexe_fehler_und_traenke_einmal() {
    let mut ohne = spiel_mit(&[("A", Rolle::Dorfbewohner)]);
    assert_eq!(ohne.hexe_arbeitet(HexenAktion::NichtsTun, "A", ""), Err("Es gibt keine Hexe im Spiel.".to_string()));
    let mut game = spiel_mit(&[("H", Rolle::Hexe), ("Z", Rolle::Dorfbewohner), ("T", Rolle::Dorfbewohner)]);
    game.phase = Phase::HexePhase;
    assert_eq!(game.hexe_arbeitet(HexenAktion::Heilen, "H", ""), Err("Es gibt kein Opfer.".to_string()));
    game.nacht_opfer = Some("Z".to_string());
    assert_eq!(game.hexe_arbeitet(HexenAktion::Heilen, "H", ""), Ok(()));
    assert_eq!(game.geheilter_von_hexe, Some("Z".to_string()));
    assert_eq!(
        game.hexe_arbeitet(HexenAktion::Heilen, "H", ""),
        Err("Hexe hat ihren Heiltrank bereits einmal benutzt.".to_string())
    );
    assert_eq!(
        game.hexe_arbeitet(HexenAktion::Vergiften, "H", "X"),
        Err("Opfer konnte nicht gefunden werden".to_string())
    );
    assert_eq!(
        game.hexe_arbeitet(HexenAktion::Vergiften, "H", "H"),
        Err("Du kannst dich nicht selber vergiften.".to_string())
    );
    game.players[2].lebend = false;
    assert_eq!(game.hexe_arbeitet(HexenAktion::Vergiften, "H", "T"), Err("Das Opfer ist bereits tot.".to_string()));
    assert_eq!(game.hexe_arbeitet(HexenAktion::Vergiften, "H", "Z"), Ok(()));
    assert_eq!(
        game.hexe_arbeitet(HexenAktion::Vergiften, "H", "Z"),
        Err("Die Hexe darf nur einmal im Spiel jemanden vergiften.".to_string())
    );
    game.players[0].lebend = false;
    assert_eq!(
        game.hexe_arbeitet(HexenAktion::NichtsTun, "H", ""),
        Err("Du bist aus dem Spiel schon raus.".to_string())
    );
}

#[test]
fn amor_fehler_und_teams() {
    let mut game = spiel_mit(&[("Amor", Rolle::Amor), ("A", Rolle::Werwolf), ("B", Rolle::Dorfbewohner)]);
    assert_eq!(game.amor_waehlt("A", "B"), Err("Amor ist gerade nicht dran.".to_string()));
    game.phase = Phase::AmorPhase;
    assert_eq!(
        game.amor_waehlt("A", "A"),
        Err("Die Liebenden müssen zwei verschiedene Personen sein.".to_string())
    );
    assert_eq!(game.amor_waehlt("X", "B"), Err("Spieler existiert nicht".to_string()));
    assert_eq!(game.amor_waehlt("A", "X"), Err("Spieler existiert nicht.".to_string()));
    game.players[2].lebend = false;
    assert_eq!(game.amor_waehlt("A", "B"), Err("Beide Liebenden müssen am Leben sein.".to_string()));
    game.players[2].lebend = true;
    assert_eq!(game.amor_waehlt("A", "B"), Ok(()));
    assert_eq!(game.players[1].team, Team::TeamLiebende);
    assert_eq!(game.players[2].team, Team::TeamLiebende);
    assert!(game.liebende_aktiv);
    assert_eq!(game.phase, Phase::WerwoelfePhase);
    game.phase = Phase::AmorPhase;
    assert_eq!(game.amor_waehlt("A", "B"), Err("Amor kann nur einmal wählen.".to_string()));
}

#[test]
fn doktor_fehler() {
    let mut ohne = spiel_mit(&[("A", Rolle::Dorfbewohner)]);
    assert_eq!(ohne.doktor_schuetzt("A"), Err("Es gibt keinen Doktor (mehr) im Spiel.".to_string()));
    let mut game = spiel_mit(&[("D", Rolle::Doktor), ("A", Rolle::Dorfbewohner)]);
    assert_eq!(game.doktor_schuetzt("X"), Err("Die Person existiert nicht.".to_string()));
    game.players[1].lebend = false;
    assert_eq!(game.doktor_schuetzt("A"), Err("Der Schützling muss am Leben sein".to_string()));
    game.players[0].lebend = false;
    assert_eq!(game.doktor_schuetzt("D"), Err("Der Doktor ist nicht mehr am Leben.".to_string()));
}

#[test]
fn priester_fehler_und_einmaliger_wurf() {
    let mut game = spiel_mit(&[("P", Rolle::Priester), ("W", Rolle::Werwolf), ("T", Rolle::Dorfbewohner)]);
    assert_eq!(game.priester_wirft("P", Some("W")), Err("Der Priester ist gerade nicht dran.".to_string()));
    game.phase = Phase::PriesterPhase;
    assert_eq!(game.priester_wirft("P", Some("X")), Err("Ziel existiert nicht.".to_string()));
    assert_eq!(
        game.priester_wirft("P", Some("P")),
        Err("Der Priester kann sich nicht selbst mit heiligen Wasser bewerfen.".to_string())
    );
    game.players[2].lebend = false;
    assert_eq!(game.priester_wirft("P", Some("T")), Err("Das Ziel ist bereits tot.".to_string()));
    assert_eq!(game.priester_wirft("P", None), Ok(()));
    assert!(game.players[0].lebend && game.players[1].lebend);
    assert_eq!(
        game.priester_wirft("P", Some("W")),
        Err("Der Priester hat bereits heiliges Wasser geworfen.".to_string())
    );
    game.players[0].lebend = false;
    assert_eq!(game.priester_wirft("P", Some("W")), Err("Es gibt keinen lebenden Priester.".to_string()));
}

#[test]
fn rollen_liste_fuer_acht_und_sechzehn() {
    assert_eq!(
        rollen_liste_fuer(8),
        vec![
            Rolle::Werwolf,
            Rolle::Werwolf,
            Rolle::Seher,
            Rolle::Hexe,
            Rolle::Amor,
            Rolle::Jaeger,
            Rolle::Doktor,
            Rolle::Priester
        ]
    );
    let sechzehn = rollen_liste_fuer(16);
    assert_eq!(sechzehn.len(), 16);
    assert_eq!(sechzehn.iter().filter(|r| **r == Rolle::Werwolf).count(), 5);
    assert_eq!(sechzehn.iter().filter(|r| **r == Rolle::Dorfbewohner).count(), 5);
    assert_eq!(rollen_liste_fuer(3), vec![Rolle::Werwolf, Rolle::Dorfbewohner, Rolle::Dorfbewohner]);
}

#[test]
fn verteile_rollen_grenzen() {
    let mut game = Game::new();
    for i in 0..16 {
        game.add_player(format!("S{}", i));
    }
    assert_eq!(game.verteile_rollen(), Ok(()));
    let mut rollen: Vec<Rolle> = game.players.iter().map(|p| p.rolle).collect();
    let mut erwartet = rollen_liste_fuer(16);
    rollen.sort_by_key(|r| *r as u8);
    erwartet.sort_by_key(|r| *r as u8);
    assert_eq!(rollen, erwartet);
    for p in &game.players {
        assert_eq!(p.team, p.rolle.team());
    }
    game.add_player("S16".to_string());
    let vorher = game.clone();
    assert_eq!(game.verteile_rollen(), Err("Es dürfen maximal 16 Spieler mitspielen.".to_string()));
    assert_eq!(game, vorher);
    let mut klein = Game::new();
    klein.add_player("A".to_string());
    assert_eq!(klein.verteile_rollen(), Err("Es müssen mindestens 3 Spieler vorhanden sein.".to_string()));
}

#[test]
fn abstimmung_am_tag_bis_zur_entscheidung() {
    let mut game = spiel_mit(&[("A", Rolle::Dorfbewohner), ("B", Rolle::Werwolf), ("C", Rolle::Dorfbewohner)]);
    assert_eq!(handle_vote(&mut game, "A".to_string(), "B".to_string(), ActionKind::DorfLyncht), Ok(()));
    assert!(game.ongoing_vote);
    assert_eq!(game.eligible_players, vec!["A".to_string(), "B".to_string(), "C".to_string()]);
    assert_eq!(game.current_votes, vec![("B".to_string(), vec!["A".to_string()])]);
    assert_eq!(handle_vote(&mut game, "C".to_string(), "B".to_string(), ActionKind::DorfLyncht), Ok(()));
    assert_eq!(handle_vote(&mut game, "B".to_string(), "A".to_string(), ActionKind::DorfLyncht), Ok(()));
    assert!(!game.players[1].lebend);
    assert_eq!(game.tag_opfer, Some("B".to_string()));
    assert!(!game.ongoing_vote);
    assert!(game.votes.is_empty());
    assert!(game.current_votes.is_empty());
    assert!(game.players.iter().all(|p| !p.has_voted));
    assert_eq!(game.check_win(), Some(Winner::Dorf));
}

#[test]
fn abstimmung_gleichstand_beginnt_neu() {
    let mut game = spiel_mit(&[("A", Rolle::Dorfbewohner), ("B", Rolle::Werwolf)]);
    assert_eq!(handle_vote(&mut game, "A".to_string(), "B".to_string(), ActionKind::DorfLyncht), Ok(()));
    assert_eq!(handle_vote(&mut game, "B".to_string(), "A".to_string(), ActionKind::DorfLyncht), Ok(()));
    assert!(game.players.iter().all(|p| p.lebend && !p.has_voted));
    assert!(game.votes.is_empty());
    assert!(game.ongoing_vote);
    assert_eq!(game.current_votes, vec![("B".to_string(), vec![]), ("A".to_string(), vec![])]);
    assert_eq!(game.phase, Phase::Tag);
}

#[test]
fn werwolf_abstimmung_waehlt_opfer() {
    let mut game = spiel_mit(&[("W1", Rolle::Werwolf), ("W2", Rolle::Werwolf), ("D", Rolle::Dorfbewohner)]);
    game.phase = Phase::WerwoelfePhase;
    assert_eq!(handle_vote(&mut game, "W1".to_string(), "D".to_string(), ActionKind::WerwolfFrisst), Ok(()));
    assert_eq!(game.eligible_players, vec!["W1".to_string(), "W2".to_string()]);
    assert_eq!(handle_vote(&mut game, "W2".to_string(), "D".to_string(), ActionKind::WerwolfFrisst), Ok(()));
    assert_eq!(game.nacht_opfer, Some("D".to_string()));
    assert_eq!(game.phase, Phase::Tag);
}

#[test]
fn nachrichten_lesen() {
    assert!(matches!(parse_client_message("StartGame"), Ok(ClientMessage::StartGame)));
    assert!(matches!(parse_client_message("  ResetGame \n"), Ok(ClientMessage::ResetGame)));
    match parse_client_message("AddUser Anna") {
        Ok(ClientMessage::AddUser { username }) => assert_eq!(username, "Anna"),
        other => panic!("{:?}", other),
    }
    match parse_client_message("ReadyStatus Anna x false") {
        Ok(ClientMessage::ReadyStatus { username, ready }) => {
            assert_eq!(username, "Anna");
            assert!(!ready);
        },
        other => panic!("{:?}", other),
    }
    assert_eq!(
        parse_client_message("ReadyStatus Anna x vielleicht").err(),
        Some("Invalid bool for ready status".to_string())
    );
    match parse_client_message("Hexe vergiftet Hanna Otto") {
        Ok(ClientMessage::HexenAction { direction, hexenAktion, extra_target }) => {
            assert_eq!(direction.actor, "Hanna");
            assert_eq!(direction.target, Some("None".to_string()));
            assert!(matches!(hexenAktion, HexenAktion::Vergiften));
            assert_eq!(extra_target, "Otto");
        },
        other => panic!("{:?}", other),
    }
    assert_eq!(parse_client_message("Hexe zaubert H O").err(), Some("ungültige Hexenaktion".to_string()));
    match parse_client_message("Priester Paul") {
        Ok(ClientMessage::PriesterAction { actor, target }) => {
            assert_eq!(actor, "Paul");
            assert_eq!(target, None);
        },
        other => panic!("{:?}", other),
    }
    match parse_client_message("Chat Anna hallo\u{3000}  liebe\tLeute") {
        Ok(ClientMessage::ChatMessage { sender, message }) => {
            assert_eq!(sender, "Anna");
            assert_eq!(message, "hallo liebe Leute");
        },
        other => panic!("{:?}", other),
    }
    match parse_client_message("Werwolf W1 Opfer") {
        Ok(ClientMessage::WerwolfAction { direction }) => {
            assert_eq!(direction.actor, "W1");
            assert_eq!(direction.target, Some("Opfer".to_string()));
        },
        other => panic!("{:?}", other),
    }
    assert_eq!(
        parse_client_message("Tanz A B").err(),
        Some("Invalid action format: 'Tanz A B'".to_string())
    );
    let aus_str: Result<ClientMessage, String> = "Amor A B C".parse();
    assert!(matches!(aus_str, Ok(ClientMessage::AmorAction { .. })));
}

#[test]
fn sitzung_ablauf() {
    let mut game = Game::new();
    let mut gestartet = false;
    let mut geraete: Vec<PlayerDevice> = Vec::new();
    for name in ["A", "B", "C"] {
        let out = handle_message(
            &mut game,
            &mut gestartet,
            &mut geraete,
            ClientMessage::AddUser { username: name.to_string() },
        )
        .unwrap();
        match &out[..] {
            [Ausgabe::Beigetreten { token }] => {
                assert_eq!(token.chars().count(), 36);
                for (k, c) in token.chars().enumerate() {
                    if [8, 13, 18, 23].contains(&k) {
                        assert_eq!(c, '-');
                    } else {
                        assert!(c.is_ascii_digit() || ('a'..='f').contains(&c));
                    }
                }
                assert_eq!(token.chars().nth(14), Some('4'));
                assert!(['8', '9', 'a', 'b'].contains(&token.chars().nth(19).unwrap()));
            },
            other => panic!("{:?}", other),
        }
    }
    assert_eq!(geraete.len(), 3);
    assert_ne!(geraete[0].token, geraete[1].token);
    let out = handle_message(
        &mut game,
        &mut gestartet,
        &mut geraete,
        ClientMessage::ReadyStatus { username: "A".to_string(), ready: true },
    )
    .unwrap();
    assert!(out.is_empty());
    assert!(!gestartet);
    let out = handle_message(&mut game, &mut gestartet, &mut geraete, ClientMessage::StartGame).unwrap();
    assert_eq!(out, vec![Ausgabe::SpielGestartet]);
    assert!(gestartet);
    assert_eq!(game.phase, Phase::Spielbeginn);
    assert_eq!(game.players.iter().filter(|p| p.rolle == Rolle::Werwolf).count(), 1);
    let out = handle_message(&mut game, &mut gestartet, &mut geraete, ClientMessage::StartGame).unwrap();
    assert!(out.is_empty());
    let out = handle_message(
        &mut game,
        &mut gestartet,
        &mut geraete,
        ClientMessage::ChatMessage { sender: "A".to_string(), message: "hallo".to_string() },
    )
    .unwrap();
    assert_eq!(out, vec![Ausgabe::Chat { sender: "A".to_string(), message: "hallo".to_string() }]);
    let out = handle_message(&mut game, &mut gestartet, &mut geraete, ClientMessage::ResetGame).unwrap();
    assert_eq!(out, vec![Ausgabe::SpielZurueckgesetzt]);
    assert!(!gestartet);
    assert!(geraete.is_empty());
    assert_eq!(game, Game::new());
}

#[test]
fn alle_bereit_startet_das_spiel() {
    let mut game = Game::new();
    let mut gestartet = false;
    let mut geraete: Vec<PlayerDevice> = Vec::new();
    for name in ["A", "B", "C"] {
        game.add_player(name.to_string());
    }
    for name in ["A", "B", "C"] {
        let _ = handle_message(
            &mut game,
            &mut gestartet,
            &mut geraete,
            ClientMessage::ReadyStatus { username: name.to_string(), ready: true },
        );
    }
    assert!(gestartet);
    assert_eq!(game.phase, Phase::Spielbeginn);
    assert_eq!(game.runden, 1);
    let werwolf = game.players.iter().position(|p| p.rolle == Rolle::Werwolf).unwrap();
    for name in ["A", "B", "C"] {
        assert_eq!(game.phase, Phase::Spielbeginn);
        let out = handle_message(
            &mut game,
            &mut gestartet,
            &mut geraete,
            ClientMessage::IngameBereit { username: name.to_string(), ready: true },
        )
        .unwrap();
        assert!(out.is_empty());
    }
    assert!(game.players[werwolf].lebend);
    assert_eq!(game.phase, Phase::WerwoelfePhase);
}

#[test]
fn nur_das_ende_der_nacht_zaehlt_die_runde() {
    let mut game = spiel_mit(&[("D", Rolle::Doktor), ("H", Rolle::Hexe), ("P", Rolle::Dorfbewohner)]);
    let form = |actor: &str, target: Option<&str>| werewolf_game::nachrichten::ActionForm {
        actor: actor.to_string(),
        target: target.map(|t| t.to_string()),
    };
    let schutz = ClientMessage::DoktorAction { direction: form("D", Some("P")) };
    assert!(!game.runde_endet(&schutz));
    game.phase = Phase::DoktorPhase;
    assert!(game.runde_endet(&schutz));
    assert!(!game.runde_endet(&ClientMessage::DoktorAction { direction: form("D", Some("Niemand")) }));
    assert!(!game.runde_endet(&ClientMessage::DoktorAction { direction: form("D", None) }));
    assert!(!game.runde_endet(&ClientMessage::TagAction { direction: form("P", Some("H")) }));
    let heilen = ClientMessage::HexenAction {
        direction: form("H", None),
        hexenAktion: HexenAktion::Heilen,
        extra_target: String::new(),
    };
    assert!(!game.runde_endet(&heilen));
    game.nacht_opfer = Some("P".to_string());
    assert!(game.runde_endet(&heilen));
    game.players[0].ingame_ready_state = true;
    game.players[1].ingame_ready_state = true;
    assert!(game.runde_endet(&ClientMessage::IngameBereit { username: "P".to_string(), ready: true }));
    assert!(!game.runde_endet(&ClientMessage::IngameBereit { username: "H".to_string(), ready: true }));
    assert!(!game.runde_endet(&ClientMessage::StartGame));

    game.runden = u32::MAX;
    let mut gestartet = true;
    let mut geraete: Vec<PlayerDevice> = Vec::new();
    let falsch = ClientMessage::DoktorAction { direction: form("D", Some("Niemand")) };
    assert!(!game.runde_endet(&falsch));
    let vorher = game.clone();
    handle_message(&mut game, &mut gestartet, &mut geraete, falsch).unwrap();
    assert_eq!(game, vorher);
}

#[test]
fn spieler_ohne_eigenes_geraet() {
    let mut game = Game::new();
    let mut geraete: Vec<PlayerDevice> = Vec::new();
    game.add_player("A".to_string());
    benutzer_hinzufuegen(&mut game, &mut geraete, "B".to_string(), "t".to_string());
    game.add_player("C".to_string());
    assert_eq!(game.spieler_ohne_geraet(&geraete), vec!["A".to_string(), "C".to_string()]);
}

#[test]
fn jaeger_nachricht_setzt_ziel() {
    let mut game = Game::new();
    let mut gestartet = false;
    let mut geraete: Vec<PlayerDevice> = Vec::new();
    let _ = handle_message(
        &mut game,
        &mut gestartet,
        &mut geraete,
        ClientMessage::JaegerAction { actor: "J".to_string(), target: Some("Z".to_string()) },
    );
    assert_eq!(game.jaeger_ziel, Some("Z".to_string()));
}

#[test]
fn benutzer_mit_token() {
    let mut game = Game::new();
    let mut geraete: Vec<PlayerDevice> = Vec::new();
    let out = benutzer_hinzufuegen(&mut game, &mut geraete, "Nutzer".to_string(), "t-1".to_string());
    assert_eq!(out, vec![Ausgabe::Beigetreten { token: "t-1".to_string() }]);
    assert_eq!(geraete[0].token, "t-1");
    assert_eq!(game.players[0].name, "Nutzer");
    assert!(game.players[0].lebend);
}

#[test]
fn anzeige_namen_und_spielstand() {
    let mut game = spiel_mit(&[("J", Rolle::Jaeger), ("W", Rolle::Werwolf), ("D", Rolle::Dorfbewohner)]);
    game.phase = Phase::WerwoelfePhase;
    game.last_seher_result = Some(("W".to_string(), Rolle::Werwolf));
    let stand = game.spielstand(true);
    assert_eq!(stand.players[0].rolle, "Jäger");
    assert_eq!(stand.players[1].rolle, "Werwolf");
    assert_eq!(stand.phase, "WerwölfePhase");
    assert_eq!(stand.last_seher_result, Some("W is Werwolf".to_string()));
    assert_eq!(stand.winner, None);
    game.players[0].lebend = false;
    assert_eq!(game.spielstand(true).winner, Some("Werwolf".to_string()));
    assert_eq!(game.spielstand(false).winner, None);
    let kurz = game.spielerliste(true);
    assert_eq!(kurz[0].rolle, "Dorfbewohner");
    assert_eq!(game.rollen_anzeige("Niemand"), "?");
}

#[test]
fn data_url_kodiert_base64() {
    assert_eq!(svg_als_data_url("abc"), Some("data:image/svg+xml;base64,YWJj".to_string()));
    assert_eq!(svg_als_data_url("ab"), Some("data:image/svg+xml;base64,YWI=".to_string()));
    assert_eq!(svg_als_data_url("ä"), Some("data:image/svg+xml;base64,w6Q=".to_string()));
}

#[test]
fn qr_code_zum_beitritt() {
    let svg = generate_qr("192.168.0.2").unwrap();
    assert!(svg.contains("<svg"));
    let erwartet = qrcode::QrCode::new("http://192.168.0.2:7878/join".as_bytes())
        .unwrap()
        .render::<qrcode::render::svg::Color>()
        .min_dimensions(220, 220)
        .build();
    assert_eq!(svg, erwartet);
    let anderes = qrcode::QrCode::new("192.168.0.2".as_bytes())
        .unwrap()
        .render::<qrcode::render::svg::Color>()
        .min_dimensions(220, 220)
        .build();
    assert_ne!(svg, anderes);

    let url = svg_als_data_url(&svg).unwrap();
    let prefix = "data:image/svg+xml;base64,";
    assert!(url.starts_with(prefix));
    let bytes = base64::engine::general_purpose::STANDARD.decode(&url[prefix.len()..]).unwrap();
    assert_eq!(String::from_utf8(bytes).unwrap(), svg);
}
