use vstd::prelude::*;
use crate::spiel::{
    Game, HexenAktion, Phase, SpielModell, SpielerModell, erster_treffer, finde, lemma_treffer_passt, mit_name,
    neues_spiel, neuer_spieler,
};
use crate::phasen::{kann_wechseln, phasenwechsel};
use crate::verteilung::gueltige_verteilung;
use crate::abstimmung::{ActionKind, abstimmung, abstimmung_fehler, handle_vote};
use crate::rollen_logik::{
    amor_fehler, amor_verbindet, doktor_fehler, hexe_fehler, hexe_wirkt, priester_fehler, priester_wurf,
    seher_fehler,
};
use crate::rollen::Rolle;
use crate::nachrichten::{ClientMessage, NachrichtModell};

verus! {

/// A player who joined from their own device, and the token that the device
/// identifies itself with.
#[derive(Debug, Clone)]
pub struct PlayerDevice {
    pub name: String,
    pub token: String,
}

/// A device, with texts as character sequences.
pub struct GeraetModell {
    pub name: Seq<char>,
    pub token: Seq<char>,
}

impl View for PlayerDevice {
    type V = GeraetModell;

    open spec fn view(&self) -> GeraetModell {
        GeraetModell { name: self.name@, token: self.token@ }
    }
}

pub open spec fn geraete(v: Seq<PlayerDevice>) -> Seq<GeraetModell> {
    v.map_values(|d: PlayerDevice| d@)
}

/// What the server sends out after a message: to everybody the news that
/// the game started or was reset, or a chat message; to the sender alone the
/// token of their device.
#[derive(Debug, Clone, PartialEq)]
pub enum Ausgabe {
    SpielGestartet,
    SpielZurueckgesetzt,
    Beigetreten { token: String },
    Chat { sender: String, message: String },
}

pub enum AusgabeModell {
    SpielGestartet,
    SpielZurueckgesetzt,
    Beigetreten { token: Seq<char> },
    Chat { sender: Seq<char>, message: Seq<char> },
}

impl View for Ausgabe {
    type V = AusgabeModell;

    open spec fn view(&self) -> AusgabeModell {
        match self {
            Ausgabe::SpielGestartet => AusgabeModell::SpielGestartet,
            Ausgabe::SpielZurueckgesetzt => AusgabeModell::SpielZurueckgesetzt,
            Ausgabe::Beigetreten { token } => AusgabeModell::Beigetreten { token: token@ },
            Ausgabe::Chat { sender, message } => AusgabeModell::Chat { sender: sender@, message: message@ },
        }
    }
}

pub open spec fn ausgaben(v: Seq<Ausgabe>) -> Seq<AusgabeModell> {
    v.map_values(|a: Ausgabe| a@)
}

/// The start of a game: the game waits for every player to confirm their
/// role, in round one, and the roles are dealt when 3 to 16 play.
pub open spec fn spielstart(g: SpielModell, r: SpielModell) -> bool {
    let g0 = SpielModell { phase: Phase::Spielbeginn, runden: 1, ..g };
    if 3 <= g.players.len() <= 16 {
        gueltige_verteilung(g0, r)
    } else {
        r == g0
    }
}

/// The first player called `name` is (not) ready to start.
pub open spec fn mit_bereit(g: SpielModell, name: Seq<char>, ready: bool) -> SpielModell {
    match erster_treffer(g.players, mit_name(name)) {
        Some(i) => SpielModell {
            players: g.players.update(i, SpielerModell { ready_state: ready, ..g.players[i] }),
            ..g
        },
        None => g,
    }
}

/// The first player called `name` has (not) understood their role.
pub open spec fn mit_ingame_bereit(g: SpielModell, name: Seq<char>, ready: bool) -> SpielModell {
    match erster_treffer(g.players, mit_name(name)) {
        Some(i) => SpielModell {
            players: g.players.update(i, SpielerModell { ingame_ready_state: ready, ..g.players[i] }),
            ..g
        },
        None => g,
    }
}

pub open spec fn alle_bereit(ps: Seq<SpielerModell>) -> bool {
    forall|k: int| 0 <= k < ps.len() ==> (#[trigger] ps[k]).ready_state
}

pub open spec fn alle_ingame_bereit(ps: Seq<SpielerModell>) -> bool {
    forall|k: int| 0 <= k < ps.len() ==> (#[trigger] ps[k]).ingame_ready_state
}

/// A vote in its phase; any other vote is ignored.
pub open spec fn abstimmungs_zug(g: SpielModell, phase: Phase, actor: Seq<char>, target: Option<Seq<char>>, action: ActionKind) -> SpielModell {
    match target {
        Some(t) => if g.phase == phase && abstimmung_fehler(g, actor, t) is None {
            abstimmung(g, actor, t, action)
        } else {
            g
        },
        None => g,
    }
}

/// The seer's look in her phase; its result is kept for the seer.
pub open spec fn seher_zug(g: SpielModell, target: Seq<char>) -> SpielModell {
    if g.phase == Phase::SeherPhase && seher_fehler(g, target) is None {
        let s = erster_treffer(g.players, crate::spiel::mit_rolle(Rolle::Seher))->0;
        let t = erster_treffer(g.players, mit_name(target))->0;
        let g1 = phasenwechsel(
            SpielModell {
                players: g.players.update(s, SpielerModell { bereits_gesehen: true, ..g.players[s] }),
                ..g
            },
        );
        SpielModell { last_seher_result: Some((target, g.players[t].rolle)), ..g1 }
    } else {
        g
    }
}

pub open spec fn hexen_zug(g: SpielModell, aktion: HexenAktion, actor: Seq<char>, extra_target: Seq<char>) -> SpielModell {
    if hexe_fehler(g, aktion, actor, extra_target) is None {
        hexe_wirkt(g, aktion, extra_target)
    } else {
        g
    }
}

pub open spec fn amor_zug(g: SpielModell, target1: Seq<char>, target2: Seq<char>) -> SpielModell {
    if amor_fehler(g, target1, target2) is None {
        amor_verbindet(g, target1, target2)
    } else {
        g
    }
}

pub open spec fn doktor_zug(g: SpielModell, target: Option<Seq<char>>) -> SpielModell {
    match target {
        Some(t) => if doktor_fehler(g, t) is None {
            phasenwechsel(SpielModell { geschuetzter_von_doktor: Some(t), ..g })
        } else {
            g
        },
        None => g,
    }
}

pub open spec fn priester_zug(g: SpielModell, actor: Seq<char>, target: Option<Seq<char>>) -> SpielModell {
    if priester_fehler(g, target) is None {
        priester_wurf(g, actor, target)
    } else {
        g
    }
}

/// What a game action does to the game: the day's and the werewolves' votes
/// in their phases, the seer's look in hers, the witch, Amor, the doctor and
/// the priest whenever they ask (a refused action changes nothing), and the
/// hunter's aim.
pub open spec fn spielzug(g: SpielModell, m: NachrichtModell) -> SpielModell {
    match m {
        NachrichtModell::TagAction { direction } => abstimmungs_zug(
            g,
            Phase::Tag,
            direction.actor,
            direction.target,
            ActionKind::DorfLyncht,
        ),
        NachrichtModell::WerwolfAction { direction } => abstimmungs_zug(
            g,
            Phase::WerwoelfePhase,
            direction.actor,
            direction.target,
            ActionKind::WerwolfFrisst,
        ),
        NachrichtModell::SeherAction { actor, target } => seher_zug(g, target),
        NachrichtModell::HexenAction { direction, aktion, extra_target } => hexen_zug(
            g,
            aktion,
            direction.actor,
            extra_target,
        ),
        NachrichtModell::AmorAction { actor, target1, target2 } => amor_zug(g, target1, target2),
        NachrichtModell::DoktorAction { direction } => doktor_zug(g, direction.target),
        NachrichtModell::PriesterAction { actor, target } => priester_zug(g, actor, target),
        NachrichtModell::JaegerAction { actor, target } => SpielModell { jaeger_ziel: target, ..g },
        _ => g,
    }
}

/// A vote keeps the potions as they are.
pub proof fn lemma_abstimmung_traenke(g: SpielModell, actor: Seq<char>, t: Seq<char>, action: ActionKind)
    ensures
        abstimmung(g, actor, t, action).heiltrank_genutzt == g.heiltrank_genutzt,
        abstimmung(g, actor, t, action).bereits_getoetet == g.bereits_getoetet,
{
    let g1 = crate::abstimmung::stimme_gezaehlt(g, actor, t);
    let kandidaten = crate::abstimmung::spitzenreiter(g1.votes, crate::abstimmung::hoechste_stimmen(g1.votes));
    if kandidaten.len() == 1 {
        let n = kandidaten[0];
        match action {
            ActionKind::DorfLyncht => {
                let g0 = SpielModell { tag_opfer: Some(n), ..g1 };
                crate::tod::law_nur_tode(g0, n);
                crate::phasen::lemma_phasenwechsel_erhaelt(crate::tod::stirbt(g0, n));
            },
            ActionKind::WerwolfFrisst => {
                crate::phasen::lemma_phasenwechsel_erhaelt(SpielModell { nacht_opfer: Some(n), ..g1 });
            },
        }
    }
}

/// Law: no game action takes back a used potion: once the healing potion or
/// the poison is marked as used, it stays marked after every game action.
pub proof fn law_traenke_bleiben_verbraucht(g: SpielModell, m: NachrichtModell)
    ensures
        g.heiltrank_genutzt ==> spielzug(g, m).heiltrank_genutzt,
        g.bereits_getoetet ==> spielzug(g, m).bereits_getoetet,
{
    match m {
        NachrichtModell::TagAction { direction } => {
            if let Some(t) = direction.target {
                lemma_abstimmung_traenke(g, direction.actor, t, ActionKind::DorfLyncht);
            }
        },
        NachrichtModell::WerwolfAction { direction } => {
            if let Some(t) = direction.target {
                lemma_abstimmung_traenke(g, direction.actor, t, ActionKind::WerwolfFrisst);
            }
        },
        NachrichtModell::SeherAction { actor, target } => {
            let s = erster_treffer(g.players, crate::spiel::mit_rolle(Rolle::Seher))->0;
            crate::phasen::lemma_phasenwechsel_erhaelt(
                SpielModell {
                    players: g.players.update(s, SpielerModell { bereits_gesehen: true, ..g.players[s] }),
                    ..g
                },
            );
        },
        NachrichtModell::HexenAction { direction, aktion, extra_target } => {
            crate::phasen::lemma_phasenwechsel_erhaelt(
                SpielModell { heiltrank_genutzt: true, geheilter_von_hexe: g.nacht_opfer, ..g },
            );
            crate::phasen::lemma_phasenwechsel_erhaelt(
                SpielModell { hexe_opfer: Some(extra_target), bereits_getoetet: true, ..g },
            );
            crate::phasen::lemma_phasenwechsel_erhaelt(g);
        },
        NachrichtModell::AmorAction { actor, target1, target2 } => {
            let i = erster_treffer(g.players, mit_name(target1))->0;
            let j = erster_treffer(g.players, mit_name(target2))->0;
            let ps = g.players.update(i, SpielerModell { team: crate::rollen::Team::TeamLiebende, ..g.players[i] });
            let ps2 = ps.update(j, SpielerModell { team: crate::rollen::Team::TeamLiebende, ..ps[j] });
            crate::phasen::lemma_phasenwechsel_erhaelt(
                SpielModell {
                    players: ps2,
                    liebender_1: Some(target1),
                    liebender_2: Some(target2),
                    liebende_aktiv: true,
                    amor_hat_gewaehlt: true,
                    ..g
                },
            );
        },
        NachrichtModell::DoktorAction { direction } => {
            if let Some(t) = direction.target {
                crate::phasen::lemma_phasenwechsel_erhaelt(SpielModell { geschuetzter_von_doktor: Some(t), ..g });
            }
        },
        NachrichtModell::PriesterAction { actor, target } => {
            if let Some(z) = target {
                crate::tod::law_nur_tode(g, z);
                crate::tod::law_nur_tode(g, actor);
            }
        },
        _ => {},
    }
}

/// Law: no game action records a second entry of votes for a player.
pub proof fn law_spielzug_stimmen_eindeutig(g: SpielModell, m: NachrichtModell)
    requires
        crate::abstimmung::schluessel_eindeutig(g.votes),
    ensures
        crate::abstimmung::schluessel_eindeutig(spielzug(g, m).votes),
{
    match m {
        NachrichtModell::TagAction { direction } => {
            if let Some(t) = direction.target {
                crate::abstimmung::law_abstimmung_schluessel(g, direction.actor, t, ActionKind::DorfLyncht);
            }
        },
        NachrichtModell::WerwolfAction { direction } => {
            if let Some(t) = direction.target {
                crate::abstimmung::law_abstimmung_schluessel(g, direction.actor, t, ActionKind::WerwolfFrisst);
            }
        },
        NachrichtModell::SeherAction { actor, target } => {
            let s = erster_treffer(g.players, crate::spiel::mit_rolle(Rolle::Seher))->0;
            crate::phasen::lemma_phasenwechsel_erhaelt(
                SpielModell {
                    players: g.players.update(s, SpielerModell { bereits_gesehen: true, ..g.players[s] }),
                    ..g
                },
            );
        },
        NachrichtModell::HexenAction { direction, aktion, extra_target } => {
            crate::phasen::lemma_phasenwechsel_erhaelt(
                SpielModell { heiltrank_genutzt: true, geheilter_von_hexe: g.nacht_opfer, ..g },
            );
            crate::phasen::lemma_phasenwechsel_erhaelt(
                SpielModell { hexe_opfer: Some(extra_target), bereits_getoetet: true, ..g },
            );
            crate::phasen::lemma_phasenwechsel_erhaelt(g);
        },
        NachrichtModell::AmorAction { actor, target1, target2 } => {
            let i = erster_treffer(g.players, mit_name(target1))->0;
            let j = erster_treffer(g.players, mit_name(target2))->0;
            let ps = g.players.update(i, SpielerModell { team: crate::rollen::Team::TeamLiebende, ..g.players[i] });
            let ps2 = ps.update(j, SpielerModell { team: crate::rollen::Team::TeamLiebende, ..ps[j] });
            crate::phasen::lemma_phasenwechsel_erhaelt(
                SpielModell {
                    players: ps2,
                    liebender_1: Some(target1),
                    liebender_2: Some(target2),
                    liebende_aktiv: true,
                    amor_hat_gewaehlt: true,
                    ..g
                },
            );
        },
        NachrichtModell::DoktorAction { direction } => {
            if let Some(t) = direction.target {
                crate::phasen::lemma_phasenwechsel_erhaelt(SpielModell { geschuetzter_von_doktor: Some(t), ..g });
            }
        },
        NachrichtModell::PriesterAction { actor, target } => {
            if let Some(z) = target {
                crate::tod::law_nur_tode(g, z);
                crate::tod::law_nur_tode(g, actor);
            }
        },
        _ => {},
    }
}

/// Law: no message of a session records a second entry of votes for a
/// player: once the step of `handle_message` (`nachricht_wirkung`) is done,
/// every player still has at most one entry.
pub proof fn law_sitzung_stimmen_eindeutig(
    g: SpielModell,
    gestartet: bool,
    devs: Seq<GeraetModell>,
    m: NachrichtModell,
    g2: SpielModell,
    gestartet2: bool,
    devs2: Seq<GeraetModell>,
    r: Result<Seq<AusgabeModell>, Seq<char>>,
)
    requires
        nachricht_wirkung(g, gestartet, devs, m, g2, gestartet2, devs2, r),
        crate::abstimmung::schluessel_eindeutig(g.votes),
    ensures
        crate::abstimmung::schluessel_eindeutig(g2.votes),
{
    match m {
        NachrichtModell::StartGame => {},
        NachrichtModell::ResetGame => {},
        NachrichtModell::ReadyStatus { username, ready } => {},
        NachrichtModell::IngameBereit { username, ready } => {
            crate::phasen::lemma_phasenwechsel_erhaelt(mit_ingame_bereit(g, username, ready));
        },
        NachrichtModell::AddUser { username } => {},
        NachrichtModell::ChatMessage { sender, message } => {},
        _ => {
            law_spielzug_stimmen_eindeutig(g, m);
        },
    }
}

/// Some device is registered for `name`.
pub open spec fn hat_geraet(devs: Seq<GeraetModell>, name: Seq<char>) -> bool {
    exists|k: int| 0 <= k < devs.len() && devs[k].name == name
}

/// The names of the players who joined without a device of their own, in
/// order: they get a page of their own at the server when the game starts.
pub open spec fn ohne_geraet(ps: Seq<SpielerModell>, devs: Seq<GeraetModell>) -> Seq<Seq<char>>
    decreases ps.len(),
{
    if ps.len() == 0 {
        Seq::empty()
    } else {
        let r = ohne_geraet(ps.drop_last(), devs);
        if hat_geraet(devs, ps.last().name) {
            r
        } else {
            r.push(ps.last().name)
        }
    }
}

/// Whether some device is registered for `name` (see `hat_geraet`).
fn geraet_fuer(play_dev: &Vec<PlayerDevice>, name: &String) -> (r: bool)
    ensures
        r == hat_geraet(geraete(play_dev@), name@),
{
    let mut i: usize = 0;
    while i < play_dev.len()
        invariant
            i <= play_dev.len(),
            forall|k: int| 0 <= k < i ==> geraete(play_dev@)[k].name != name@,
        decreases play_dev.len() - i,
    {
        if play_dev[i].name == *name {
            assert(geraete(play_dev@)[i as int].name == name@);
            return true;
        }
        i += 1;
    }
    false
}

impl Game {
    /// The players who joined without a device of their own (see
    /// `ohne_geraet`).
    pub fn spieler_ohne_geraet(&self, play_dev: &Vec<PlayerDevice>) -> (r: Vec<String>)
        ensures
            crate::spiel::texte(r@) == ohne_geraet(self@.players, geraete(play_dev@)),
    {
        let ghost ps = self@.players;
        let ghost devs = geraete(play_dev@);
        let mut r: Vec<String> = Vec::new();
        let mut i: usize = 0;
        while i < self.players.len()
            invariant
                i <= self.players.len(),
                ps == self@.players,
                devs == geraete(play_dev@),
                crate::spiel::texte(r@) == ohne_geraet(ps.take(i as int), devs),
            decreases self.players.len() - i,
        {
            let p = &self.players[i];
            proof {
                assert(ps.take(i + 1).drop_last() =~= ps.take(i as int));
                assert(ps.take(i + 1).last() == p@);
            }
            if !geraet_fuer(play_dev, &p.name) {
                r.push(p.name.clone());
                proof {
                    assert(crate::spiel::texte(r@) =~= ohne_geraet(ps.take(i as int), devs).push(p.name@));
                }
            }
            i += 1;
        }
        proof {
            assert(ps.take(i as int) =~= ps);
        }
        r
    }
}

/// Whether the message `m` ends the round of `g`: in the doctor's phase,
/// the last confirmation of a role, an action of the witch that she may
/// carry out, or a protection that the doctor may give. Only then does the
/// round counter count.
pub open spec fn beendet_runde(g: SpielModell, m: NachrichtModell) -> bool {
    g.phase == Phase::DoktorPhase && match m {
        NachrichtModell::IngameBereit { username, ready } => alle_ingame_bereit(
            mit_ingame_bereit(g, username, ready).players,
        ),
        NachrichtModell::HexenAction { direction, aktion, extra_target } => hexe_fehler(
            g,
            aktion,
            direction.actor,
            extra_target,
        ) is None,
        NachrichtModell::DoktorAction { direction } => direction.target matches Some(t) && doktor_fehler(g, t) is None,
        _ => false,
    }
}

impl Game {
    /// Whether `m` ends the round of the game (see `beendet_runde`).
    pub fn runde_endet(&self, m: &ClientMessage) -> (r: bool)
        ensures
            r == beendet_runde(self@, m@),
    {
        if self.phase != Phase::DoktorPhase {
            return false;
        }
        match m {
            ClientMessage::IngameBereit { username, ready } => self.alle_ingame_bereit_nach(username, *ready),
            ClientMessage::HexenAction { direction, hexenAktion, extra_target } => self.hexe_pruefen(
                *hexenAktion,
                direction.actor.as_str(),
                extra_target.as_str(),
            ).is_none(),
            ClientMessage::DoktorAction { direction } => match &direction.target {
                Some(t) => self.doktor_pruefen(t.as_str()).is_none(),
                None => false,
            },
            _ => false,
        }
    }

    /// Whether every player has understood their role once the first player
    /// called `name` is marked as `ready` (see `mit_ingame_bereit`).
    fn alle_ingame_bereit_nach(&self, name: &String, ready: bool) -> (r: bool)
        ensures
            r == alle_ingame_bereit(mit_ingame_bereit(self@, name@, ready).players),
    {
        let ghost g = self@;
        let ghost ps = mit_ingame_bereit(g, name@, ready).players;
        let gefunden = finde(&self.players, Some(name), None, false, false);
        proof {
            lemma_treffer_passt(g.players, mit_name(name@));
        }
        let mut i: usize = 0;
        while i < self.players.len()
            invariant
                i <= self.players.len(),
                self@ == g,
                ps == mit_ingame_bereit(g, name@, ready).players,
                match gefunden {
                    Some(j) => erster_treffer(g.players, mit_name(name@)) == Some(j as int),
                    None => erster_treffer(g.players, mit_name(name@)) == None::<int>,
                },
                forall|k: int| 0 <= k < i ==> (#[trigger] ps[k]).ingame_ready_state,
            decreases self.players.len() - i,
        {
            let wert = match gefunden {
                Some(j) => if j == i {
                    ready
                } else {
                    self.players[i].ingame_ready_state
                },
                None => self.players[i].ingame_ready_state,
            };
            proof {
                assert(ps[i as int].ingame_ready_state == wert);
            }
            if !wert {
                return false;
            }
            i += 1;
        }
        true
    }
}

/// A lower-case hexadecimal digit.
pub open spec fn ist_hex_klein(c: char) -> bool {
    ('0' <= c && c <= '9') || ('a' <= c && c <= 'f')
}

/// The text form of a random (version 4) UUID: 32 lower-case hexadecimal
/// digits in groups of 8, 4, 4, 4 and 12 joined by hyphens, with the
/// version digit `4` and the variant digit one of `8`, `9`, `a`, `b`.
pub open spec fn ist_uuid_v4_text(t: Seq<char>) -> bool {
    &&& t.len() == 36
    &&& forall|k: int|
        0 <= k < 36 ==> if k == 8 || k == 13 || k == 18 || k == 23 {
            #[trigger] t[k] == '-'
        } else {
            ist_hex_klein(t[k])
        }
    &&& t[14] == '4'
    &&& (t[19] == '8' || t[19] == '9' || t[19] == 'a' || t[19] == 'b')
}

/// Returns a fresh token for a device: `uuid::Uuid::new_v4()` in its text
/// form (`Display`, which writes the hyphenated lower-case form). The value
/// is random; what is stated is its form: a version 4 UUID as text.
#[verifier::external_body]
fn neues_token() -> (t: String)
    ensures
        ist_uuid_v4_text(t@),
{
    uuid::Uuid::new_v4().to_string()
}

/// Registers `username`, who joined with the device token `token`: the
/// device is recorded, the player added to the game, and the token sent
/// back to the device.
pub fn benutzer_hinzufuegen(game: &mut Game, play_dev: &mut Vec<PlayerDevice>, username: String, token: String) -> (out: Vec<Ausgabe>)
    ensures
        geraete(final(play_dev)@) == geraete(old(play_dev)@).push(GeraetModell { name: username@, token: token@ }),
        final(game)@ == (SpielModell { players: old(game)@.players.push(neuer_spieler(username@)), ..old(game)@ }),
        ausgaben(out@) == seq![AusgabeModell::Beigetreten { token: token@ }],
{
    let ghost alt = geraete(play_dev@);
    play_dev.push(PlayerDevice { name: username.clone(), token: token.clone() });
    proof {
        assert(geraete(play_dev@) =~= alt.push(GeraetModell { name: username@, token: token@ }));
    }
    game.add_player(username);
    let mut out: Vec<Ausgabe> = Vec::new();
    out.push(Ausgabe::Beigetreten { token });
    proof {
        assert(ausgaben(out@) =~= seq![AusgabeModell::Beigetreten { token: token@ }]);
    }
    out
}

impl Game {
    /// Marks the first player called `name` as (not) ready.
    pub fn bereit_setzen(&mut self, name: &String, ready: bool)
        ensures
            final(self)@ == mit_bereit(old(self)@, name@, ready),
    {
        let ghost g = self@;
        match finde(&self.players, Some(name), None, false, false) {
            Some(i) => {
                self.players[i].ready_state = ready;
                proof {
                    assert(self@.players =~= g.players.update(
                        i as int,
                        SpielerModell { ready_state: ready, ..g.players[i as int] },
                    ));
                }
            },
            None => {},
        }
    }

    /// Marks the first player called `name` as (not) having understood
    /// their role.
    pub fn ingame_bereit_setzen(&mut self, name: &String, ready: bool)
        ensures
            final(self)@ == mit_ingame_bereit(old(self)@, name@, ready),
    {
        let ghost g = self@;
        match finde(&self.players, Some(name), None, false, false) {
            Some(i) => {
                self.players[i].ingame_ready_state = ready;
                proof {
                    assert(self@.players =~= g.players.update(
                        i as int,
                        SpielerModell { ingame_ready_state: ready, ..g.players[i as int] },
                    ));
                }
            },
            None => {},
        }
    }

    /// Whether every player is ready.
    pub fn alle_bereit(&self) -> (r: bool)
        ensures
            r == alle_bereit(self@.players),
    {
        let mut i: usize = 0;
        while i < self.players.len()
            invariant
                i <= self.players.len(),
                forall|k: int| 0 <= k < i ==> (#[trigger] self@.players[k]).ready_state,
            decreases self.players.len() - i,
        {
            if !self.players[i].ready_state {
                assert(!self@.players[i as int].ready_state);
                return false;
            }
            i += 1;
        }
        true
    }

    /// Whether every player has understood their role.
    pub fn alle_ingame_bereit(&self) -> (r: bool)
        ensures
            r == alle_ingame_bereit(self@.players),
    {
        let mut i: usize = 0;
        while i < self.players.len()
            invariant
                i <= self.players.len(),
                forall|k: int| 0 <= k < i ==> (#[trigger] self@.players[k]).ingame_ready_state,
            decreases self.players.len() - i,
        {
            if !self.players[i].ingame_ready_state {
                assert(!self@.players[i as int].ingame_ready_state);
                return false;
            }
            i += 1;
        }
        true
    }

    /// Starts the game (see `spielstart`).
    pub fn spiel_starten(&mut self)
        ensures
            spielstart(old(self)@, final(self)@),
    {
        self.phase = Phase::Spielbeginn;
        self.runden = 1;
        let _ = self.verteile_rollen();
    }

    /// Applies a game action (see `spielzug`); other messages leave the game
    /// as it is.
    pub fn spielzug(&mut self, client_message: ClientMessage)
        requires
            beendet_runde(old(self)@, client_message@) ==> kann_wechseln(old(self)@),
        ensures
            final(self)@ == spielzug(old(self)@, client_message@),
    {
        match client_message {
            ClientMessage::TagAction { direction } => {
                self.abstimmungs_zug(Phase::Tag, direction.actor, direction.target, ActionKind::DorfLyncht);
            },
            ClientMessage::WerwolfAction { direction } => {
                self.abstimmungs_zug(
                    Phase::WerwoelfePhase,
                    direction.actor,
                    direction.target,
                    ActionKind::WerwolfFrisst,
                );
            },
            ClientMessage::SeherAction { actor, target } => {
                self.seher_zug(target);
            },
            ClientMessage::HexenAction { direction, hexenAktion, extra_target } => {
                let _ = self.hexe_arbeitet(hexenAktion, direction.actor.as_str(), extra_target.as_str());
            },
            ClientMessage::AmorAction { actor, target1, target2 } => {
                let _ = self.amor_waehlt(target1.as_str(), target2.as_str());
            },
            ClientMessage::DoktorAction { direction } => {
                match direction.target {
                    Some(target) => {
                        let _ = self.doktor_schuetzt(target.as_str());
                    },
                    None => {},
                }
            },
            ClientMessage::PriesterAction { actor, target } => {
                let ziel: Option<&str> = match &target {
                    Some(t) => Some(t.as_str()),
                    None => None,
                };
                let _ = self.priester_wirft(actor.as_str(), ziel);
            },
            ClientMessage::JaegerAction { actor, target } => {
                self.jaeger_ziel = target;
            },
            _ => {},
        }
    }

    /// A vote, counted only in `phase` (see `abstimmungs_zug`).
    fn abstimmungs_zug(&mut self, phase: Phase, actor: String, target: Option<String>, action: ActionKind)
        requires
            phase == Phase::Tag || phase == Phase::WerwoelfePhase,
        ensures
            final(self)@ == abstimmungs_zug(old(self)@, phase, actor@, crate::nachrichten::opt_seq(target), action),
    {
        if self.phase == phase {
            match target {
                Some(t) => {
                    let _ = handle_vote(self, actor, t, action);
                },
                None => {},
            }
        }
    }

    /// The seer's look in her phase (see `seher_zug`).
    fn seher_zug(&mut self, target: String)
        ensures
            final(self)@ == seher_zug(old(self)@, target@),
    {
        if let Phase::SeherPhase = self.phase {
            if let Ok(rolle) = self.seher_schaut(target.as_str()) {
                self.last_seher_result = Some((target, rolle));
            }
        }
    }
}

/// The effect of a message on the session: the game, whether it has
/// started, and the joined devices, with what is sent out.
pub open spec fn nachricht_wirkung(
    g: SpielModell,
    gestartet: bool,
    devs: Seq<GeraetModell>,
    m: NachrichtModell,
    g2: SpielModell,
    gestartet2: bool,
    devs2: Seq<GeraetModell>,
    r: Result<Seq<AusgabeModell>, Seq<char>>,
) -> bool {
    match m {
        NachrichtModell::StartGame => if !gestartet {
            spielstart(g, g2) && gestartet2 && devs2 == devs && r == Ok::<Seq<AusgabeModell>, Seq<char>>(
                seq![AusgabeModell::SpielGestartet],
            )
        } else {
            g2 == g && gestartet2 && devs2 == devs && r == Ok::<Seq<AusgabeModell>, Seq<char>>(Seq::empty())
        },
        NachrichtModell::ResetGame => g2 == neues_spiel() && !gestartet2 && devs2 == Seq::<GeraetModell>::empty()
            && r == Ok::<Seq<AusgabeModell>, Seq<char>>(seq![AusgabeModell::SpielZurueckgesetzt]),
        NachrichtModell::ReadyStatus { username, ready } => {
            let g1 = mit_bereit(g, username, ready);
            devs2 == devs && if alle_bereit(g1.players) {
                spielstart(g1, g2) && gestartet2 && r == Ok::<Seq<AusgabeModell>, Seq<char>>(
                    seq![AusgabeModell::SpielGestartet],
                )
            } else {
                g2 == g1 && gestartet2 == gestartet && r == Ok::<Seq<AusgabeModell>, Seq<char>>(Seq::empty())
            }
        },
        NachrichtModell::IngameBereit { username, ready } => {
            let g1 = mit_ingame_bereit(g, username, ready);
            devs2 == devs && gestartet2 == gestartet && r == Ok::<Seq<AusgabeModell>, Seq<char>>(Seq::empty())
                && g2 == if alle_ingame_bereit(g1.players) {
                phasenwechsel(g1)
            } else {
                g1
            }
        },
        NachrichtModell::AddUser { username } => if erster_treffer(g.players, mit_name(username)) is Some {
            g2 == g && gestartet2 == gestartet && devs2 == devs && r == Err::<Seq<AusgabeModell>, Seq<char>>(
                "Name existiert bereits"@,
            )
        } else {
            exists|token: Seq<char>|
                #![trigger devs.push(GeraetModell { name: username, token })]
                ist_uuid_v4_text(token) && devs2 == devs.push(GeraetModell { name: username, token })
                    && r == Ok::<Seq<AusgabeModell>, Seq<char>>(seq![AusgabeModell::Beigetreten { token }])
                    && g2 == (SpielModell { players: g.players.push(neuer_spieler(username)), ..g })
                    && gestartet2 == gestartet
        },
        NachrichtModell::ChatMessage { sender, message } => g2 == g && gestartet2 == gestartet && devs2 == devs
            && r == Ok::<Seq<AusgabeModell>, Seq<char>>(
            seq![AusgabeModell::Chat { sender, message }],
        ),
        _ => g2 == spielzug(g, m) && gestartet2 == gestartet && devs2 == devs && r == Ok::<
            Seq<AusgabeModell>,
            Seq<char>,
        >(Seq::empty()),
    }
}

/// Handles one message of a player's page (see `nachricht_wirkung`) and
/// returns what is to be sent out.
pub fn handle_message(
    game: &mut Game,
    game_started: &mut bool,
    play_dev: &mut Vec<PlayerDevice>,
    client_message: ClientMessage,
) -> (r: Result<Vec<Ausgabe>, String>)
    requires
        beendet_runde(old(game)@, client_message@) ==> kann_wechseln(old(game)@),
    ensures
        nachricht_wirkung(
            old(game)@,
            *old(game_started),
            geraete(old(play_dev)@),
            client_message@,
            final(game)@,
            *final(game_started),
            geraete(final(play_dev)@),
            match r {
                Ok(v) => Ok(ausgaben(v@)),
                Err(e) => Err(e@),
            },
        ),
{
    let ghost m = client_message@;
    let mut out: Vec<Ausgabe> = Vec::new();
    match client_message {
        ClientMessage::StartGame => {
            if !*game_started {
                *game_started = true;
                game.spiel_starten();
                out.push(Ausgabe::SpielGestartet);
                proof {
                    assert(ausgaben(out@) =~= seq![AusgabeModell::SpielGestartet]);
                }
            } else {
                proof {
                    assert(ausgaben(out@) =~= Seq::empty());
                }
            }
        },
        ClientMessage::ResetGame => {
            *game = Game::new();
            *game_started = false;
            play_dev.clear();
            out.push(Ausgabe::SpielZurueckgesetzt);
            proof {
                assert(ausgaben(out@) =~= seq![AusgabeModell::SpielZurueckgesetzt]);
                assert(geraete(play_dev@) =~= Seq::empty());
            }
        },
        ClientMessage::ReadyStatus { username, ready } => {
            game.bereit_setzen(&username, ready);
            if game.alle_bereit() {
                *game_started = true;
                game.spiel_starten();
                out.push(Ausgabe::SpielGestartet);
                proof {
                    assert(ausgaben(out@) =~= seq![AusgabeModell::SpielGestartet]);
                }
            } else {
                proof {
                    assert(ausgaben(out@) =~= Seq::empty());
                }
            }
        },
        ClientMessage::IngameBereit { username, ready } => {
            game.ingame_bereit_setzen(&username, ready);
            if game.alle_ingame_bereit() {
                game.phase_change();
            }
            proof {
                assert(ausgaben(out@) =~= Seq::empty());
            }
        },
        ClientMessage::AddUser { username } => {
            if finde(&game.players, Some(&username), None, false, false).is_some() {
                return Err("Name existiert bereits".to_owned());
            }
            let token = neues_token();
            let ghost t = token@;
            let ghost d = geraete(play_dev@);
            let ghost g = game@;
            let out = benutzer_hinzufuegen(game, play_dev, username, token);
            proof {
                assert(d.push(GeraetModell { name: m->AddUser_username, token: t }) == geraete(play_dev@));
            }
            return Ok(out);
        },
        ClientMessage::ChatMessage { sender, message } => {
            out.push(Ausgabe::Chat { sender, message });
            proof {
                assert(ausgaben(out@) =~= seq![AusgabeModell::Chat { sender: m->sender, message: m->message }]);
            }
        },
        other => {
            game.spielzug(other);
            proof {
                assert(ausgaben(out@) =~= Seq::empty());
            }
        },
    }
    Ok(out)
}

} // verus!
