use vstd::prelude::*;
use crate::rollen::{Rolle, Team, team_von};

verus! {

/// The phase a game is in: the day, one of the night phases in which a
/// single role acts, or the moment between dealing the roles and the first
/// phase.
#[derive(Debug, Clone, Copy, PartialEq, Eq, Structural)]
pub enum Phase {
    Tag,
    AmorPhase,
    WerwoelfePhase,
    SeherPhase,
    HexePhase,
    PriesterPhase,
    DoktorPhase,
    Spielbeginn,
}

/// What the witch does in her phase.
#[derive(Debug, Clone, Copy, PartialEq, Eq, Structural)]
pub enum HexenAktion {
    Heilen,
    NichtsTun,
    Vergiften,
}

/// The side that has won a game.
#[derive(Debug, Clone, Copy, PartialEq, Eq, Structural)]
pub enum Winner {
    Dorf,
    Werwolf,
    Liebende,
}

/// A player and what the game knows about them.
#[derive(Debug, Clone, PartialEq)]
pub struct Spieler {
    pub name: String,
    pub team: Team,
    pub rolle: Rolle,
    pub lebend: bool,
    pub bereits_gesehen: bool,
    pub ready_state: bool,
    pub ingame_ready_state: bool,
    pub has_voted: bool,
}

/// The whole state of one game.
#[derive(Debug, Clone, PartialEq)]
pub struct Game {
    pub players: Vec<Spieler>,
    pub phase: Phase,
    pub runden: u32,
    pub heiltrank_genutzt: bool,
    pub bereits_getoetet: bool,
    pub tag_opfer: Option<String>,
    pub nacht_opfer: Option<String>,
    pub hexe_opfer: Option<String>,
    pub geheilter_von_hexe: Option<String>,
    pub liebender_1: Option<String>,
    pub liebender_2: Option<String>,
    pub liebende_aktiv: bool,
    pub amor_hat_gewaehlt: bool,
    pub jaeger_ziel: Option<String>,
    pub last_seher_result: Option<(String, Rolle)>,
    pub geschuetzter_von_doktor: Option<String>,
    pub priester_hat_geworfen: bool,
    /// For each player that received votes in the running vote, the names
    /// of those who voted for them, in the order the first votes came in.
    pub votes: Vec<(String, Vec<String>)>,
    pub eligible_players: Vec<String>,
    pub current_votes: Vec<(String, Vec<String>)>,
    pub ongoing_vote: bool,
}

/// A player, with names as sequences of characters.
#[verifier::ext_equal]
pub struct SpielerModell {
    pub name: Seq<char>,
    pub team: Team,
    pub rolle: Rolle,
    pub lebend: bool,
    pub bereits_gesehen: bool,
    pub ready_state: bool,
    pub ingame_ready_state: bool,
    pub has_voted: bool,
}

/// Votes: who received votes, and from whom.
pub type StimmenModell = Seq<(Seq<char>, Seq<Seq<char>>)>;

/// A game, with names as sequences of characters.
#[verifier::ext_equal]
pub struct SpielModell {
    pub players: Seq<SpielerModell>,
    pub phase: Phase,
    pub runden: nat,
    pub heiltrank_genutzt: bool,
    pub bereits_getoetet: bool,
    pub tag_opfer: Option<Seq<char>>,
    pub nacht_opfer: Option<Seq<char>>,
    pub hexe_opfer: Option<Seq<char>>,
    pub geheilter_von_hexe: Option<Seq<char>>,
    pub liebender_1: Option<Seq<char>>,
    pub liebender_2: Option<Seq<char>>,
    pub liebende_aktiv: bool,
    pub amor_hat_gewaehlt: bool,
    pub jaeger_ziel: Option<Seq<char>>,
    pub last_seher_result: Option<(Seq<char>, Rolle)>,
    pub geschuetzter_von_doktor: Option<Seq<char>>,
    pub priester_hat_geworfen: bool,
    pub votes: StimmenModell,
    pub eligible_players: Seq<Seq<char>>,
    pub current_votes: StimmenModell,
    pub ongoing_vote: bool,
}

pub open spec fn opt_text(o: Option<String>) -> Option<Seq<char>> {
    match o {
        Some(s) => Some(s@),
        None => None,
    }
}

pub open spec fn texte(v: Seq<String>) -> Seq<Seq<char>> {
    v.map_values(|s: String| s@)
}

pub open spec fn stimmen_text(v: Seq<(String, Vec<String>)>) -> StimmenModell {
    v.map_values(|e: (String, Vec<String>)| (e.0@, texte(e.1@)))
}

impl View for Spieler {
    type V = SpielerModell;

    open spec fn view(&self) -> SpielerModell {
        SpielerModell {
            name: self.name@,
            team: self.team,
            rolle: self.rolle,
            lebend: self.lebend,
            bereits_gesehen: self.bereits_gesehen,
            ready_state: self.ready_state,
            ingame_ready_state: self.ingame_ready_state,
            has_voted: self.has_voted,
        }
    }
}

pub open spec fn spieler_modelle(v: Seq<Spieler>) -> Seq<SpielerModell> {
    v.map_values(|p: Spieler| p@)
}

impl View for Game {
    type V = SpielModell;

    open spec fn view(&self) -> SpielModell {
        SpielModell {
            players: spieler_modelle(self.players@),
            phase: self.phase,
            runden: self.runden as nat,
            heiltrank_genutzt: self.heiltrank_genutzt,
            bereits_getoetet: self.bereits_getoetet,
            tag_opfer: opt_text(self.tag_opfer),
            nacht_opfer: opt_text(self.nacht_opfer),
            hexe_opfer: opt_text(self.hexe_opfer),
            geheilter_von_hexe: opt_text(self.geheilter_von_hexe),
            liebender_1: opt_text(self.liebender_1),
            liebender_2: opt_text(self.liebender_2),
            liebende_aktiv: self.liebende_aktiv,
            amor_hat_gewaehlt: self.amor_hat_gewaehlt,
            jaeger_ziel: opt_text(self.jaeger_ziel),
            last_seher_result: match self.last_seher_result {
                Some((n, r)) => Some((n@, r)),
                None => None,
            },
            geschuetzter_von_doktor: opt_text(self.geschuetzter_von_doktor),
            priester_hat_geworfen: self.priester_hat_geworfen,
            votes: stimmen_text(self.votes@),
            eligible_players: texte(self.eligible_players@),
            current_votes: stimmen_text(self.current_votes@),
            ongoing_vote: self.ongoing_vote,
        }
    }
}

/// A fresh game: nobody has joined, it is the day of the first round, no
/// potion is used, nobody is marked, loved, protected or voted for.
pub open spec fn neues_spiel() -> SpielModell {
    SpielModell {
        players: Seq::empty(),
        phase: Phase::Tag,
        runden: 1,
        heiltrank_genutzt: false,
        bereits_getoetet: false,
        tag_opfer: None,
        nacht_opfer: None,
        hexe_opfer: None,
        geheilter_von_hexe: None,
        liebender_1: None,
        liebender_2: None,
        liebende_aktiv: false,
        amor_hat_gewaehlt: false,
        jaeger_ziel: None,
        last_seher_result: None,
        geschuetzter_von_doktor: None,
        priester_hat_geworfen: false,
        votes: Seq::empty(),
        eligible_players: Seq::empty(),
        current_votes: Seq::empty(),
        ongoing_vote: false,
    }
}

/// A player who has just joined: alive, a villager until the roles are dealt,
/// and not ready yet.
pub open spec fn neuer_spieler(name: Seq<char>) -> SpielerModell {
    SpielerModell {
        name,
        team: Team::TeamDorf,
        rolle: Rolle::Dorfbewohner,
        lebend: true,
        bereits_gesehen: false,
        ready_state: false,
        ingame_ready_state: false,
        has_voted: false,
    }
}

/// Which players a search looks for: by name, by role, only living ones,
/// only those who have voted; a criterion left open matches everybody.
pub open spec fn kriterium(
    name: Option<Seq<char>>,
    rolle: Option<Rolle>,
    nur_lebend: bool,
    nur_abgestimmt: bool,
) -> spec_fn(SpielerModell) -> bool {
    |p: SpielerModell|
        (match name {
            Some(n) => p.name == n,
            None => true,
        }) && (match rolle {
            Some(r) => p.rolle == r,
            None => true,
        }) && (!nur_lebend || p.lebend) && (!nur_abgestimmt || p.has_voted)
}

pub open spec fn mit_name(name: Seq<char>) -> spec_fn(SpielerModell) -> bool {
    kriterium(Some(name), None, false, false)
}

pub open spec fn mit_rolle(rolle: Rolle) -> spec_fn(SpielerModell) -> bool {
    kriterium(None, Some(rolle), false, false)
}

/// `i` is the position of the first player that `p` matches.
pub open spec fn ist_erster_treffer(s: Seq<SpielerModell>, p: spec_fn(SpielerModell) -> bool, i: int) -> bool {
    &&& 0 <= i < s.len()
    &&& p(s[i])
    &&& forall|j: int| 0 <= j < i ==> !p(#[trigger] s[j])
}

/// The position of the first player that `p` matches, if there is one.
pub open spec fn erster_treffer(s: Seq<SpielerModell>, p: spec_fn(SpielerModell) -> bool) -> Option<int> {
    if exists|i: int| ist_erster_treffer(s, p, i) {
        Some(choose|i: int| ist_erster_treffer(s, p, i))
    } else {
        None
    }
}

/// Only the first match is a first match.
pub proof fn lemma_erster_treffer_eindeutig(s: Seq<SpielerModell>, p: spec_fn(SpielerModell) -> bool, i: int)
    requires
        ist_erster_treffer(s, p, i),
    ensures
        erster_treffer(s, p) == Some(i),
{
    let k = choose|k: int| ist_erster_treffer(s, p, k);
    assert(ist_erster_treffer(s, p, k));
    if k < i {
        assert(!p(s[k]));
    } else if i < k {
        assert(!p(s[i]));
    }
}

/// Nothing matches: there is no first match.
pub proof fn lemma_kein_treffer(s: Seq<SpielerModell>, p: spec_fn(SpielerModell) -> bool)
    requires
        forall|j: int| 0 <= j < s.len() ==> !p(#[trigger] s[j]),
    ensures
        erster_treffer(s, p) == None::<int>,
{
}

/// Where something matches, there is a first match, no later than it.
pub proof fn lemma_treffer_existiert(s: Seq<SpielerModell>, p: spec_fn(SpielerModell) -> bool, i: int)
    requires
        0 <= i < s.len(),
        p(s[i]),
    ensures
        erster_treffer(s, p) matches Some(k) && k <= i && ist_erster_treffer(s, p, k),
    decreases i,
{
    if forall|j: int| 0 <= j < i ==> !p(#[trigger] s[j]) {
        lemma_erster_treffer_eindeutig(s, p, i);
    } else {
        let j = choose|j: int| 0 <= j < i && p(#[trigger] s[j]);
        lemma_treffer_existiert(s, p, j);
    }
}

/// A first match is a match.
pub proof fn lemma_treffer_passt(s: Seq<SpielerModell>, p: spec_fn(SpielerModell) -> bool)
    ensures
        erster_treffer(s, p) matches Some(i) ==> ist_erster_treffer(s, p, i),
{
}

/// Some living player has the role.
pub open spec fn hat_rolle(g: SpielModell, rolle: Rolle) -> bool {
    exists|i: int| 0 <= i < g.players.len() && g.players[i].rolle == rolle && g.players[i].lebend
}

/// The number of living players in `team`.
pub open spec fn lebend_im_team(s: Seq<SpielerModell>, team: Team) -> nat
    decreases s.len(),
{
    if s.len() == 0 {
        0
    } else {
        lebend_im_team(s.drop_last(), team) + if s.last().lebend && s.last().team == team {
            1nat
        } else {
            0nat
        }
    }
}

/// The side that has won, if one has: the werewolves as soon as they are at
/// least as many as all other living players; the village or the lovers
/// once they alone are left alive. With nobody alive, or with villagers and
/// lovers both alive and no werewolf, nobody has won yet.
pub open spec fn sieger(g: SpielModell) -> Option<Winner> {
    let w = lebend_im_team(g.players, Team::TeamWerwolf);
    let d = lebend_im_team(g.players, Team::TeamDorf);
    let l = lebend_im_team(g.players, Team::TeamLiebende);
    if w > 0 && w >= d + l {
        Some(Winner::Werwolf)
    } else if d > 0 && w == 0 && l == 0 {
        Some(Winner::Dorf)
    } else if l > 0 && w == 0 && d == 0 {
        Some(Winner::Liebende)
    } else {
        None
    }
}

pub proof fn lemma_lebend_im_team_schranke(s: Seq<SpielerModell>, team: Team)
    ensures
        lebend_im_team(s, team) <= s.len(),
    decreases s.len(),
{
    if s.len() > 0 {
        lemma_lebend_im_team_schranke(s.drop_last(), team);
    }
}

/// Finds the first player matching the given criteria.
pub fn finde(
    players: &Vec<Spieler>,
    name: Option<&String>,
    rolle: Option<Rolle>,
    nur_lebend: bool,
    nur_abgestimmt: bool,
) -> (r: Option<usize>)
    ensures
        ({
            let k = kriterium(
                match name {
                    Some(n) => Some(n@),
                    None => None,
                },
                rolle,
                nur_lebend,
                nur_abgestimmt,
            );
            match r {
                Some(i) => erster_treffer(spieler_modelle(players@), k) == Some(i as int),
                None => erster_treffer(spieler_modelle(players@), k) == None::<int>,
            }
        }),
{
    let ghost k = kriterium(
        match name {
            Some(n) => Some(n@),
            None => None,
        },
        rolle,
        nur_lebend,
        nur_abgestimmt,
    );
    let ghost s = spieler_modelle(players@);
    let mut i: usize = 0;
    while i < players.len()
        invariant
            i <= players.len(),
            s == spieler_modelle(players@),
            k == kriterium(
                match name {
                    Some(n) => Some(n@),
                    None => None,
                },
                rolle,
                nur_lebend,
                nur_abgestimmt,
            ),
            forall|j: int| 0 <= j < i ==> !k(#[trigger] s[j]),
        decreases players.len() - i,
    {
        let p = &players[i];
        let passt_name = match name {
            Some(n) => p.name == *n,
            None => true,
        };
        let passt_rolle = match rolle {
            Some(r) => p.rolle == r,
            None => true,
        };
        if passt_name && passt_rolle && (!nur_lebend || p.lebend) && (!nur_abgestimmt || p.has_voted) {
            proof {
                assert(k(s[i as int]));
                lemma_erster_treffer_eindeutig(s, k, i as int);
            }
            return Some(i);
        }
        assert(!k(s[i as int]));
        i += 1;
    }
    proof {
        lemma_kein_treffer(s, k);
    }
    None
}

impl Game {
    pub fn new() -> (g: Self)
        ensures
            g@ == neues_spiel(),
    {
        let g = Game {
            players: Vec::new(),
            phase: Phase::Tag,
            runden: 1,
            heiltrank_genutzt: false,
            bereits_getoetet: false,
            tag_opfer: None,
            nacht_opfer: None,
            hexe_opfer: None,
            geheilter_von_hexe: None,
            liebender_1: None,
            liebender_2: None,
            liebende_aktiv: false,
            amor_hat_gewaehlt: false,
            jaeger_ziel: None,
            last_seher_result: None,
            geschuetzter_von_doktor: None,
            priester_hat_geworfen: false,
            votes: Vec::new(),
            eligible_players: Vec::new(),
            current_votes: Vec::new(),
            ongoing_vote: false,
        };
        assert(g@ =~= neues_spiel());
        g
    }

    /// Adds a player under `name`, as a living villager; the real role is
    /// dealt later.
    pub fn add_player(&mut self, name: String)
        ensures
            final(self)@ == (SpielModell {
                players: old(self)@.players.push(neuer_spieler(name@)),
                ..old(self)@
            }),
    {
        let ghost alt = self@;
        let ghost n = name@;
        self.players.push(
            Spieler {
                name,
                team: Team::TeamDorf,
                rolle: Rolle::Dorfbewohner,
                lebend: true,
                bereits_gesehen: false,
                ready_state: false,
                ingame_ready_state: false,
                has_voted: false,
            },
        );
        assert(self@.players =~= alt.players.push(neuer_spieler(n)));
    }

    /// The role of the first player called `name`.
    pub fn rolle_von(&self, name: &str) -> (r: Option<&Rolle>)
        ensures
            match erster_treffer(self@.players, mit_name(name@)) {
                Some(i) => r == Some(&self@.players[i].rolle),
                None => r is None,
            },
    {
        let gesucht = name.to_owned();
        match finde(&self.players, Some(&gesucht), None, false, false) {
            Some(i) => Some(&self.players[i].rolle),
            None => None,
        }
    }

    /// Whether a living player holds `rolle`.
    pub fn has_role(&self, rolle: Rolle) -> (b: bool)
        ensures
            b == hat_rolle(self@, rolle),
    {
        let r = finde(&self.players, None, Some(rolle), true, false);
        proof {
            let k = kriterium(None, Some(rolle), true, false);
            lemma_treffer_passt(self@.players, k);
            if r is None {
                assert forall|i: int| 0 <= i < self@.players.len() implies !(self@.players[i].rolle == rolle
                    && self@.players[i].lebend) by {
                    if self@.players[i].rolle == rolle && self@.players[i].lebend {
                        lemma_treffer_existiert(self@.players, k, i);
                    }
                }
            }
        }
        r.is_some()
    }

    /// Which side has won, if one has (see `sieger`).
    pub fn check_win(&self) -> (w: Option<Winner>)
        ensures
            w == sieger(self@),
    {
        let mut werwoelfe: usize = 0;
        let mut dorf: usize = 0;
        let mut liebende: usize = 0;
        let ghost s = self@.players;
        let mut i: usize = 0;
        while i < self.players.len()
            invariant
                i <= self.players.len(),
                s == self@.players,
                werwoelfe == lebend_im_team(s.take(i as int), Team::TeamWerwolf),
                dorf == lebend_im_team(s.take(i as int), Team::TeamDorf),
                liebende == lebend_im_team(s.take(i as int), Team::TeamLiebende),
            decreases self.players.len() - i,
        {
            proof {
                assert(s.take(i + 1).drop_last() =~= s.take(i as int));
                lemma_lebend_im_team_schranke(s.take(i as int), Team::TeamWerwolf);
                lemma_lebend_im_team_schranke(s.take(i as int), Team::TeamDorf);
                lemma_lebend_im_team_schranke(s.take(i as int), Team::TeamLiebende);
            }
            let p = &self.players[i];
            if p.lebend {
                match p.team {
                    Team::TeamWerwolf => werwoelfe += 1,
                    Team::TeamDorf => dorf += 1,
                    Team::TeamLiebende => liebende += 1,
                }
            }
            i += 1;
        }
        assert(s.take(i as int) =~= s);
        if werwoelfe > 0 && werwoelfe >= dorf && werwoelfe - dorf >= liebende {
            return Some(Winner::Werwolf);
        }
        if dorf > 0 && werwoelfe == 0 && liebende == 0 {
            return Some(Winner::Dorf);
        }
        if liebende > 0 && werwoelfe == 0 && dorf == 0 {
            return Some(Winner::Liebende);
        }
        None
    }
}

} // verus!
