use vstd::prelude::*;
use crate::rollen::Rolle;
use crate::spiel::{Game, Phase, SpielModell, erster_treffer, hat_rolle, lemma_treffer_passt, mit_name};
use crate::tod::{law_nur_tode, law_spieler_ist_tot, lemma_bleibt_tot, nur_tode, stirbt};

verus! {

/// The night roles in the order they are called: Amor, the werewolves, the
/// seer, the witch, the doctor.
pub open spec fn rolle_der_stufe(stufe: int) -> Rolle {
    if stufe == 1 {
        Rolle::Amor
    } else if stufe == 2 {
        Rolle::Werwolf
    } else if stufe == 3 {
        Rolle::Seher
    } else if stufe == 4 {
        Rolle::Hexe
    } else {
        Rolle::Doktor
    }
}

pub open spec fn phase_der_stufe(stufe: int) -> Phase {
    if stufe == 1 {
        Phase::AmorPhase
    } else if stufe == 2 {
        Phase::WerwoelfePhase
    } else if stufe == 3 {
        Phase::SeherPhase
    } else if stufe == 4 {
        Phase::HexePhase
    } else {
        Phase::DoktorPhase
    }
}

/// The place of a phase in the night order; the day and the phases outside
/// that order have none.
pub open spec fn stufe_der_phase(p: Phase) -> int {
    match p {
        Phase::AmorPhase => 1,
        Phase::WerwoelfePhase => 2,
        Phase::SeherPhase => 3,
        Phase::HexePhase => 4,
        Phase::DoktorPhase => 5,
        _ => 0,
    }
}

/// The role that acts in a phase.
pub open spec fn rolle_der_phase(p: Phase) -> Option<Rolle> {
    match p {
        Phase::AmorPhase => Some(Rolle::Amor),
        Phase::WerwoelfePhase => Some(Rolle::Werwolf),
        Phase::SeherPhase => Some(Rolle::Seher),
        Phase::HexePhase => Some(Rolle::Hexe),
        Phase::DoktorPhase => Some(Rolle::Doktor),
        Phase::PriesterPhase => Some(Rolle::Priester),
        _ => None,
    }
}

/// The first phase from `stufe` on in the night order whose role a living
/// player holds; the day when there is none.
pub open spec fn naechste_ab(g: SpielModell, stufe: int) -> Phase
    decreases 6 - stufe,
{
    if stufe > 5 || stufe < 1 {
        Phase::Tag
    } else if hat_rolle(g, rolle_der_stufe(stufe)) {
        phase_der_stufe(stufe)
    } else {
        naechste_ab(g, stufe + 1)
    }
}

/// The werewolves' victim dies unless the witch healed or the doctor
/// protected them.
pub open spec fn nach_angriff(g: SpielModell) -> SpielModell {
    match g.nacht_opfer {
        Some(o) => if g.geheilter_von_hexe == Some(o) || g.geschuetzter_von_doktor == Some(o) {
            g
        } else {
            stirbt(g, o)
        },
        None => g,
    }
}

/// The witch's poison kills unless the doctor protected its target.
pub open spec fn nach_gift(g: SpielModell) -> SpielModell {
    match g.hexe_opfer {
        Some(z) => if g.geschuetzter_von_doktor == Some(z) {
            g
        } else {
            stirbt(g, z)
        },
        None => g,
    }
}

/// The end of the night: first the werewolves' attack, then the witch's
/// poison take effect, and the werewolves' and the witch's marks are
/// cleared. The doctor's protection stays recorded until he protects
/// somebody else.
pub open spec fn nacht_ende(g: SpielModell) -> SpielModell {
    let g2 = nach_gift(nach_angriff(g));
    SpielModell { nacht_opfer: None, hexe_opfer: None, geheilter_von_hexe: None, ..g2 }
}

/// The next phase: after the day, and once every player has confirmed their
/// role at the start of the game, the night begins with the first night
/// phase whose role is still alive (the day again when none is); after each
/// night phase comes the next such phase, or the day; after the doctor's
/// phase the night ends, a new round begins with the day. The priest's
/// phase is left as it is. Only the end of the night changes more than the
/// phase.
pub open spec fn phasenwechsel(g: SpielModell) -> SpielModell {
    match g.phase {
        Phase::Tag | Phase::Spielbeginn => SpielModell { phase: naechste_ab(g, 1), ..g },
        Phase::AmorPhase => SpielModell { phase: naechste_ab(g, 2), ..g },
        Phase::WerwoelfePhase => SpielModell { phase: naechste_ab(g, 3), ..g },
        Phase::SeherPhase => SpielModell { phase: naechste_ab(g, 4), ..g },
        Phase::HexePhase => SpielModell { phase: naechste_ab(g, 5), ..g },
        Phase::DoktorPhase => {
            let h = nacht_ende(g);
            SpielModell { phase: Phase::Tag, runden: h.runden + 1, ..h }
        },
        Phase::PriesterPhase => g,
    }
}

/// The round counter can still count the round that the next phase change
/// may begin.
pub open spec fn kann_wechseln(g: SpielModell) -> bool {
    g.phase == Phase::DoktorPhase ==> g.runden < u32::MAX
}

/// The day's lynching: `name` is the day's victim and dies, then the night
/// begins.
pub open spec fn lynchen(g: SpielModell, name: Seq<char>) -> SpielModell {
    phasenwechsel(stirbt(SpielModell { tag_opfer: Some(name), ..g }, name))
}

pub proof fn lemma_naechste_ab(g: SpielModell, stufe: int)
    ensures
        naechste_ab(g, stufe) == Phase::Tag || (stufe_der_phase(naechste_ab(g, stufe)) >= stufe
            && rolle_der_phase(naechste_ab(g, stufe)) == Some(rolle_der_stufe(
            stufe_der_phase(naechste_ab(g, stufe)),
        )) && hat_rolle(g, rolle_der_stufe(stufe_der_phase(naechste_ab(g, stufe))))),
    decreases 6 - stufe,
{
    if !(stufe > 5 || stufe < 1) && !hat_rolle(g, rolle_der_stufe(stufe)) {
        lemma_naechste_ab(g, stufe + 1);
    }
}

/// Law: a phase change only enters the phase of a role that a living player
/// holds.
pub proof fn law_neue_phase_hat_lebende_rolle(g: SpielModell)
    ensures
        phasenwechsel(g).phase != g.phase ==> match rolle_der_phase(phasenwechsel(g).phase) {
            Some(r) => hat_rolle(phasenwechsel(g), r),
            None => phasenwechsel(g).phase == Phase::Tag,
        },
{
    let s = stufe_der_phase(g.phase);
    if g.phase == Phase::Tag || g.phase == Phase::Spielbeginn {
        lemma_naechste_ab(g, 1);
    } else if 1 <= s <= 4 {
        lemma_naechste_ab(g, s + 1);
    }
}

/// From stage `k` on, the next phase is the first stage whose role is alive,
/// or the day when none is.
pub proof fn lemma_naechste_ab_genau(g: SpielModell, k: int)
    requires
        1 <= k <= 6,
    ensures
        naechste_ab(g, k) == Phase::Tag ==> forall|t: int|
            k <= t <= 5 ==> !hat_rolle(g, #[trigger] rolle_der_stufe(t)),
        naechste_ab(g, k) != Phase::Tag ==> {
            let t = stufe_der_phase(naechste_ab(g, k));
            &&& k <= t <= 5
            &&& naechste_ab(g, k) == phase_der_stufe(t)
            &&& hat_rolle(g, rolle_der_stufe(t))
            &&& forall|u: int| k <= u < t ==> !hat_rolle(g, #[trigger] rolle_der_stufe(u))
        },
    decreases 6 - k,
{
    if k <= 5 && !hat_rolle(g, rolle_der_stufe(k)) {
        lemma_naechste_ab_genau(g, k + 1);
    }
}

/// Law: from the day, the start of the game or a night phase before the
/// doctor's, a phase change enters the first later night phase (in the
/// order Amor, werewolves, seer, witch, doctor) whose role a living player
/// holds, skipping none such; it enters the day only when no later role is
/// alive. Nothing but the phase changes.
pub proof fn law_naechste_lebende_phase(g: SpielModell)
    requires
        g.phase == Phase::Tag || g.phase == Phase::Spielbeginn || 1 <= stufe_der_phase(g.phase) <= 4,
    ensures
        phasenwechsel(g) == (SpielModell { phase: phasenwechsel(g).phase, ..g }),
        phasenwechsel(g).phase == Phase::Tag ==> forall|t: int|
            stufe_der_phase(g.phase) < t <= 5 ==> !hat_rolle(g, #[trigger] rolle_der_stufe(t)),
        phasenwechsel(g).phase != Phase::Tag ==> {
            let t = stufe_der_phase(phasenwechsel(g).phase);
            &&& stufe_der_phase(g.phase) < t <= 5
            &&& phasenwechsel(g).phase == phase_der_stufe(t)
            &&& hat_rolle(g, rolle_der_stufe(t))
            &&& forall|u: int| stufe_der_phase(g.phase) < u < t ==> !hat_rolle(g, #[trigger] rolle_der_stufe(u))
        },
{
    lemma_naechste_ab_genau(g, stufe_der_phase(g.phase) + 1);
}

/// Law: the night order is kept. From the day, the start of the game or a
/// night phase the game moves on to a later night phase or to the day,
/// never back.
pub proof fn law_nachtordnung(g: SpielModell)
    requires
        g.phase == Phase::Tag || g.phase == Phase::Spielbeginn || 1 <= stufe_der_phase(g.phase) <= 5,
    ensures
        phasenwechsel(g).phase == Phase::Tag || stufe_der_phase(phasenwechsel(g).phase) > stufe_der_phase(
            g.phase,
        ),
{
    let s = stufe_der_phase(g.phase);
    if g.phase == Phase::Tag || g.phase == Phase::Spielbeginn {
        lemma_naechste_ab(g, 1);
    } else if s <= 4 {
        lemma_naechste_ab(g, s + 1);
    }
}

/// Law: a round is counted exactly when the doctor's phase ends, and only
/// the end of the night can kill anybody.
pub proof fn law_runden_und_tode(g: SpielModell)
    ensures
        phasenwechsel(g).runden == g.runden + if g.phase == Phase::DoktorPhase {
            1int
        } else {
            0int
        },
        g.phase != Phase::DoktorPhase ==> phasenwechsel(g).players == g.players,
{
    if g.phase == Phase::DoktorPhase {
        lemma_nacht_ende_nur_tode(g);
    }
}

pub proof fn lemma_angriff_nur_tode(g: SpielModell)
    ensures
        nur_tode(g, nach_angriff(g)),
{
    if let Some(o) = g.nacht_opfer {
        law_nur_tode(g, o);
    }
}

pub proof fn lemma_gift_nur_tode(g: SpielModell)
    ensures
        nur_tode(g, nach_gift(g)),
{
    if let Some(z) = g.hexe_opfer {
        law_nur_tode(g, z);
    }
}

/// The end of the night only kills.
pub proof fn lemma_nacht_ende_nur_tode(g: SpielModell)
    ensures
        nacht_ende(g).players.len() == g.players.len(),
        nacht_ende(g).runden == g.runden,
        forall|k: int|
            0 <= k < g.players.len() ==> (#[trigger] nacht_ende(g).players[k]).lebend ==> g.players[k].lebend,
        forall|k: int|
            0 <= k < g.players.len() ==> (#[trigger] nacht_ende(g).players[k]).name == g.players[k].name,
{
    let g1 = nach_angriff(g);
    let g2 = nach_gift(g1);
    lemma_angriff_nur_tode(g);
    lemma_gift_nur_tode(g1);
    assert forall|k: int| 0 <= k < g.players.len() implies ((#[trigger] nacht_ende(g).players[k]).lebend
        ==> g.players[k].lebend) && nacht_ende(g).players[k].name == g.players[k].name by {
        assert(g2.players[k] == g2.players[k]);
        assert(g1.players[k] == g1.players[k]);
    }
}

/// Law: at the end of the night the werewolves' victim is dead, unless the
/// witch healed or the doctor protected them.
pub proof fn law_ungeschuetztes_opfer_stirbt(g: SpielModell, opfer: Seq<char>)
    requires
        g.nacht_opfer == Some(opfer),
        g.geheilter_von_hexe != Some(opfer),
        g.geschuetzter_von_doktor != Some(opfer),
    ensures
        erster_treffer(g.players, mit_name(opfer)) matches Some(i) ==> !nacht_ende(g).players[i].lebend,
{
    let g1 = nach_angriff(g);
    law_spieler_ist_tot(g, opfer);
    lemma_gift_nur_tode(g1);
    if let Some(i) = erster_treffer(g.players, mit_name(opfer)) {
        law_nur_tode(g, opfer);
        lemma_bleibt_tot(g1, nach_gift(g1), i);
    }
}

/// Law: a night in which the werewolves' victim was healed or protected and
/// the witch poisoned nobody costs no life.
pub proof fn law_geschuetzte_nacht(g: SpielModell)
    requires
        g.hexe_opfer is None,
        g.nacht_opfer matches Some(o) ==> (g.geheilter_von_hexe == Some(o) || g.geschuetzter_von_doktor
            == Some(o)),
    ensures
        nacht_ende(g).players == g.players,
{
}

/// A phase change keeps the potions, Amor's and the priest's choices, the
/// votes, and who the players are.
pub proof fn lemma_phasenwechsel_erhaelt(g: SpielModell)
    ensures
        phasenwechsel(g).heiltrank_genutzt == g.heiltrank_genutzt,
        phasenwechsel(g).bereits_getoetet == g.bereits_getoetet,
        phasenwechsel(g).amor_hat_gewaehlt == g.amor_hat_gewaehlt,
        phasenwechsel(g).priester_hat_geworfen == g.priester_hat_geworfen,
        phasenwechsel(g).votes == g.votes,
        phasenwechsel(g).players.len() == g.players.len(),
        forall|k: int|
            0 <= k < g.players.len() ==> (#[trigger] phasenwechsel(g).players[k]).name == g.players[k].name
                && phasenwechsel(g).players[k].rolle == g.players[k].rolle && phasenwechsel(g).players[k].bereits_gesehen
                == g.players[k].bereits_gesehen,
{
    if g.phase == Phase::DoktorPhase {
        let g1 = nach_angriff(g);
        let g2 = nach_gift(g1);
        lemma_angriff_nur_tode(g);
        lemma_gift_nur_tode(g1);
        assert forall|k: int| 0 <= k < g.players.len() implies (#[trigger] phasenwechsel(g).players[k]).name
            == g.players[k].name && phasenwechsel(g).players[k].rolle == g.players[k].rolle && phasenwechsel(
            g,
        ).players[k].bereits_gesehen == g.players[k].bereits_gesehen by {
            assert(g2.players[k] == g2.players[k]);
            assert(g1.players[k] == g1.players[k]);
        }
    }
}

/// Law: the player the village lynches is dead afterwards.
pub proof fn law_gelynchter_ist_tot(g: SpielModell, name: Seq<char>)
    ensures
        erster_treffer(g.players, mit_name(name)) matches Some(i) ==> !lynchen(g, name).players[i].lebend,
{
    let g0 = SpielModell { tag_opfer: Some(name), ..g };
    let g1 = stirbt(g0, name);
    law_spieler_ist_tot(g0, name);
    law_nur_tode(g0, name);
    law_runden_und_tode(g1);
    lemma_treffer_passt(g.players, mit_name(name));
    if let Some(i) = erster_treffer(g.players, mit_name(name)) {
        assert(g0.players == g.players);
        if g1.phase == Phase::DoktorPhase {
            lemma_nacht_ende_nur_tode(g1);
            assert(!nacht_ende(g1).players[i].lebend);
        }
    }
}

impl Game {
    /// Ends the night (see `nacht_ende`).
    pub fn nacht_aufloesung(&mut self)
        ensures
            final(self)@ == nacht_ende(old(self)@),
    {
        self.angriff_wirkt();
        self.gift_wirkt();
        self.nacht_opfer = None;
        self.hexe_opfer = None;
        self.geheilter_von_hexe = None;
    }

    fn angriff_wirkt(&mut self)
        ensures
            final(self)@ == nach_angriff(old(self)@),
    {
        match &self.nacht_opfer {
            Some(o) => {
                let opfer = o.clone();
                let geheilt = match &self.geheilter_von_hexe {
                    Some(h) => *h == opfer,
                    None => false,
                };
                let geschuetzt = match &self.geschuetzter_von_doktor {
                    Some(d) => *d == opfer,
                    None => false,
                };
                if !geheilt && !geschuetzt {
                    self.spieler_stirbt(opfer.as_str());
                }
            },
            None => {},
        }
    }

    fn gift_wirkt(&mut self)
        ensures
            final(self)@ == nach_gift(old(self)@),
    {
        match &self.hexe_opfer {
            Some(z) => {
                let zusaetzliches_opfer = z.clone();
                let geschuetzt = match &self.geschuetzter_von_doktor {
                    Some(d) => *d == zusaetzliches_opfer,
                    None => false,
                };
                if !geschuetzt {
                    self.spieler_stirbt(zusaetzliches_opfer.as_str());
                }
            },
            None => {},
        }
    }

    /// Moves the game to its next phase (see `phasenwechsel`).
    pub fn phase_change(&mut self)
        requires
            kann_wechseln(old(self)@),
        ensures
            final(self)@ == phasenwechsel(old(self)@),
    {
        let ghost g = self@;
        proof {
            reveal_with_fuel(naechste_ab, 6);
        }
        if self.phase == Phase::Tag || self.phase == Phase::Spielbeginn {
            if self.has_role(Rolle::Amor) {
                self.phase = Phase::AmorPhase;
                return ;
            } else if self.has_role(Rolle::Werwolf) {
                self.phase = Phase::WerwoelfePhase;
                return ;
            } else if self.has_role(Rolle::Seher) {
                self.phase = Phase::SeherPhase;
                return ;
            } else if self.has_role(Rolle::Hexe) {
                self.phase = Phase::HexePhase;
                return ;
            } else if self.has_role(Rolle::Doktor) {
                self.phase = Phase::DoktorPhase;
                return ;
            } else {
                self.phase = Phase::Tag;
                return ;
            }
        }
        if let Phase::AmorPhase = self.phase {
            if self.has_role(Rolle::Werwolf) {
                self.phase = Phase::WerwoelfePhase;
                return ;
            } else if self.has_role(Rolle::Seher) {
                self.phase = Phase::SeherPhase;
                return ;
            } else if self.has_role(Rolle::Hexe) {
                self.phase = Phase::HexePhase;
                return ;
            } else if self.has_role(Rolle::Doktor) {
                self.phase = Phase::DoktorPhase;
                return ;
            } else {
                self.phase = Phase::Tag;
                return ;
            }
        }
        if let Phase::WerwoelfePhase = self.phase {
            if self.has_role(Rolle::Seher) {
                self.phase = Phase::SeherPhase;
                return ;
            } else if self.has_role(Rolle::Hexe) {
                self.phase = Phase::HexePhase;
                return ;
            } else if self.has_role(Rolle::Doktor) {
                self.phase = Phase::DoktorPhase;
                return ;
            } else {
                self.phase = Phase::Tag;
                return ;
            }
        }
        if let Phase::SeherPhase = self.phase {
            if self.has_role(Rolle::Hexe) {
                self.phase = Phase::HexePhase;
                return ;
            } else if self.has_role(Rolle::Doktor) {
                self.phase = Phase::DoktorPhase;
                return ;
            } else {
                self.phase = Phase::Tag;
                return ;
            }
        }
        if let Phase::HexePhase = self.phase {
            if self.has_role(Rolle::Doktor) {
                self.phase = Phase::DoktorPhase;
                return ;
            } else {
                self.phase = Phase::Tag;
                return ;
            }
        }
        if let Phase::DoktorPhase = self.phase {
            self.nacht_aufloesung();
            proof {
                lemma_nacht_ende_nur_tode(g);
            }
            self.phase = Phase::Tag;
            self.runden += 1;
            return ;
        }
    }

    /// The village lynches `name` (see `lynchen`).
    pub fn tag_lynchen(&mut self, name: &str)
        requires
            kann_wechseln(old(self)@),
        ensures
            final(self)@ == lynchen(old(self)@, name@),
    {
        let ghost g = self@;
        self.tag_opfer = Some(name.to_owned());
        let ghost g0 = self@;
        self.spieler_stirbt(name);
        proof {
            law_nur_tode(g0, name@);
        }
        self.phase_change();
    }
}

} // verus!
