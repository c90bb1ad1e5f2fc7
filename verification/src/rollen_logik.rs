use vstd::prelude::*;
use crate::rollen::{Rolle, Team};
use crate::spiel::{
    Game, HexenAktion, opt_text, Phase, SpielModell, SpielerModell, erster_treffer, finde, hat_rolle, ist_erster_treffer,
    kriterium, lemma_erster_treffer_eindeutig, lemma_treffer_passt, mit_name, mit_rolle,
};
use crate::phasen::{kann_wechseln, phasenwechsel};
use crate::tod::{law_nur_tode, stirbt};

verus! {

/// Why the werewolves cannot attack `victim` on behalf of `actor`, if they
/// cannot: it is not their phase, no werewolf lives, `actor` is no werewolf
/// or is dead, or the target is unknown, dead or `actor` themself.
pub open spec fn werwolf_fehler(g: SpielModell, actor: Seq<char>, victim: Seq<char>) -> Option<Seq<char>> {
    if g.phase != Phase::WerwoelfePhase {
        Some("Die Werwölfe sind gerade nicht dran."@)
    } else if !hat_rolle(g, Rolle::Werwolf) {
        Some("Es gibt keine lebenden Werwölfe mehr"@)
    } else {
        match erster_treffer(g.players, kriterium(Some(actor), Some(Rolle::Werwolf), false, false)) {
            None => Some("Du bist kein Werwolf."@),
            Some(w) => if !g.players[w].lebend {
                Some("Nur lebende Werwölfe dürfen wählen."@)
            } else {
                match erster_treffer(g.players, mit_name(victim)) {
                    None => Some("Zielperson existiert nicht."@),
                    Some(t) => if !g.players[t].lebend {
                        Some("Der Spieler ist bereits tot."@)
                    } else if actor == victim {
                        Some("Man kann sich nicht selbst wählen."@)
                    } else {
                        None
                    },
                }
            },
        }
    }
}

/// Why the seer cannot look at `target`, if she cannot.
pub open spec fn seher_fehler(g: SpielModell, target: Seq<char>) -> Option<Seq<char>> {
    if g.phase != Phase::SeherPhase {
        Some("Seher ist nicht dran."@)
    } else {
        match erster_treffer(g.players, mit_rolle(Rolle::Seher)) {
            None => Some("Kein Seher im Spiel"@),
            Some(s) => match erster_treffer(g.players, mit_name(target)) {
                None => Some("Ziel existiert nicht."@),
                Some(t) => if !g.players[t].lebend {
                    Some("Opfer lebt nicht mehr"@)
                } else if !g.players[s].lebend {
                    Some("Der Seher lebt nicht mehr und kann deswegen nicht mehr sehen."@)
                } else if g.players[s].bereits_gesehen {
                    Some("Der Seher hat bereits einmal diese Runde gesehen."@)
                } else {
                    None
                },
            },
        }
    }
}

/// Why the witch cannot do `aktion`, if she cannot.
pub open spec fn hexe_fehler(g: SpielModell, aktion: HexenAktion, actor: Seq<char>, extra_target: Seq<char>) -> Option<
    Seq<char>,
> {
    match erster_treffer(g.players, mit_rolle(Rolle::Hexe)) {
        None => Some("Es gibt keine Hexe im Spiel."@),
        Some(h) => if !g.players[h].lebend {
            Some("Du bist aus dem Spiel schon raus."@)
        } else {
            match aktion {
                HexenAktion::Heilen => if g.heiltrank_genutzt {
                    Some("Hexe hat ihren Heiltrank bereits einmal benutzt."@)
                } else if g.nacht_opfer is None {
                    Some("Es gibt kein Opfer."@)
                } else {
                    None
                },
                HexenAktion::Vergiften => if g.bereits_getoetet {
                    Some("Die Hexe darf nur einmal im Spiel jemanden vergiften."@)
                } else {
                    match erster_treffer(g.players, mit_name(extra_target)) {
                        None => Some("Opfer konnte nicht gefunden werden"@),
                        Some(t) => if !g.players[t].lebend {
                            Some("Das Opfer ist bereits tot."@)
                        } else if extra_target == actor {
                            Some("Du kannst dich nicht selber vergiften."@)
                        } else {
                            None
                        },
                    }
                },
                HexenAktion::NichtsTun => None,
            }
        },
    }
}

/// What the witch's action does: healing saves tonight's victim and uses up
/// the healing potion, poisoning marks `extra_target` and uses up the
/// poison; then the next phase begins.
pub open spec fn hexe_wirkt(g: SpielModell, aktion: HexenAktion, extra_target: Seq<char>) -> SpielModell {
    phasenwechsel(
        match aktion {
            HexenAktion::Heilen => SpielModell {
                heiltrank_genutzt: true,
                geheilter_von_hexe: g.nacht_opfer,
                ..g
            },
            HexenAktion::Vergiften => SpielModell {
                hexe_opfer: Some(extra_target),
                bereits_getoetet: true,
                ..g
            },
            HexenAktion::NichtsTun => g,
        },
    )
}

/// Why Amor cannot make `target_1` and `target_2` lovers, if he cannot.
pub open spec fn amor_fehler(g: SpielModell, target_1: Seq<char>, target_2: Seq<char>) -> Option<Seq<char>> {
    if g.amor_hat_gewaehlt {
        Some("Amor kann nur einmal wählen."@)
    } else if g.phase != Phase::AmorPhase {
        Some("Amor ist gerade nicht dran."@)
    } else if target_1 == target_2 {
        Some("Die Liebenden müssen zwei verschiedene Personen sein."@)
    } else {
        match erster_treffer(g.players, mit_name(target_1)) {
            None => Some("Spieler existiert nicht"@),
            Some(i) => match erster_treffer(g.players, mit_name(target_2)) {
                None => Some("Spieler existiert nicht."@),
                Some(j) => if !g.players[i].lebend || !g.players[j].lebend {
                    Some("Beide Liebenden müssen am Leben sein."@)
                } else {
                    None
                },
            },
        }
    }
}

/// The couple that Amor forms: both join the lovers' team, the couple is
/// recorded and active, Amor has made his choice, the next phase begins.
pub open spec fn amor_verbindet(g: SpielModell, target_1: Seq<char>, target_2: Seq<char>) -> SpielModell {
    let i = erster_treffer(g.players, mit_name(target_1))->0;
    let j = erster_treffer(g.players, mit_name(target_2))->0;
    let ps = g.players.update(i, SpielerModell { team: Team::TeamLiebende, ..g.players[i] });
    let ps2 = ps.update(j, SpielerModell { team: Team::TeamLiebende, ..ps[j] });
    phasenwechsel(
        SpielModell {
            players: ps2,
            liebender_1: Some(target_1),
            liebender_2: Some(target_2),
            liebende_aktiv: true,
            amor_hat_gewaehlt: true,
            ..g
        },
    )
}

/// Why the doctor cannot protect `name`, if he cannot.
pub open spec fn doktor_fehler(g: SpielModell, name: Seq<char>) -> Option<Seq<char>> {
    match erster_treffer(g.players, mit_rolle(Rolle::Doktor)) {
        None => Some("Es gibt keinen Doktor (mehr) im Spiel."@),
        Some(d) => if !g.players[d].lebend {
            Some("Der Doktor ist nicht mehr am Leben."@)
        } else {
            match erster_treffer(g.players, mit_name(name)) {
                None => Some("Die Person existiert nicht."@),
                Some(t) => if !g.players[t].lebend {
                    Some("Der Schützling muss am Leben sein"@)
                } else {
                    None
                },
            }
        },
    }
}

/// The first living priest.
pub open spec fn lebender_priester(g: SpielModell) -> Option<int> {
    erster_treffer(g.players, kriterium(None, Some(Rolle::Priester), true, false))
}

/// Why the priest cannot throw holy water at `target`, if he cannot.
pub open spec fn priester_fehler(g: SpielModell, target: Option<Seq<char>>) -> Option<Seq<char>> {
    if g.phase != Phase::PriesterPhase {
        Some("Der Priester ist gerade nicht dran."@)
    } else {
        match lebender_priester(g) {
            None => Some("Es gibt keinen lebenden Priester."@),
            Some(p) => if g.priester_hat_geworfen {
                Some("Der Priester hat bereits heiliges Wasser geworfen."@)
            } else {
                match target {
                    None => None,
                    Some(z) => match erster_treffer(g.players, mit_name(z)) {
                        None => Some("Ziel existiert nicht."@),
                        Some(t) => if !g.players[t].lebend {
                            Some("Das Ziel ist bereits tot."@)
                        } else if g.players[p].name == z {
                            Some("Der Priester kann sich nicht selbst mit heiligen Wasser bewerfen."@)
                        } else {
                            None
                        },
                    },
                }
            },
        }
    }
}

/// The priest's throw: holy water kills a werewolf (whatever team love has
/// put them in); hitting anybody else kills `actor`, the thrower. Either way
/// the water is used up.
pub open spec fn priester_wurf(g: SpielModell, actor: Seq<char>, target: Option<Seq<char>>) -> SpielModell {
    let g1 = match target {
        None => g,
        Some(z) => if g.players[erster_treffer(g.players, mit_name(z))->0].rolle == Rolle::Werwolf {
            stirbt(g, z)
        } else {
            stirbt(g, actor)
        },
    };
    SpielModell { priester_hat_geworfen: true, ..g1 }
}

/// Law: Amor chooses the lovers once; any later choice is refused.
pub proof fn law_amor_nur_einmal(g: SpielModell, t1: Seq<char>, t2: Seq<char>, t3: Seq<char>, t4: Seq<char>)
    requires
        amor_fehler(g, t1, t2) is None,
    ensures
        amor_fehler(amor_verbindet(g, t1, t2), t3, t4) == Some("Amor kann nur einmal wählen."@),
{
    let i = erster_treffer(g.players, mit_name(t1))->0;
    let j = erster_treffer(g.players, mit_name(t2))->0;
    let ps = g.players.update(i, SpielerModell { team: Team::TeamLiebende, ..g.players[i] });
    let ps2 = ps.update(j, SpielerModell { team: Team::TeamLiebende, ..ps[j] });
    crate::phasen::lemma_phasenwechsel_erhaelt(
        SpielModell {
            players: ps2,
            liebender_1: Some(t1),
            liebender_2: Some(t2),
            liebende_aktiv: true,
            amor_hat_gewaehlt: true,
            ..g
        },
    );
}

/// Law: the healing potion works once per game. Healing marks it as used,
/// and in every game where it is marked as used and the witch lives, a
/// healing is refused with "Hexe hat ihren Heiltrank bereits einmal
/// benutzt." (a refused action changes nothing and asks nothing of the round counter,
/// see `hexe_arbeitet`).
pub proof fn law_heiltrank_einmal(
    g: SpielModell,
    actor: Seq<char>,
    x: Seq<char>,
    h: SpielModell,
    actor2: Seq<char>,
    x2: Seq<char>,
)
    requires
        hexe_fehler(g, HexenAktion::Heilen, actor, x) is None,
        h.heiltrank_genutzt,
        erster_treffer(h.players, mit_rolle(Rolle::Hexe)) matches Some(i) && h.players[i].lebend,
    ensures
        hexe_wirkt(g, HexenAktion::Heilen, x).heiltrank_genutzt,
        hexe_fehler(h, HexenAktion::Heilen, actor2, x2) == Some(
            "Hexe hat ihren Heiltrank bereits einmal benutzt."@,
        ),
{
    crate::phasen::lemma_phasenwechsel_erhaelt(
        SpielModell { heiltrank_genutzt: true, geheilter_von_hexe: g.nacht_opfer, ..g },
    );
}

/// Law: the poison works once per game. Poisoning marks it as used, and in
/// every game where it is marked as used and the witch lives, a poisoning
/// is refused with "Die Hexe darf nur einmal im Spiel jemanden vergiften."
/// (a refused action changes nothing and asks nothing of the round counter,
/// see `hexe_arbeitet`).
pub proof fn law_gift_einmal(
    g: SpielModell,
    actor: Seq<char>,
    x: Seq<char>,
    h: SpielModell,
    actor2: Seq<char>,
    x2: Seq<char>,
)
    requires
        hexe_fehler(g, HexenAktion::Vergiften, actor, x) is None,
        h.bereits_getoetet,
        erster_treffer(h.players, mit_rolle(Rolle::Hexe)) matches Some(i) && h.players[i].lebend,
    ensures
        hexe_wirkt(g, HexenAktion::Vergiften, x).bereits_getoetet,
        hexe_fehler(h, HexenAktion::Vergiften, actor2, x2) == Some(
            "Die Hexe darf nur einmal im Spiel jemanden vergiften."@,
        ),
{
    crate::phasen::lemma_phasenwechsel_erhaelt(SpielModell { hexe_opfer: Some(x), bereits_getoetet: true, ..g });
}

/// Law: the seer looks once; as long as the players are as her look left
/// them, every further look is refused.
pub proof fn law_seher_einmal(g: SpielModell, t: Seq<char>, h: SpielModell, t2: Seq<char>)
    requires
        seher_fehler(g, t) is None,
        h.players == ({
            let s = erster_treffer(g.players, mit_rolle(Rolle::Seher))->0;
            SpielModell {
                players: g.players.update(s, SpielerModell { bereits_gesehen: true, ..g.players[s] }),
                ..g
            }
        }).players,
    ensures
        seher_fehler(h, t2) is Some,
{
    let s = erster_treffer(g.players, mit_rolle(Rolle::Seher))->0;
    lemma_treffer_passt(g.players, mit_rolle(Rolle::Seher));
    let p = mit_rolle(Rolle::Seher);
    assert(ist_erster_treffer(h.players, p, s)) by {
        assert forall|j: int| 0 <= j < s implies !p(#[trigger] h.players[j]) by {
            assert(h.players[j] == g.players[j]);
        }
    }
    lemma_erster_treffer_eindeutig(h.players, p, s);
}

/// Law: the priest throws once; every further throw is refused.
pub proof fn law_priester_einmal(g: SpielModell, actor: Seq<char>, ziel: Option<Seq<char>>, ziel2: Option<Seq<char>>)
    requires
        priester_fehler(g, ziel) is None,
    ensures
        priester_fehler(priester_wurf(g, actor, ziel), ziel2) is Some,
{
    if let Some(z) = ziel {
        law_nur_tode(g, z);
        law_nur_tode(g, actor);
    }
}

/// Law: holy water on a werewolf kills the werewolf.
pub proof fn law_weihwasser_trifft_werwolf(g: SpielModell, actor: Seq<char>, z: Seq<char>)
    requires
        priester_fehler(g, Some(z)) is None,
        g.players[erster_treffer(g.players, mit_name(z))->0].rolle == Rolle::Werwolf,
    ensures
        !priester_wurf(g, actor, Some(z)).players[erster_treffer(g.players, mit_name(z))->0].lebend,
{
    crate::tod::law_spieler_ist_tot(g, z);
}

/// Law: holy water on anybody who is no werewolf kills the thrower.
pub proof fn law_weihwasser_trifft_werfer(g: SpielModell, actor: Seq<char>, z: Seq<char>)
    requires
        priester_fehler(g, Some(z)) is None,
        g.players[erster_treffer(g.players, mit_name(z))->0].rolle != Rolle::Werwolf,
    ensures
        erster_treffer(g.players, mit_name(actor)) matches Some(a) ==> !priester_wurf(g, actor, Some(z)).players[a].lebend,
{
    crate::tod::law_spieler_ist_tot(g, actor);
}

impl Game {
    /// The werewolves choose `victim` as tonight's victim, voiced by `actor`;
    /// the next phase begins. Refused, with nothing changed, for the reasons
    /// of `werwolf_fehler`.
    pub fn werwolf_toetet(&mut self, actor_name: &str, victim_name: &str) -> (r: Result<(), String>)
        ensures
            match werwolf_fehler(old(self)@, actor_name@, victim_name@) {
                Some(m) => r matches Err(e) && e@ == m && final(self)@ == old(self)@,
                None => r is Ok && final(self)@ == phasenwechsel(
                    SpielModell { nacht_opfer: Some(victim_name@), ..old(self)@ },
                ),
            },
    {
        let ghost g = self@;
        if self.phase != Phase::WerwoelfePhase {
            return Err("Die Werwölfe sind gerade nicht dran.".to_owned());
        }
        if !self.has_role(Rolle::Werwolf) {
            return Err("Es gibt keine lebenden Werwölfe mehr".to_owned());
        }
        let actor = actor_name.to_owned();
        let victim = victim_name.to_owned();
        let w = match finde(&self.players, Some(&actor), Some(Rolle::Werwolf), false, false) {
            Some(w) => w,
            None => {
                return Err("Du bist kein Werwolf.".to_owned());
            },
        };
        proof {
            lemma_treffer_passt(g.players, kriterium(Some(actor@), Some(Rolle::Werwolf), false, false));
        }
        if !self.players[w].lebend {
            return Err("Nur lebende Werwölfe dürfen wählen.".to_owned());
        }
        let t = match finde(&self.players, Some(&victim), None, false, false) {
            Some(t) => t,
            None => {
                return Err("Zielperson existiert nicht.".to_owned());
            },
        };
        proof {
            lemma_treffer_passt(g.players, mit_name(victim@));
        }
        if !self.players[t].lebend {
            return Err("Der Spieler ist bereits tot.".to_owned());
        }
        if actor == victim {
            return Err("Man kann sich nicht selbst wählen.".to_owned());
        }
        self.nacht_opfer = Some(victim);
        self.phase_change();
        Ok(())
    }

    /// The seer looks at `target_name` and learns their role; she cannot
    /// look again, and the next phase begins. Refused, with nothing changed,
    /// for the reasons of `seher_fehler`.
    pub fn seher_schaut(&mut self, target_name: &str) -> (r: Result<Rolle, String>)
        ensures
            match seher_fehler(old(self)@, target_name@) {
                Some(m) => r matches Err(e) && e@ == m && final(self)@ == old(self)@,
                None => {
                    let s = erster_treffer(old(self)@.players, mit_rolle(Rolle::Seher))->0;
                    let t = erster_treffer(old(self)@.players, mit_name(target_name@))->0;
                    &&& r == Ok::<Rolle, String>(old(self)@.players[t].rolle)
                    &&& final(self)@ == phasenwechsel(
                        SpielModell {
                            players: old(self)@.players.update(
                                s,
                                SpielerModell { bereits_gesehen: true, ..old(self)@.players[s] },
                            ),
                            ..old(self)@
                        },
                    )
                },
            },
    {
        let ghost g = self@;
        if self.phase != Phase::SeherPhase {
            return Err("Seher ist nicht dran.".to_owned());
        }
        let seher_index = match finde(&self.players, None, Some(Rolle::Seher), false, false) {
            Some(s) => s,
            None => {
                return Err("Kein Seher im Spiel".to_owned());
            },
        };
        let ziel = target_name.to_owned();
        let target_index = match finde(&self.players, Some(&ziel), None, false, false) {
            Some(t) => t,
            None => {
                return Err("Ziel existiert nicht.".to_owned());
            },
        };
        proof {
            lemma_treffer_passt(g.players, mit_rolle(Rolle::Seher));
            lemma_treffer_passt(g.players, mit_name(ziel@));
        }
        let target_rolle = self.players[target_index].rolle;
        let target_lebend = self.players[target_index].lebend;
        if !target_lebend {
            return Err("Opfer lebt nicht mehr".to_owned());
        }
        if !self.players[seher_index].lebend {
            return Err("Der Seher lebt nicht mehr und kann deswegen nicht mehr sehen.".to_owned());
        }
        if self.players[seher_index].bereits_gesehen {
            return Err("Der Seher hat bereits einmal diese Runde gesehen.".to_owned());
        }
        self.players[seher_index].bereits_gesehen = true;
        proof {
            assert(self@.players =~= g.players.update(
                seher_index as int,
                SpielerModell { bereits_gesehen: true, ..g.players[seher_index as int] },
            ));
        }
        self.phase_change();
        Ok(target_rolle)
    }

    /// Why the witch cannot do `aktion` now, if she cannot (see
    /// `hexe_fehler`).
    pub fn hexe_pruefen(&self, aktion: HexenAktion, actor_name: &str, extra_target: &str) -> (r: Option<String>)
        ensures
            opt_text(r) == hexe_fehler(self@, aktion, actor_name@, extra_target@),
    {
        let ghost g = self@;
        let h = match finde(&self.players, None, Some(Rolle::Hexe), false, false) {
            Some(h) => h,
            None => {
                return Some("Es gibt keine Hexe im Spiel.".to_owned());
            },
        };
        proof {
            lemma_treffer_passt(g.players, mit_rolle(Rolle::Hexe));
        }
        if !self.players[h].lebend {
            return Some("Du bist aus dem Spiel schon raus.".to_owned());
        }
        match aktion {
            HexenAktion::Heilen => {
                if self.heiltrank_genutzt {
                    return Some("Hexe hat ihren Heiltrank bereits einmal benutzt.".to_owned());
                }
                if self.nacht_opfer.is_none() {
                    return Some("Es gibt kein Opfer.".to_owned());
                }
                None
            },
            HexenAktion::Vergiften => {
                if self.bereits_getoetet {
                    return Some("Die Hexe darf nur einmal im Spiel jemanden vergiften.".to_owned());
                }
                let ziel = extra_target.to_owned();
                let t = match finde(&self.players, Some(&ziel), None, false, false) {
                    Some(t) => t,
                    None => {
                        return Some("Opfer konnte nicht gefunden werden".to_owned());
                    },
                };
                proof {
                    lemma_treffer_passt(g.players, mit_name(ziel@));
                }
                if !self.players[t].lebend {
                    return Some("Das Opfer ist bereits tot.".to_owned());
                }
                if ziel == actor_name.to_owned() {
                    return Some("Du kannst dich nicht selber vergiften.".to_owned());
                }
                None
            },
            HexenAktion::NichtsTun => None,
        }
    }

    /// The witch heals, poisons or does nothing (see `hexe_wirkt`). Refused,
    /// with nothing changed, for the reasons of `hexe_fehler`. Only an action
    /// that is carried out moves the game on, so only then must the round
    /// counter be able to count a new round.
    pub fn hexe_arbeitet(&mut self, aktion: HexenAktion, actor_name: &str, extra_target: &str) -> (r: Result<
        (),
        String,
    >)
        requires
            hexe_fehler(old(self)@, aktion, actor_name@, extra_target@) is None ==> kann_wechseln(old(self)@),
        ensures
            match hexe_fehler(old(self)@, aktion, actor_name@, extra_target@) {
                Some(m) => r matches Err(e) && e@ == m && final(self)@ == old(self)@,
                None => r is Ok && final(self)@ == hexe_wirkt(old(self)@, aktion, extra_target@),
            },
    {
        match self.hexe_pruefen(aktion, actor_name, extra_target) {
            Some(m) => {
                return Err(m);
            },
            None => {},
        }
        match aktion {
            HexenAktion::Heilen => {
                self.heiltrank_genutzt = true;
                self.geheilter_von_hexe = self.nacht_opfer.clone();
                self.phase_change();
                Ok(())
            },
            HexenAktion::Vergiften => {
                self.hexe_opfer = Some(extra_target.to_owned());
                self.bereits_getoetet = true;
                self.phase_change();
                Ok(())
            },
            HexenAktion::NichtsTun => {
                self.phase_change();
                Ok(())
            },
        }
    }

    /// Amor makes `target_1` and `target_2` lovers (see `amor_verbindet`).
    /// Refused, with nothing changed, for the reasons of `amor_fehler`.
    pub fn amor_waehlt(&mut self, target_1: &str, target_2: &str) -> (r: Result<(), String>)
        ensures
            match amor_fehler(old(self)@, target_1@, target_2@) {
                Some(m) => r matches Err(e) && e@ == m && final(self)@ == old(self)@,
                None => r is Ok && final(self)@ == amor_verbindet(old(self)@, target_1@, target_2@),
            },
    {
        let ghost g = self@;
        if self.amor_hat_gewaehlt {
            return Err("Amor kann nur einmal wählen.".to_owned());
        }
        if self.phase != Phase::AmorPhase {
            return Err("Amor ist gerade nicht dran.".to_owned());
        }
        let erster = target_1.to_owned();
        let zweiter = target_2.to_owned();
        if erster == zweiter {
            return Err("Die Liebenden müssen zwei verschiedene Personen sein.".to_owned());
        }
        let index1 = match finde(&self.players, Some(&erster), None, false, false) {
            Some(i) => i,
            None => {
                return Err("Spieler existiert nicht".to_owned());
            },
        };
        let index2 = match finde(&self.players, Some(&zweiter), None, false, false) {
            Some(i) => i,
            None => {
                return Err("Spieler existiert nicht.".to_owned());
            },
        };
        proof {
            lemma_treffer_passt(g.players, mit_name(erster@));
            lemma_treffer_passt(g.players, mit_name(zweiter@));
        }
        if !self.players[index1].lebend || !self.players[index2].lebend {
            return Err("Beide Liebenden müssen am Leben sein.".to_owned());
        }
        self.players[index1].team = Team::TeamLiebende;
        self.players[index2].team = Team::TeamLiebende;
        proof {
            let ps = g.players.update(index1 as int, SpielerModell { team: Team::TeamLiebende, ..g.players[index1 as int] });
            let ps2 = ps.update(index2 as int, SpielerModell { team: Team::TeamLiebende, ..ps[index2 as int] });
            assert(self@.players =~= ps2);
        }
        self.liebender_1 = Some(erster);
        self.liebender_2 = Some(zweiter);
        self.liebende_aktiv = true;
        self.amor_hat_gewaehlt = true;
        self.phase_change();
        Ok(())
    }

    /// Why the doctor cannot protect `geschuetzter_name` now, if he cannot
    /// (see `doktor_fehler`).
    pub fn doktor_pruefen(&self, geschuetzter_name: &str) -> (r: Option<String>)
        ensures
            opt_text(r) == doktor_fehler(self@, geschuetzter_name@),
    {
        let ghost g = self@;
        let d = match finde(&self.players, None, Some(Rolle::Doktor), false, false) {
            Some(d) => d,
            None => {
                return Some("Es gibt keinen Doktor (mehr) im Spiel.".to_owned());
            },
        };
        proof {
            lemma_treffer_passt(g.players, mit_rolle(Rolle::Doktor));
        }
        if !self.players[d].lebend {
            return Some("Der Doktor ist nicht mehr am Leben.".to_owned());
        }
        let name = geschuetzter_name.to_owned();
        let t = match finde(&self.players, Some(&name), None, false, false) {
            Some(t) => t,
            None => {
                return Some("Die Person existiert nicht.".to_owned());
            },
        };
        proof {
            lemma_treffer_passt(g.players, mit_name(name@));
        }
        if !self.players[t].lebend {
            return Some("Der Schützling muss am Leben sein".to_owned());
        }
        None
    }

    /// The doctor protects `geschuetzter_name` for the night; the next phase
    /// begins. Refused, with nothing changed, for the reasons of
    /// `doktor_fehler`. Only a protection that is given moves the game on, so
    /// only then must the round counter be able to count a new round.
    pub fn doktor_schuetzt(&mut self, geschuetzter_name: &str) -> (r: Result<(), String>)
        requires
            doktor_fehler(old(self)@, geschuetzter_name@) is None ==> kann_wechseln(old(self)@),
        ensures
            match doktor_fehler(old(self)@, geschuetzter_name@) {
                Some(m) => r matches Err(e) && e@ == m && final(self)@ == old(self)@,
                None => r is Ok && final(self)@ == phasenwechsel(
                    SpielModell { geschuetzter_von_doktor: Some(geschuetzter_name@), ..old(self)@ },
                ),
            },
    {
        match self.doktor_pruefen(geschuetzter_name) {
            Some(m) => {
                return Err(m);
            },
            None => {},
        }
        self.geschuetzter_von_doktor = Some(geschuetzter_name.to_owned());
        self.phase_change();
        Ok(())
    }

    /// The priest throws holy water at `target_name`, or at nobody (see
    /// `priester_wurf`). Refused, with nothing changed, for the reasons of
    /// `priester_fehler`.
    pub fn priester_wirft(&mut self, actor_name: &str, target_name: Option<&str>) -> (r: Result<(), String>)
        ensures
            ({
                let ziel = match target_name {
                    Some(z) => Some(z@),
                    None => None,
                };
                match priester_fehler(old(self)@, ziel) {
                    Some(m) => r matches Err(e) && e@ == m && final(self)@ == old(self)@,
                    None => r is Ok && final(self)@ == priester_wurf(old(self)@, actor_name@, ziel),
                }
            }),
    {
        let ghost g = self@;
        if self.phase != Phase::PriesterPhase {
            return Err("Der Priester ist gerade nicht dran.".to_owned());
        }
        let priester_index = match finde(&self.players, None, Some(Rolle::Priester), true, false) {
            Some(p) => p,
            None => {
                return Err("Es gibt keinen lebenden Priester.".to_owned());
            },
        };
        proof {
            lemma_treffer_passt(g.players, kriterium(None, Some(Rolle::Priester), true, false));
        }
        if self.priester_hat_geworfen {
            return Err("Der Priester hat bereits heiliges Wasser geworfen.".to_owned());
        }
        match target_name {
            Some(z) => {
                let ziel = z.to_owned();
                let ziel_index = match finde(&self.players, Some(&ziel), None, false, false) {
                    Some(t) => t,
                    None => {
                        return Err("Ziel existiert nicht.".to_owned());
                    },
                };
                proof {
                    lemma_treffer_passt(g.players, mit_name(ziel@));
                }
                if !self.players[ziel_index].lebend {
                    return Err("Das Ziel ist bereits tot.".to_owned());
                }
                if self.players[priester_index].name == ziel {
                    return Err("Der Priester kann sich nicht selbst mit heiligen Wasser bewerfen.".to_owned());
                }
                let ziel_rolle = self.players[ziel_index].rolle;
                if ziel_rolle == Rolle::Werwolf {
                    self.spieler_stirbt(z);
                } else {
                    self.spieler_stirbt(actor_name);
                }
            },
            None => {},
        }
        proof {
            let ziel = match target_name {
                Some(z) => Some(z@),
                None => None,
            };
            let g1 = match ziel {
                None => g,
                Some(z) => if g.players[erster_treffer(g.players, mit_name(z))->0].rolle == Rolle::Werwolf {
                    stirbt(g, z)
                } else {
                    stirbt(g, actor_name@)
                },
            };
            if let Some(z) = ziel {
                law_nur_tode(g, z);
                law_nur_tode(g, actor_name@);
            }
            assert(self@ == g1);
        }
        self.priester_hat_geworfen = true;
        self.phase_change();
        Ok(())
    }
}

} // verus!
