use vstd::prelude::*;
use crate::rollen::Rolle;
use crate::spiel::{
    Game, Phase, SpielModell, SpielerModell, StimmenModell, erster_treffer, finde, kriterium,
    lemma_treffer_existiert, lemma_treffer_passt, mit_name, stimmen_text, texte,
};
use crate::phasen::{kann_wechseln, lynchen, phasenwechsel, rolle_der_phase};
use crate::rollen_logik::werwolf_fehler;

verus! {

/// What a finished vote decides: a lynching by the village, or the
/// werewolves' victim.
#[derive(Debug, Clone, Copy, PartialEq, Eq, Structural)]
pub enum ActionKind {
    DorfLyncht,
    WerwolfFrisst,
}

/// Whether `p` votes in `phase`: a living player, any by day, at night only
/// those with the role of the phase, and nobody before the game begins.
pub open spec fn darf_abstimmen(p: SpielerModell, phase: Phase) -> bool {
    p.lebend && match phase {
        Phase::Spielbeginn => false,
        Phase::Tag => true,
        Phase::WerwoelfePhase => p.rolle == Rolle::Werwolf,
        Phase::SeherPhase => p.rolle == Rolle::Seher,
        Phase::HexePhase => p.rolle == Rolle::Hexe,
        Phase::AmorPhase => p.rolle == Rolle::Amor,
        Phase::PriesterPhase => p.rolle == Rolle::Priester,
        Phase::DoktorPhase => p.rolle == Rolle::Doktor,
    }
}

/// The names of the players who vote in `phase`, in order.
pub open spec fn berechtigte(ps: Seq<SpielerModell>, phase: Phase) -> Seq<Seq<char>>
    decreases ps.len(),
{
    if ps.len() == 0 {
        Seq::empty()
    } else {
        let r = berechtigte(ps.drop_last(), phase);
        if darf_abstimmen(ps.last(), phase) {
            r.push(ps.last().name)
        } else {
            r
        }
    }
}

/// `k` is the first entry of the votes for `target`.
pub open spec fn ist_erster_eintrag(votes: StimmenModell, target: Seq<char>, k: int) -> bool {
    &&& 0 <= k < votes.len()
    &&& votes[k].0 == target
    &&& forall|j: int| 0 <= j < k ==> (#[trigger] votes[j]).0 != target
}

/// The entry of the votes for `target`, if there is one.
pub open spec fn erster_eintrag(votes: StimmenModell, target: Seq<char>) -> Option<int> {
    if exists|k: int| ist_erster_eintrag(votes, target, k) {
        Some(choose|k: int| ist_erster_eintrag(votes, target, k))
    } else {
        None
    }
}

/// `actor`'s vote for `target` added to `votes`.
pub open spec fn stimme_eintragen(votes: StimmenModell, target: Seq<char>, actor: Seq<char>) -> StimmenModell {
    match erster_eintrag(votes, target) {
        Some(k) => votes.update(k, (votes[k].0, votes[k].1.push(actor))),
        None => votes.push((target, seq![actor])),
    }
}

/// Every player named in `namen` has voted (as far as the first player of
/// each name tells).
pub open spec fn alle_abgestimmt(ps: Seq<SpielerModell>, namen: Seq<Seq<char>>) -> bool {
    forall|k: int|
        0 <= k < namen.len() ==> (erster_treffer(ps, mit_name(#[trigger] namen[k])) matches Some(j)
            && ps[j].has_voted)
}

/// The most votes that anybody received.
pub open spec fn hoechste_stimmen(votes: StimmenModell) -> nat
    decreases votes.len(),
{
    if votes.len() == 0 {
        0
    } else {
        let m = hoechste_stimmen(votes.drop_last());
        if votes.last().1.len() > m {
            votes.last().1.len()
        } else {
            m
        }
    }
}

/// Those who received exactly `max` votes, in the order of the votes.
pub open spec fn spitzenreiter(votes: StimmenModell, max: nat) -> Seq<Seq<char>>
    decreases votes.len(),
{
    if votes.len() == 0 {
        Seq::empty()
    } else {
        let r = spitzenreiter(votes.drop_last(), max);
        if votes.last().1.len() == max {
            r.push(votes.last().0)
        } else {
            r
        }
    }
}

/// The players, with the vote of everybody named in `namen` taken back.
pub open spec fn stimmen_zurueck(ps: Seq<SpielerModell>, namen: Seq<Seq<char>>) -> Seq<SpielerModell> {
    ps.map_values(
        |p: SpielerModell|
            if namen.contains(p.name) {
                SpielerModell { has_voted: false, ..p }
            } else {
                p
            },
    )
}

/// Why a vote of `actor` for `target` is refused, if it is: `target` is
/// nobody, `actor` has voted already, or `actor` is not a living player.
pub open spec fn abstimmung_fehler(g: SpielModell, actor: Seq<char>, target: Seq<char>) -> Option<Seq<char>> {
    if erster_treffer(g.players, mit_name(target)) is None {
        Some("Spieler nicht gefunden oder nicht lebendig"@)
    } else if erster_treffer(g.players, kriterium(Some(actor), None, false, true)) is Some {
        Some("Du hast schon abgestimmt"@)
    } else if erster_treffer(g.players, kriterium(Some(actor), None, true, false)) is None {
        Some("Spieler nicht gefunden oder nicht lebendig"@)
    } else {
        None
    }
}

/// The game once `actor`'s vote for `target` is counted: `actor` has voted,
/// the vote is recorded and shown, and the voters of the phase are listed.
pub open spec fn stimme_gezaehlt(g: SpielModell, actor: Seq<char>, target: Seq<char>) -> SpielModell {
    let a = erster_treffer(g.players, kriterium(Some(actor), None, true, false))->0;
    let ps = g.players.update(a, SpielerModell { has_voted: true, ..g.players[a] });
    let votes = stimme_eintragen(g.votes, target, actor);
    SpielModell {
        players: ps,
        votes,
        ongoing_vote: true,
        eligible_players: berechtigte(ps, g.phase),
        current_votes: votes,
        ..g
    }
}

/// What a decided vote does: the village lynches the chosen player, or the
/// werewolves attack them, voiced by the last voter.
pub open spec fn entscheidung(g: SpielModell, actor: Seq<char>, gewaehlt: Seq<char>, action: ActionKind) -> SpielModell {
    match action {
        ActionKind::DorfLyncht => lynchen(g, gewaehlt),
        ActionKind::WerwolfFrisst => match werwolf_fehler(g, actor, gewaehlt) {
            Some(_) => g,
            None => phasenwechsel(SpielModell { nacht_opfer: Some(gewaehlt), ..g }),
        },
    }
}

/// The leaders of a tied vote, each with no votes yet.
pub open spec fn ohne_stimmen(kandidaten: Seq<Seq<char>>) -> StimmenModell {
    Seq::new(kandidaten.len(), |i: int| (kandidaten[i], Seq::<Seq<char>>::empty()))
}

/// A vote of `actor` for `target`, counted. Once every voter of the phase
/// has voted, a tie starts the vote again among the leaders, and a single
/// leader is chosen: the decision is carried out and the vote closed.
pub open spec fn abstimmung(g: SpielModell, actor: Seq<char>, target: Seq<char>, action: ActionKind) -> SpielModell {
    let g1 = stimme_gezaehlt(g, actor, target);
    let namen = g1.eligible_players;
    if !alle_abgestimmt(g1.players, namen) {
        g1
    } else {
        let kandidaten = spitzenreiter(g1.votes, hoechste_stimmen(g1.votes));
        if kandidaten.len() > 1 {
            SpielModell {
                votes: Seq::empty(),
                players: stimmen_zurueck(g1.players, namen),
                current_votes: ohne_stimmen(kandidaten),
                ..g1
            }
        } else if kandidaten.len() == 1 {
            let g2 = entscheidung(g1, actor, kandidaten[0], action);
            SpielModell {
                votes: Seq::empty(),
                players: stimmen_zurueck(g2.players, namen),
                current_votes: Seq::empty(),
                ongoing_vote: false,
                ..g2
            }
        } else {
            g1
        }
    }
}

pub proof fn lemma_erster_eintrag_eindeutig(votes: StimmenModell, target: Seq<char>, k: int)
    requires
        ist_erster_eintrag(votes, target, k),
    ensures
        erster_eintrag(votes, target) == Some(k),
{
    let m = choose|m: int| ist_erster_eintrag(votes, target, m);
    assert(ist_erster_eintrag(votes, target, m));
    if m < k {
        assert(votes[m].0 != target);
    } else if k < m {
        assert(votes[k].0 != target);
    }
}

/// No player appears twice among those who received votes.
pub open spec fn schluessel_eindeutig(votes: StimmenModell) -> bool {
    forall|i: int, j: int| 0 <= i < j < votes.len() ==> (#[trigger] votes[i]).0 != (#[trigger] votes[j]).0
}

/// The number of votes cast.
pub open spec fn stimmen_summe(votes: StimmenModell) -> nat
    decreases votes.len(),
{
    if votes.len() == 0 {
        0
    } else {
        stimmen_summe(votes.drop_last()) + votes.last().1.len()
    }
}

pub proof fn lemma_summe_push(votes: StimmenModell, e: (Seq<char>, Seq<Seq<char>>))
    ensures
        stimmen_summe(votes.push(e)) == stimmen_summe(votes) + e.1.len(),
{
    assert(votes.push(e).drop_last() =~= votes);
}

pub proof fn lemma_summe_update(votes: StimmenModell, k: int, e: (Seq<char>, Seq<Seq<char>>))
    requires
        0 <= k < votes.len(),
    ensures
        stimmen_summe(votes.update(k, e)) + votes[k].1.len() == stimmen_summe(votes) + e.1.len(),
    decreases votes.len(),
{
    if k == votes.len() - 1 {
        assert(votes.update(k, e).drop_last() =~= votes.drop_last());
    } else {
        lemma_summe_update(votes.drop_last(), k, e);
        assert(votes.update(k, e).drop_last() =~= votes.drop_last().update(k, e));
    }
}

/// Law: a recorded vote adds exactly one vote, for `target`, by `actor`,
/// and nobody gets a second entry.
pub proof fn law_stimme_eintragen(votes: StimmenModell, target: Seq<char>, actor: Seq<char>)
    ensures
        stimmen_summe(stimme_eintragen(votes, target, actor)) == stimmen_summe(votes) + 1,
        schluessel_eindeutig(votes) ==> schluessel_eindeutig(stimme_eintragen(votes, target, actor)),
        erster_eintrag(stimme_eintragen(votes, target, actor), target) matches Some(k) && stimme_eintragen(
            votes,
            target,
            actor,
        )[k].1.last() == actor,
{
    let neu = stimme_eintragen(votes, target, actor);
    if exists|k: int| ist_erster_eintrag(votes, target, k) {
        let k = choose|k: int| ist_erster_eintrag(votes, target, k);
        lemma_erster_eintrag_eindeutig(votes, target, k);
        lemma_summe_update(votes, k, (votes[k].0, votes[k].1.push(actor)));
        assert(ist_erster_eintrag(neu, target, k));
        lemma_erster_eintrag_eindeutig(neu, target, k);
    } else {
        lemma_summe_push(votes, (target, seq![actor]));
        assert forall|j: int| 0 <= j < votes.len() implies (#[trigger] votes[j]).0 != target by {
            if votes[j].0 == target {
                lemma_eintrag_existiert(votes, target, j);
            }
        }
        assert(ist_erster_eintrag(neu, target, votes.len() as int));
        lemma_erster_eintrag_eindeutig(neu, target, votes.len() as int);
    }
}

/// Who votes in a phase, said without the list: a living player, by day
/// anybody, at night only one with the role of the phase.
pub proof fn lemma_darf_abstimmen(p: SpielerModell, phase: Phase)
    ensures
        darf_abstimmen(p, phase) == (p.lebend && (phase == Phase::Tag || rolle_der_phase(phase) == Some(p.rolle))),
{
}

/// `name` is the name of a living player of `ps` who may vote in `phase`:
/// by day anybody, at night one with the role of the phase.
pub open spec fn lebender_waehler(ps: Seq<SpielerModell>, phase: Phase, name: Seq<char>) -> bool {
    exists|j: int|
        #![trigger ps[j]]
        0 <= j < ps.len() && ps[j].name == name && ps[j].lebend && (phase == Phase::Tag || rolle_der_phase(phase)
            == Some(ps[j].rolle))
}

/// The `k`-th voter of a phase is a living player who may vote in it.
pub proof fn lemma_berechtigter(ps: Seq<SpielerModell>, phase: Phase, k: int)
    requires
        0 <= k < berechtigte(ps, phase).len(),
    ensures
        lebender_waehler(ps, phase, berechtigte(ps, phase)[k]),
    decreases ps.len(),
{
    let vorne = ps.drop_last();
    let r = berechtigte(vorne, phase);
    lemma_darf_abstimmen(ps.last(), phase);
    if k < r.len() {
        lemma_berechtigter(vorne, phase, k);
        let j = choose|j: int|
            #![trigger vorne[j]]
            0 <= j < vorne.len() && vorne[j].name == r[k] && vorne[j].lebend && (phase == Phase::Tag
                || rolle_der_phase(phase) == Some(vorne[j].rolle));
        assert(ps[j] == vorne[j]);
    } else {
        let j = ps.len() - 1;
        assert(ps[j] == ps.last());
    }
}

/// A living player who may vote in a phase is among its voters.
pub proof fn lemma_berechtigt_gelistet(ps: Seq<SpielerModell>, phase: Phase, j: int)
    requires
        0 <= j < ps.len(),
        ps[j].lebend,
        phase == Phase::Tag || rolle_der_phase(phase) == Some(ps[j].rolle),
    ensures
        berechtigte(ps, phase).contains(ps[j].name),
    decreases ps.len(),
{
    let vorne = ps.drop_last();
    let r = berechtigte(vorne, phase);
    lemma_darf_abstimmen(ps.last(), phase);
    if j < vorne.len() {
        assert(vorne[j] == ps[j]);
        lemma_berechtigt_gelistet(vorne, phase, j);
        let k = choose|k: int| 0 <= k < r.len() && r[k] == vorne[j].name;
        assert(berechtigte(ps, phase)[k] == r[k]);
    } else {
        assert(ps[j] == ps.last());
        let b = berechtigte(ps, phase);
        assert(b[b.len() - 1] == ps[j].name);
    }
}

/// Law: the voters of a phase are exactly the living players, by day all
/// of them, at night those with the role of the phase: every name listed is
/// the name of such a player, and every such player's name is listed.
pub proof fn law_berechtigte(ps: Seq<SpielerModell>, phase: Phase)
    ensures
        forall|k: int|
            0 <= k < berechtigte(ps, phase).len() ==> lebender_waehler(ps, phase, #[trigger] berechtigte(ps, phase)[k]),
        forall|j: int|
            0 <= j < ps.len() && (#[trigger] ps[j]).lebend && (phase == Phase::Tag || rolle_der_phase(phase) == Some(
                ps[j].rolle,
            )) ==> berechtigte(ps, phase).contains(ps[j].name),
{
    assert forall|k: int| 0 <= k < berechtigte(ps, phase).len() implies lebender_waehler(
        ps,
        phase,
        #[trigger] berechtigte(ps, phase)[k],
    ) by {
        lemma_berechtigter(ps, phase, k);
    }
    assert forall|j: int|
        0 <= j < ps.len() && (#[trigger] ps[j]).lebend && (phase == Phase::Tag || rolle_der_phase(phase) == Some(
            ps[j].rolle,
        )) implies berechtigte(ps, phase).contains(ps[j].name) by {
        lemma_berechtigt_gelistet(ps, phase, j);
    }
}

/// Law: once a vote is counted, the players listed as its voters are the
/// living players of the game, by day all of them, at night those with the
/// role of the phase, and each of them is listed.
pub proof fn law_nur_lebende_stimmen_ab(g: SpielModell, actor: Seq<char>, target: Seq<char>)
    requires
        abstimmung_fehler(g, actor, target) is None,
    ensures
        forall|k: int|
            0 <= k < stimme_gezaehlt(g, actor, target).eligible_players.len() ==> lebender_waehler(
                g.players,
                g.phase,
                #[trigger] stimme_gezaehlt(g, actor, target).eligible_players[k],
            ),
        forall|j: int|
            0 <= j < g.players.len() && (#[trigger] g.players[j]).lebend && (g.phase == Phase::Tag || rolle_der_phase(
                g.phase,
            ) == Some(g.players[j].rolle)) ==> stimme_gezaehlt(g, actor, target).eligible_players.contains(
                g.players[j].name,
            ),
{
    let a = erster_treffer(g.players, kriterium(Some(actor), None, true, false))->0;
    lemma_treffer_passt(g.players, kriterium(Some(actor), None, true, false));
    let ps = g.players.update(a, SpielerModell { has_voted: true, ..g.players[a] });
    law_berechtigte(ps, g.phase);
    let e = stimme_gezaehlt(g, actor, target).eligible_players;
    assert(e == berechtigte(ps, g.phase));
    assert forall|k: int| 0 <= k < e.len() implies lebender_waehler(g.players, g.phase, #[trigger] e[k]) by {
        assert(lebender_waehler(ps, g.phase, berechtigte(ps, g.phase)[k]));
        let j = choose|j: int|
            #![trigger ps[j]]
            0 <= j < ps.len() && ps[j].name == e[k] && ps[j].lebend && (g.phase == Phase::Tag || rolle_der_phase(
                g.phase,
            ) == Some(ps[j].rolle));
        assert(g.players[j].name == ps[j].name && g.players[j].lebend == ps[j].lebend && g.players[j].rolle
            == ps[j].rolle);
    }
    assert forall|j: int|
        0 <= j < g.players.len() && (#[trigger] g.players[j]).lebend && (g.phase == Phase::Tag || rolle_der_phase(
            g.phase,
        ) == Some(g.players[j].rolle)) implies e.contains(g.players[j].name) by {
        assert(ps[j].lebend == g.players[j].lebend && ps[j].rolle == g.players[j].rolle && ps[j].name
            == g.players[j].name);
    }
}

/// Law: a vote keeps every player at most once among those who received
/// votes.
pub proof fn law_abstimmung_schluessel(g: SpielModell, actor: Seq<char>, target: Seq<char>, action: ActionKind)
    requires
        schluessel_eindeutig(g.votes),
    ensures
        schluessel_eindeutig(abstimmung(g, actor, target, action).votes),
{
    law_stimme_eintragen(g.votes, target, actor);
}

pub proof fn lemma_eintrag_existiert(votes: StimmenModell, target: Seq<char>, j: int)
    requires
        0 <= j < votes.len(),
        votes[j].0 == target,
    ensures
        exists|k: int| ist_erster_eintrag(votes, target, k),
    decreases j,
{
    if forall|m: int| 0 <= m < j ==> (#[trigger] votes[m]).0 != target {
        assert(ist_erster_eintrag(votes, target, j));
    } else {
        let m = choose|m: int| 0 <= m < j && (#[trigger] votes[m]).0 == target;
        lemma_eintrag_existiert(votes, target, m);
    }
}

/// Law: while a vote is open, nobody can vote twice: once `actor`'s vote is
/// counted and the vote not yet settled, `actor`'s next vote is refused.
pub proof fn law_keine_doppelte_stimme(
    g: SpielModell,
    actor: Seq<char>,
    target: Seq<char>,
    action: ActionKind,
    naechstes_ziel: Seq<char>,
)
    requires
        abstimmung_fehler(g, actor, target) is None,
        !alle_abgestimmt(stimme_gezaehlt(g, actor, target).players, stimme_gezaehlt(g, actor, target).eligible_players),
    ensures
        abstimmung_fehler(abstimmung(g, actor, target, action), actor, naechstes_ziel) is Some,
{
    let g1 = stimme_gezaehlt(g, actor, target);
    let a = erster_treffer(g.players, kriterium(Some(actor), None, true, false))->0;
    lemma_treffer_passt(g.players, kriterium(Some(actor), None, true, false));
    assert(kriterium(Some(actor), None, false, true)(g1.players[a]));
    lemma_treffer_existiert(g1.players, kriterium(Some(actor), None, false, true), a);
}

/// Copies a list of names.
pub fn kopiere_namen(v: &Vec<String>) -> (r: Vec<String>)
    ensures
        texte(r@) == texte(v@),
{
    let mut r: Vec<String> = Vec::new();
    let mut i: usize = 0;
    while i < v.len()
        invariant
            i <= v.len(),
            texte(r@) =~= texte(v@.take(i as int)),
        decreases v.len() - i,
    {
        r.push(v[i].clone());
        proof {
            assert(texte(v@.take(i + 1)) =~= texte(v@.take(i as int)).push(v@[i as int]@));
        }
        i += 1;
    }
    proof {
        assert(v@.take(i as int) =~= v@);
    }
    r
}

/// Copies the votes.
pub fn kopiere_stimmen(v: &Vec<(String, Vec<String>)>) -> (r: Vec<(String, Vec<String>)>)
    ensures
        stimmen_text(r@) == stimmen_text(v@),
{
    let mut r: Vec<(String, Vec<String>)> = Vec::new();
    let mut i: usize = 0;
    while i < v.len()
        invariant
            i <= v.len(),
            stimmen_text(r@) =~= stimmen_text(v@.take(i as int)),
        decreases v.len() - i,
    {
        let name = v[i].0.clone();
        let waehler = kopiere_namen(&v[i].1);
        r.push((name, waehler));
        proof {
            assert(stimmen_text(v@.take(i + 1)) =~= stimmen_text(v@.take(i as int)).push(
                (v@[i as int].0@, texte(v@[i as int].1@)),
            ));
        }
        i += 1;
    }
    proof {
        assert(v@.take(i as int) =~= v@);
    }
    r
}

/// Whether `namen` holds `name`.
fn enthaelt(namen: &Vec<String>, name: &String) -> (r: bool)
    ensures
        r == texte(namen@).contains(name@),
{
    let mut i: usize = 0;
    while i < namen.len()
        invariant
            i <= namen.len(),
            forall|j: int| 0 <= j < i ==> texte(namen@)[j] != name@,
        decreases namen.len() - i,
    {
        if namen[i] == *name {
            assert(texte(namen@)[i as int] == name@);
            return true;
        }
        i += 1;
    }
    false
}

/// The most votes that anybody received.
fn hoechste_stimmenzahl(votes: &Vec<(String, Vec<String>)>) -> (m: usize)
    ensures
        m == hoechste_stimmen(stimmen_text(votes@)),
{
    let ghost v = stimmen_text(votes@);
    let mut m: usize = 0;
    let mut i: usize = 0;
    while i < votes.len()
        invariant
            i <= votes.len(),
            v == stimmen_text(votes@),
            m == hoechste_stimmen(v.take(i as int)),
        decreases votes.len() - i,
    {
        proof {
            assert(v.take(i + 1).drop_last() =~= v.take(i as int));
            assert(v.take(i + 1).last().1.len() == votes@[i as int].1.len());
        }
        if votes[i].1.len() > m {
            m = votes[i].1.len();
        }
        i += 1;
    }
    proof {
        assert(v.take(i as int) =~= v);
    }
    m
}

/// Those who received exactly `max` votes.
fn spitzenreiter_von(votes: &Vec<(String, Vec<String>)>, max: usize) -> (r: Vec<String>)
    ensures
        texte(r@) == spitzenreiter(stimmen_text(votes@), max as nat),
{
    let ghost v = stimmen_text(votes@);
    let mut r: Vec<String> = Vec::new();
    let mut i: usize = 0;
    while i < votes.len()
        invariant
            i <= votes.len(),
            v == stimmen_text(votes@),
            texte(r@) == spitzenreiter(v.take(i as int), max as nat),
        decreases votes.len() - i,
    {
        proof {
            assert(v.take(i + 1).drop_last() =~= v.take(i as int));
            assert(v.take(i + 1).last().1.len() == votes@[i as int].1.len());
        }
        if votes[i].1.len() == max {
            r.push(votes[i].0.clone());
            proof {
                assert(texte(r@) =~= spitzenreiter(v.take(i as int), max as nat).push(votes@[i as int].0@));
            }
        }
        i += 1;
    }
    proof {
        assert(v.take(i as int) =~= v);
    }
    r
}

/// The leaders of a tied vote, each with no votes yet.
fn neue_runde(kandidaten: &Vec<String>) -> (r: Vec<(String, Vec<String>)>)
    ensures
        stimmen_text(r@) == ohne_stimmen(texte(kandidaten@)),
{
    let mut r: Vec<(String, Vec<String>)> = Vec::new();
    let mut i: usize = 0;
    while i < kandidaten.len()
        invariant
            i <= kandidaten.len(),
            stimmen_text(r@) =~= ohne_stimmen(texte(kandidaten@.take(i as int))),
        decreases kandidaten.len() - i,
    {
        let leer: Vec<String> = Vec::new();
        let ghost vorher = r@;
        r.push((kandidaten[i].clone(), leer));
        proof {
            assert(stimmen_text(r@) =~= stimmen_text(vorher).push((kandidaten@[i as int]@, texte(leer@))));
            assert(ohne_stimmen(texte(kandidaten@.take(i + 1))) =~= ohne_stimmen(texte(kandidaten@.take(i as int))).push(
                (kandidaten@[i as int]@, Seq::<Seq<char>>::empty()),
            ));
            assert(texte(leer@) =~= Seq::<Seq<char>>::empty());
            assert(texte(kandidaten@.take(i + 1)) =~= texte(kandidaten@.take(i as int)).push(kandidaten@[i as int]@));
        }
        i += 1;
    }
    proof {
        assert(kandidaten@.take(i as int) =~= kandidaten@);
    }
    r
}

/// Counts `actor`'s vote for `target` (see `abstimmung`); refused, with
/// nothing changed, for the reasons of `abstimmung_fehler`.
pub fn handle_vote(game: &mut Game, actor: String, target: String, action: ActionKind) -> (r: Result<(), String>)
    requires
        kann_wechseln(old(game)@),
    ensures
        match abstimmung_fehler(old(game)@, actor@, target@) {
            Some(m) => r matches Err(e) && e@ == m && final(game)@ == old(game)@,
            None => r is Ok && final(game)@ == abstimmung(old(game)@, actor@, target@, action),
        },
        schluessel_eindeutig(old(game)@.votes) ==> schluessel_eindeutig(final(game)@.votes),
{
    proof {
        if schluessel_eindeutig(game@.votes) {
            law_abstimmung_schluessel(game@, actor@, target@, action);
        }
    }
    if finde(&game.players, Some(&target), None, false, false).is_none() {
        return Err("Spieler nicht gefunden oder nicht lebendig".to_owned());
    }
    if finde(&game.players, Some(&actor), None, false, true).is_some() {
        return Err("Du hast schon abgestimmt".to_owned());
    }
    let a = match finde(&game.players, Some(&actor), None, true, false) {
        Some(a) => a,
        None => {
            return Err("Spieler nicht gefunden oder nicht lebendig".to_owned());
        },
    };
    game.stimme_zaehlen(a, &actor, &target);
    game.auswerten(&actor, action);
    Ok(())
}

impl Game {
    /// Counts the vote (see `stimme_gezaehlt`) of the living `actor` found
    /// at `a`.
    fn stimme_zaehlen(&mut self, a: usize, actor: &String, target: &String)
        requires
            erster_treffer(old(self)@.players, kriterium(Some(actor@), None, true, false)) == Some(a as int),
        ensures
            final(self)@ == stimme_gezaehlt(old(self)@, actor@, target@),
    {
        let ghost g = self@;
        proof {
            lemma_treffer_passt(g.players, kriterium(Some(actor@), None, true, false));
        }
        self.players[a].has_voted = true;
        proof {
            assert(self@.players =~= g.players.update(
                a as int,
                SpielerModell { has_voted: true, ..g.players[a as int] },
            ));
        }
        self.stimme_eintragen(actor, target);
        self.ongoing_vote = true;
        self.eligible_players = self.berechtigte_namen();
        self.current_votes = kopiere_stimmen(&self.votes);
        proof {
            assert(self@ =~= stimme_gezaehlt(g, actor@, target@));
        }
    }

    /// Once every voter has voted, settles the vote (see `abstimmung`).
    #[verifier::spinoff_prover]
    fn auswerten(&mut self, actor: &String, action: ActionKind)
        requires
            kann_wechseln(old(self)@),
        ensures
            final(self)@ == ({
                let g1 = old(self)@;
                let namen = g1.eligible_players;
                if !alle_abgestimmt(g1.players, namen) {
                    g1
                } else {
                    let kandidaten = spitzenreiter(g1.votes, hoechste_stimmen(g1.votes));
                    if kandidaten.len() > 1 {
                        SpielModell {
                            votes: Seq::empty(),
                            players: stimmen_zurueck(g1.players, namen),
                            current_votes: ohne_stimmen(kandidaten),
                            ..g1
                        }
                    } else if kandidaten.len() == 1 {
                        let g2 = entscheidung(g1, actor@, kandidaten[0], action);
                        SpielModell {
                            votes: Seq::empty(),
                            players: stimmen_zurueck(g2.players, namen),
                            current_votes: Seq::empty(),
                            ongoing_vote: false,
                            ..g2
                        }
                    } else {
                        g1
                    }
                }
            }),
    {
        let ghost g1 = self@;
        let namen = kopiere_namen(&self.eligible_players);
        if self.alle_haben_abgestimmt(&namen) {
            let max_votes = hoechste_stimmenzahl(&self.votes);
            let candidates = spitzenreiter_von(&self.votes, max_votes);
            if candidates.len() > 1 {
                self.votes.clear();
                self.stimmen_zuruecksetzen(&namen);
                self.current_votes = neue_runde(&candidates);
                proof {
                    assert(stimmen_text(self.votes@) =~= Seq::empty());
                }
                return ;
            }
            if candidates.len() == 1 {
                let final_target = &candidates[0];
                match action {
                    ActionKind::WerwolfFrisst => {
                        let _ = self.werwolf_toetet(actor, final_target);
                    },
                    ActionKind::DorfLyncht => {
                        self.tag_lynchen(final_target);
                    },
                }
                let ghost g2 = self@;
                proof {
                    assert(g2 == entscheidung(g1, actor@, texte(candidates@)[0], action));
                }
                self.votes.clear();
                self.stimmen_zuruecksetzen(&namen);
                self.current_votes.clear();
                self.ongoing_vote = false;
                proof {
                    assert(stimmen_text(self.votes@) =~= Seq::empty());
                    assert(stimmen_text(self.current_votes@) =~= Seq::empty());
                }
            }
        }
    }

    /// Records `actor`'s vote for `target` (see `stimme_eintragen`).
    fn stimme_eintragen(&mut self, actor: &String, target: &String)
        ensures
            final(self)@ == (SpielModell {
                votes: stimme_eintragen(old(self)@.votes, target@, actor@),
                ..old(self)@
            }),
    {
        let ghost g = self@;
        let mut k: usize = 0;
        while k < self.votes.len()
            invariant
                self@ == g,
                g == old(self)@,
                k <= self.votes.len(),
                forall|j: int| 0 <= j < k ==> (#[trigger] g.votes[j]).0 != target@,
            decreases self.votes.len() - k,
        {
            if self.votes[k].0 == *target {
                proof {
                    lemma_erster_eintrag_eindeutig(g.votes, target@, k as int);
                }
                let ghost alt_eintrag = self.votes@[k as int];
                let ghost alt_votes = self.votes@;
                let neu = actor.clone();
                self.votes[k].1.push(neu);
                proof {
                    assert(texte(self.votes@[k as int].1@) =~= texte(alt_eintrag.1@).push(actor@));
                    assert(self.votes@[k as int].0 == alt_eintrag.0);
                    assert(self.votes@ == alt_votes.update(k as int, self.votes@[k as int]));
                    assert(self@.votes =~= stimme_eintragen(g.votes, target@, actor@));
                    assert(self@ =~= SpielModell { votes: stimme_eintragen(g.votes, target@, actor@), ..g });
                }
                return ;
            }
            k += 1;
        }
        proof {
            assert(!exists|m: int| ist_erster_eintrag(g.votes, target@, m));
        }
        let mut waehler: Vec<String> = Vec::new();
        waehler.push(actor.clone());
        self.votes.push((target.clone(), waehler));
        proof {
            assert(texte(waehler@) =~= seq![actor@]);
            assert(self@.votes =~= stimme_eintragen(g.votes, target@, actor@));
            assert(self@ =~= SpielModell { votes: stimme_eintragen(g.votes, target@, actor@), ..g });
        }
    }

    /// The names of the players who vote in the current phase.
    fn berechtigte_namen(&self) -> (r: Vec<String>)
        ensures
            texte(r@) == berechtigte(self@.players, self.phase),
    {
        let ghost ps = self@.players;
        let mut r: Vec<String> = Vec::new();
        let mut i: usize = 0;
        while i < self.players.len()
            invariant
                ps == self@.players,
                i <= self.players.len(),
                texte(r@) == berechtigte(ps.take(i as int), self.phase),
            decreases self.players.len() - i,
        {
            let p = &self.players[i];
            let darf = p.lebend && match self.phase {
                Phase::Spielbeginn => false,
                Phase::Tag => true,
                Phase::WerwoelfePhase => p.rolle == Rolle::Werwolf,
                Phase::SeherPhase => p.rolle == Rolle::Seher,
                Phase::HexePhase => p.rolle == Rolle::Hexe,
                Phase::AmorPhase => p.rolle == Rolle::Amor,
                Phase::PriesterPhase => p.rolle == Rolle::Priester,
                Phase::DoktorPhase => p.rolle == Rolle::Doktor,
            };
            proof {
                assert(ps.take(i + 1).drop_last() =~= ps.take(i as int));
                assert(ps.take(i + 1).last() == p@);
            }
            if darf {
                r.push(p.name.clone());
                proof {
                    assert(texte(r@) =~= berechtigte(ps.take(i as int), self.phase).push(p.name@));
                }
            }
            i += 1;
        }
        proof {
            assert(ps.take(i as int) =~= ps);
        }
        r
    }

    /// Whether every player in `namen` has voted.
    fn alle_haben_abgestimmt(&self, namen: &Vec<String>) -> (r: bool)
        ensures
            r == alle_abgestimmt(self@.players, texte(namen@)),
    {
        let ghost ns = texte(namen@);
        let mut i: usize = 0;
        while i < namen.len()
            invariant
                i <= namen.len(),
                ns == texte(namen@),
                forall|k: int|
                    0 <= k < i ==> (erster_treffer(self@.players, mit_name(#[trigger] ns[k])) matches Some(j)
                        && self@.players[j].has_voted),
            decreases namen.len() - i,
        {
            let gefunden = finde(&self.players, Some(&namen[i]), None, false, false);
            proof {
                assert(ns[i as int] == namen@[i as int]@);
            }
            match gefunden {
                Some(j) => {
                    if !self.players[j].has_voted {
                        proof {
                            assert(!(erster_treffer(self@.players, mit_name(ns[i as int])) matches Some(j)
                                && self@.players[j].has_voted));
                        }
                        return false;
                    }
                },
                None => {
                    proof {
                        assert(!(erster_treffer(self@.players, mit_name(ns[i as int])) matches Some(j)
                            && self@.players[j].has_voted));
                    }
                    return false;
                },
            }
            i += 1;
        }
        true
    }

    /// Takes back the vote of every player named in `namen`.
    fn stimmen_zuruecksetzen(&mut self, namen: &Vec<String>)
        ensures
            final(self)@ == (SpielModell {
                players: stimmen_zurueck(old(self)@.players, texte(namen@)),
                ..old(self)@
            }),
    {
        let ghost g = self@;
        let ghost ziel = stimmen_zurueck(g.players, texte(namen@));
        let mut i: usize = 0;
        while i < self.players.len()
            invariant
                i <= self.players.len(),
                self.players.len() == g.players.len(),
                ziel == stimmen_zurueck(g.players, texte(namen@)),
                self@ == (SpielModell { players: self@.players, ..g }),
                forall|k: int| 0 <= k < i ==> self@.players[k] == ziel[k],
                forall|k: int| i <= k < g.players.len() ==> self@.players[k] == g.players[k],
            decreases self.players.len() - i,
        {
            let drin = enthaelt(namen, &self.players[i].name);
            if drin {
                self.players[i].has_voted = false;
            }
            i += 1;
        }
        proof {
            assert(self@.players =~= ziel);
        }
    }
}

} // verus!
