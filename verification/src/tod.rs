use vstd::prelude::*;
use crate::rollen::Rolle;
use crate::spiel::{
    Game, SpielModell, SpielerModell, erster_treffer, finde, ist_erster_treffer, lemma_erster_treffer_eindeutig,
    lemma_treffer_passt, mit_name,
};

verus! {

/// The number of living players.
pub open spec fn lebende(s: Seq<SpielerModell>) -> nat
    decreases s.len(),
{
    if s.len() == 0 {
        0
    } else {
        lebende(s.drop_last()) + if s.last().lebend {
            1nat
        } else {
            0nat
        }
    }
}

/// The game with the player at position `i` dead.
pub open spec fn getoetet(g: SpielModell, i: int) -> SpielModell {
    SpielModell { players: g.players.update(i, SpielerModell { lebend: false, ..g.players[i] }), ..g }
}

/// The partner of `name` in the couple that Amor formed, if `name` is one of
/// the two lovers.
pub open spec fn liebespartner(g: SpielModell, name: Seq<char>) -> Option<Option<Seq<char>>> {
    if g.liebender_1 == Some(name) {
        Some(g.liebender_2)
    } else if g.liebender_2 == Some(name) {
        Some(g.liebender_1)
    } else {
        None
    }
}

/// What the death of `name` leads to, following at most `tiefe` deaths
/// deep: the first player of that name dies if still alive; a dying hunter
/// takes the player he aimed at with him; a dying lover takes the partner
/// with them and the couple is no longer active.
#[verifier::opaque]
pub open spec fn stirbt_bis(g: SpielModell, name: Seq<char>, tiefe: nat) -> SpielModell
    decreases tiefe,
{
    if tiefe == 0 {
        g
    } else {
        match erster_treffer(g.players, mit_name(name)) {
            None => g,
            Some(i) => if !g.players[i].lebend {
                g
            } else {
                let g1 = getoetet(g, i);
                let g2 = if g.players[i].rolle == Rolle::Jaeger && g.jaeger_ziel is Some {
                    stirbt_bis(g1, g.jaeger_ziel->0, (tiefe - 1) as nat)
                } else {
                    g1
                };
                match liebespartner(g, name) {
                    None => g2,
                    Some(partner) => {
                        let g3 = match partner {
                            Some(p) => stirbt_bis(g2, p, (tiefe - 1) as nat),
                            None => g2,
                        };
                        SpielModell { liebende_aktiv: false, ..g3 }
                    },
                }
            },
        }
    }
}

/// The first steps of a death: the player at `i` dies, and if a hunter, the
/// player he aimed at dies too.
pub open spec fn mit_jaeger(g: SpielModell, i: int, tiefe: nat) -> SpielModell {
    let g1 = getoetet(g, i);
    if g.players[i].rolle == Rolle::Jaeger && g.jaeger_ziel is Some {
        stirbt_bis(g1, g.jaeger_ziel->0, tiefe)
    } else {
        g1
    }
}

/// The last step of the death of `name`, applied to `g2`: a lover takes the
/// partner along, and the couple is no longer active.
pub open spec fn mit_liebe(g: SpielModell, name: Seq<char>, g2: SpielModell, tiefe: nat) -> SpielModell {
    match liebespartner(g, name) {
        None => g2,
        Some(partner) => {
            let g3 = match partner {
                Some(p) => stirbt_bis(g2, p, tiefe),
                None => g2,
            };
            SpielModell { liebende_aktiv: false, ..g3 }
        },
    }
}

/// The death of a living player, step by step.
pub proof fn lemma_stirbt_schritt(g: SpielModell, name: Seq<char>, tiefe: nat, i: int)
    requires
        tiefe > 0,
        erster_treffer(g.players, mit_name(name)) == Some(i),
        g.players[i].lebend,
    ensures
        stirbt_bis(g, name, tiefe) == mit_liebe(
            g,
            name,
            mit_jaeger(g, i, (tiefe - 1) as nat),
            (tiefe - 1) as nat,
        ),
{
    reveal_with_fuel(stirbt_bis, 1);
}

/// A name of nobody, or of a player who is dead, changes nothing.
pub proof fn lemma_stirbt_nichts(g: SpielModell, name: Seq<char>, tiefe: nat)
    requires
        tiefe == 0 || erster_treffer(g.players, mit_name(name)) is None || !g.players[erster_treffer(
            g.players,
            mit_name(name),
        )->0].lebend,
    ensures
        stirbt_bis(g, name, tiefe) == g,
{
    reveal_with_fuel(stirbt_bis, 1);
}

/// What the death of `name` leads to. Every death in the chain kills a
/// living player, so the number of players bounds its length.
pub open spec fn stirbt(g: SpielModell, name: Seq<char>) -> SpielModell {
    stirbt_bis(g, name, g.players.len())
}

/// `r` comes from `g` by deaths alone: the same players with the same names,
/// roles and flags, none alive that was dead, and nothing else changed but
/// whether the couple is still active.
pub open spec fn nur_tode(g: SpielModell, r: SpielModell) -> bool {
    &&& r.players.len() == g.players.len()
    &&& forall|k: int|
        0 <= k < g.players.len() ==> (#[trigger] r.players[k]) == (SpielerModell {
            lebend: r.players[k].lebend,
            ..g.players[k]
        }) && (r.players[k].lebend ==> g.players[k].lebend)
    &&& r == (SpielModell { players: r.players, liebende_aktiv: r.liebende_aktiv, ..g })
}

pub proof fn lemma_lebende_schranke(s: Seq<SpielerModell>)
    ensures
        lebende(s) <= s.len(),
    decreases s.len(),
{
    if s.len() > 0 {
        lemma_lebende_schranke(s.drop_last());
    }
}

pub proof fn lemma_lebende_null(s: Seq<SpielerModell>)
    requires
        lebende(s) == 0,
    ensures
        forall|k: int| 0 <= k < s.len() ==> !(#[trigger] s[k]).lebend,
    decreases s.len(),
{
    if s.len() > 0 {
        lemma_lebende_null(s.drop_last());
        assert forall|k: int| 0 <= k < s.len() implies !(#[trigger] s[k]).lebend by {
            if k < s.len() - 1 {
                assert(s.drop_last()[k] == s[k]);
            }
        }
    }
}

/// Killing a living player lowers the number of living players by one.
pub proof fn lemma_lebende_getoetet(s: Seq<SpielerModell>, i: int)
    requires
        0 <= i < s.len(),
        s[i].lebend,
    ensures
        lebende(s.update(i, SpielerModell { lebend: false, ..s[i] })) + 1 == lebende(s),
    decreases s.len(),
{
    let t = s.update(i, SpielerModell { lebend: false, ..s[i] });
    if i == s.len() - 1 {
        assert(t.drop_last() =~= s.drop_last());
    } else {
        lemma_lebende_getoetet(s.drop_last(), i);
        assert(t.drop_last() =~= s.drop_last().update(i, SpielerModell { lebend: false, ..s[i] }));
    }
}

/// Deaths never raise the number of living players.
pub proof fn lemma_lebende_monoton(s: Seq<SpielerModell>, t: Seq<SpielerModell>)
    requires
        s.len() == t.len(),
        forall|k: int| 0 <= k < s.len() ==> (#[trigger] t[k]).lebend ==> s[k].lebend,
    ensures
        lebende(t) <= lebende(s),
    decreases s.len(),
{
    if s.len() > 0 {
        lemma_lebende_monoton(s.drop_last(), t.drop_last());
    }
}

pub proof fn lemma_nur_tode_transitiv(a: SpielModell, b: SpielModell, c: SpielModell)
    requires
        nur_tode(a, b),
        nur_tode(b, c),
    ensures
        nur_tode(a, c),
{
    assert forall|k: int| 0 <= k < a.players.len() implies (#[trigger] c.players[k]) == (SpielerModell {
        lebend: c.players[k].lebend,
        ..a.players[k]
    }) && (c.players[k].lebend ==> a.players[k].lebend) by {
        assert(b.players[k] == (SpielerModell { lebend: b.players[k].lebend, ..a.players[k] }));
    }
}

pub proof fn lemma_nur_tode_lebende(g: SpielModell, r: SpielModell)
    requires
        nur_tode(g, r),
    ensures
        lebende(r.players) <= lebende(g.players),
{
    assert forall|k: int| 0 <= k < g.players.len() && (#[trigger] r.players[k]).lebend implies
        g.players[k].lebend by {
        assert(r.players[k] == r.players[k]);
    }
    lemma_lebende_monoton(g.players, r.players);
}

pub proof fn lemma_getoetet_nur_tode(g: SpielModell, i: int)
    requires
        0 <= i < g.players.len(),
    ensures
        nur_tode(g, getoetet(g, i)),
{
    let g1 = getoetet(g, i);
    assert forall|k: int| 0 <= k < g.players.len() implies (#[trigger] g1.players[k]) == (SpielerModell {
        lebend: g1.players[k].lebend,
        ..g.players[k]
    }) && (g1.players[k].lebend ==> g.players[k].lebend) by {
        if k != i {
            assert(g1.players[k] == g.players[k]);
        }
    }
}

pub proof fn lemma_paar_aufgeloest_nur_tode(g: SpielModell)
    ensures
        nur_tode(g, SpielModell { liebende_aktiv: false, ..g }),
{
}

/// A chain of deaths changes nothing but who is alive and whether the couple
/// is active.
pub proof fn lemma_stirbt_nur_tode(g: SpielModell, name: Seq<char>, tiefe: nat)
    ensures
        nur_tode(g, stirbt_bis(g, name, tiefe)),
    decreases tiefe,
{
    lemma_treffer_passt(g.players, mit_name(name));
    if tiefe == 0 || erster_treffer(g.players, mit_name(name)) is None || !g.players[erster_treffer(
        g.players,
        mit_name(name),
    )->0].lebend {
        lemma_stirbt_nichts(g, name, tiefe);
    } else {
        let i = erster_treffer(g.players, mit_name(name))->0;
        let t = (tiefe - 1) as nat;
        lemma_stirbt_schritt(g, name, tiefe, i);
        let g1 = getoetet(g, i);
        lemma_getoetet_nur_tode(g, i);
        let g2 = mit_jaeger(g, i, t);
        if g.players[i].rolle == Rolle::Jaeger && g.jaeger_ziel is Some {
            lemma_stirbt_nur_tode(g1, g.jaeger_ziel->0, t);
            lemma_nur_tode_transitiv(g, g1, g2);
        }
        if let Some(partner) = liebespartner(g, name) {
            let g3 = match partner {
                Some(p) => stirbt_bis(g2, p, t),
                None => g2,
            };
            if let Some(p) = partner {
                lemma_stirbt_nur_tode(g2, p, t);
                lemma_nur_tode_transitiv(g, g2, g3);
            }
            lemma_paar_aufgeloest_nur_tode(g3);
            lemma_nur_tode_transitiv(g, g3, SpielModell { liebende_aktiv: false, ..g3 });
        }
    }
}

/// Once the depth covers every living player, more depth changes nothing.
pub proof fn lemma_stirbt_tiefe(g: SpielModell, name: Seq<char>, t1: nat, t2: nat)
    requires
        lebende(g.players) <= t1,
        lebende(g.players) <= t2,
    ensures
        stirbt_bis(g, name, t1) == stirbt_bis(g, name, t2),
    decreases t1,
{
    lemma_treffer_passt(g.players, mit_name(name));
    if t1 == 0 || t2 == 0 {
        lemma_lebende_null(g.players);
        lemma_stirbt_nichts(g, name, t1);
        lemma_stirbt_nichts(g, name, t2);
    } else if erster_treffer(g.players, mit_name(name)) is None || !g.players[erster_treffer(
        g.players,
        mit_name(name),
    )->0].lebend {
        lemma_stirbt_nichts(g, name, t1);
        lemma_stirbt_nichts(g, name, t2);
    } else {
        let i = erster_treffer(g.players, mit_name(name))->0;
        let u1 = (t1 - 1) as nat;
        let u2 = (t2 - 1) as nat;
        lemma_stirbt_schritt(g, name, t1, i);
        lemma_stirbt_schritt(g, name, t2, i);
        let g1 = getoetet(g, i);
        lemma_lebende_getoetet(g.players, i);
        if g.players[i].rolle == Rolle::Jaeger && g.jaeger_ziel is Some {
            lemma_stirbt_tiefe(g1, g.jaeger_ziel->0, u1, u2);
            lemma_stirbt_nur_tode(g1, g.jaeger_ziel->0, u1);
            lemma_nur_tode_lebende(g1, stirbt_bis(g1, g.jaeger_ziel->0, u1));
        }
        let g2 = mit_jaeger(g, i, u1);
        assert(mit_jaeger(g, i, u2) == g2);
        assert(lebende(g2.players) <= lebende(g1.players));
        if let Some(partner) = liebespartner(g, name) {
            if let Some(p) = partner {
                lemma_stirbt_tiefe(g2, p, u1, u2);
            }
        }
    }
}

/// Deaths do not move anybody in the search by name.
pub proof fn lemma_treffer_nach_toden(g: SpielModell, r: SpielModell, name: Seq<char>)
    requires
        nur_tode(g, r),
    ensures
        erster_treffer(r.players, mit_name(name)) == erster_treffer(g.players, mit_name(name)),
{
    let p = mit_name(name);
    assert forall|k: int| 0 <= k < g.players.len() implies p(#[trigger] r.players[k]) == p(g.players[k]) by {
        assert(r.players[k].name == g.players[k].name);
    }
    lemma_treffer_passt(g.players, p);
    lemma_treffer_passt(r.players, p);
    if let Some(i) = erster_treffer(g.players, p) {
        assert(ist_erster_treffer(r.players, p, i)) by {
            assert forall|j: int| 0 <= j < i implies !p(#[trigger] r.players[j]) by {
                assert(!p(g.players[j]));
            }
        }
        lemma_erster_treffer_eindeutig(r.players, p, i);
    } else if let Some(k) = erster_treffer(r.players, p) {
        assert(ist_erster_treffer(g.players, p, k)) by {
            assert forall|j: int| 0 <= j < k implies !p(#[trigger] g.players[j]) by {
                assert(!p(r.players[j]));
            }
        }
        lemma_erster_treffer_eindeutig(g.players, p, k);
    }
}

/// Whoever was dead stays dead through further deaths.
pub proof fn lemma_bleibt_tot(g: SpielModell, r: SpielModell, k: int)
    requires
        nur_tode(g, r),
        0 <= k < g.players.len(),
        !g.players[k].lebend,
    ensures
        !r.players[k].lebend,
{
    assert(r.players[k] == r.players[k]);
}

/// With depth enough for every living player, the named player is dead at
/// the end of the chain.
pub proof fn lemma_stirbt_bis_tot(g: SpielModell, name: Seq<char>, tiefe: nat)
    requires
        lebende(g.players) <= tiefe,
    ensures
        erster_treffer(g.players, mit_name(name)) matches Some(i) ==> !stirbt_bis(
            g,
            name,
            tiefe,
        ).players[i].lebend,
{
    lemma_treffer_passt(g.players, mit_name(name));
    lemma_stirbt_nur_tode(g, name, tiefe);
    if let Some(i) = erster_treffer(g.players, mit_name(name)) {
        if tiefe == 0 {
            lemma_lebende_null(g.players);
            lemma_bleibt_tot(g, stirbt_bis(g, name, tiefe), i);
        } else if !g.players[i].lebend {
            lemma_bleibt_tot(g, stirbt_bis(g, name, tiefe), i);
        } else {
            let t = (tiefe - 1) as nat;
            lemma_stirbt_schritt(g, name, tiefe, i);
            let g1 = getoetet(g, i);
            let g2 = mit_jaeger(g, i, t);
            let r = stirbt_bis(g, name, tiefe);
            lemma_getoetet_nur_tode(g, i);
            if g.players[i].rolle == Rolle::Jaeger && g.jaeger_ziel is Some {
                lemma_stirbt_nur_tode(g1, g.jaeger_ziel->0, t);
            } else {
                assert(nur_tode(g1, g1));
            }
            lemma_bleibt_tot(g1, g2, i);
            match liebespartner(g, name) {
                None => {},
                Some(partner) => {
                    let g3 = match partner {
                        Some(p) => stirbt_bis(g2, p, t),
                        None => g2,
                    };
                    if let Some(p) = partner {
                        lemma_stirbt_nur_tode(g2, p, t);
                    } else {
                        assert(nur_tode(g2, g2));
                    }
                    lemma_bleibt_tot(g2, g3, i);
                    assert(r.players == g3.players);
                },
            }
        }
    }
}

/// Law: after a death, the first player of that name is dead.
pub proof fn law_spieler_ist_tot(g: SpielModell, name: Seq<char>)
    ensures
        erster_treffer(g.players, mit_name(name)) matches Some(i) ==> !stirbt(g, name).players[i].lebend,
{
    lemma_lebende_schranke(g.players);
    lemma_stirbt_bis_tot(g, name, g.players.len());
}

/// Law: a death only kills. The players, their names, roles, teams and flags
/// stay as they were, nobody comes back to life, and of the rest of the game
/// only whether the couple is active can change.
pub proof fn law_nur_tode(g: SpielModell, name: Seq<char>)
    ensures
        nur_tode(g, stirbt(g, name)),
{
    lemma_stirbt_nur_tode(g, name, g.players.len());
}

/// Law: a player cannot die twice; the second death changes nothing.
pub proof fn law_zweiter_tod_aendert_nichts(g: SpielModell, name: Seq<char>)
    ensures
        stirbt(stirbt(g, name), name) == stirbt(g, name),
{
    let r = stirbt(g, name);
    law_nur_tode(g, name);
    law_spieler_ist_tot(g, name);
    lemma_treffer_nach_toden(g, r, name);
    lemma_treffer_passt(r.players, mit_name(name));
    lemma_stirbt_nichts(r, name, r.players.len());
}

/// Law: when a living lover dies, the partner dies too.
pub proof fn law_liebende_sterben_gemeinsam(g: SpielModell, name: Seq<char>, partner: Seq<char>)
    requires
        erster_treffer(g.players, mit_name(name)) matches Some(i) && g.players[i].lebend,
        liebespartner(g, name) == Some(Some(partner)),
    ensures
        erster_treffer(g.players, mit_name(partner)) matches Some(j) ==> !stirbt(g, name).players[j].lebend,
{
    let i = erster_treffer(g.players, mit_name(name))->0;
    let tiefe = g.players.len();
    lemma_treffer_passt(g.players, mit_name(name));
    lemma_lebende_schranke(g.players);
    let t = (tiefe - 1) as nat;
    lemma_stirbt_schritt(g, name, tiefe, i);
    let g1 = getoetet(g, i);
    let g2 = mit_jaeger(g, i, t);
    lemma_getoetet_nur_tode(g, i);
    lemma_lebende_getoetet(g.players, i);
    if g.players[i].rolle == Rolle::Jaeger && g.jaeger_ziel is Some {
        lemma_stirbt_nur_tode(g1, g.jaeger_ziel->0, t);
        lemma_nur_tode_transitiv(g, g1, g2);
    }
    lemma_nur_tode_lebende(g1, g2);
    lemma_treffer_nach_toden(g, g2, partner);
    lemma_stirbt_bis_tot(g2, partner, t);
}

/// Law: the death of a living player who is neither a hunter nor one of the
/// lovers kills that player and nobody else, whoever the hunter aimed at.
pub proof fn law_einzelner_tod(g: SpielModell, name: Seq<char>)
    requires
        erster_treffer(g.players, mit_name(name)) matches Some(i) && g.players[i].lebend && g.players[i].rolle
            != Rolle::Jaeger,
        g.liebender_1 != Some(name),
        g.liebender_2 != Some(name),
    ensures
        stirbt(g, name).players.len() == g.players.len(),
        forall|k: int|
            0 <= k < g.players.len() ==> (#[trigger] stirbt(g, name).players[k]).lebend == (g.players[k].lebend && k
                != erster_treffer(g.players, mit_name(name))->0),
{
    let i = erster_treffer(g.players, mit_name(name))->0;
    lemma_treffer_passt(g.players, mit_name(name));
    lemma_stirbt_schritt(g, name, g.players.len(), i);
    assert(stirbt(g, name) == getoetet(g, i));
}

/// Law: when a living hunter dies, the player he aimed at dies too.
pub proof fn law_jaeger_nimmt_ziel_mit(g: SpielModell, name: Seq<char>, ziel: Seq<char>)
    requires
        erster_treffer(g.players, mit_name(name)) matches Some(i) && g.players[i].lebend
            && g.players[i].rolle == Rolle::Jaeger,
        g.jaeger_ziel == Some(ziel),
    ensures
        erster_treffer(g.players, mit_name(ziel)) matches Some(k) ==> !stirbt(g, name).players[k].lebend,
{
    let i = erster_treffer(g.players, mit_name(name))->0;
    let tiefe = g.players.len();
    lemma_treffer_passt(g.players, mit_name(name));
    lemma_lebende_schranke(g.players);
    let t = (tiefe - 1) as nat;
    lemma_stirbt_schritt(g, name, tiefe, i);
    let g1 = getoetet(g, i);
    let g2 = mit_jaeger(g, i, t);
    lemma_getoetet_nur_tode(g, i);
    lemma_lebende_getoetet(g.players, i);
    lemma_treffer_nach_toden(g, g1, ziel);
    lemma_stirbt_bis_tot(g1, ziel, t);
    lemma_stirbt_nur_tode(g1, ziel, t);
    if let Some(k) = erster_treffer(g.players, mit_name(ziel)) {
        match liebespartner(g, name) {
            None => {},
            Some(partner) => {
                let g3 = match partner {
                    Some(p) => stirbt_bis(g2, p, t),
                    None => g2,
                };
                if let Some(p) = partner {
                    lemma_stirbt_nur_tode(g2, p, t);
                } else {
                    assert(nur_tode(g2, g2));
                }
                lemma_bleibt_tot(g2, g3, k);
            },
        }
    }
}

impl Game {
    /// Lets the first player called `verstorbener` die, with everything the
    /// death brings about (see `stirbt`). A name of nobody, or of a player
    /// who is dead already, changes nothing.
    pub fn spieler_stirbt(&mut self, verstorbener: &str)
        ensures
            final(self)@ == stirbt(old(self)@, verstorbener@),
        decreases lebende(old(self)@.players), 1nat,
    {
        let ghost g = self@;
        let ghost n = verstorbener@;
        proof {
            lemma_lebende_schranke(g.players);
            lemma_treffer_passt(g.players, mit_name(n));
        }
        let name = verstorbener.to_owned();
        let gefunden = finde(&self.players, Some(&name), None, false, false);
        let i = match gefunden {
            None => {
                proof {
                    lemma_stirbt_nichts(g, n, g.players.len());
                }
                return ;
            },
            Some(i) => i,
        };
        if !self.players[i].lebend {
            proof {
                lemma_stirbt_nichts(g, n, g.players.len());
            }
            return ;
        }
        self.players[i].lebend = false;
        proof {
            assert(self@.players =~= getoetet(g, i as int).players);
            assert(self@ =~= getoetet(g, i as int));
            lemma_lebende_getoetet(g.players, i as int);
            lemma_stirbt_schritt(g, n, g.players.len(), i as int);
        }
        self.jaeger_schiesst(i, Ghost(g));
        proof {
            lemma_getoetet_nur_tode(g, i as int);
            lemma_nur_tode_transitiv(g, getoetet(g, i as int), self@);
            lemma_nur_tode_lebende(getoetet(g, i as int), self@);
        }
        self.liebe_folgt(&name, Ghost(g));
    }

    /// A dead hunter shoots the player he aimed at.
    fn jaeger_schiesst(&mut self, i: usize, Ghost(g): Ghost<SpielModell>)
        requires
            0 <= i < g.players.len(),
            old(self)@ == getoetet(g, i as int),
            lebende(old(self)@.players) + 1 == lebende(g.players),
            lebende(g.players) <= g.players.len(),
        ensures
            final(self)@ == mit_jaeger(g, i as int, (g.players.len() - 1) as nat),
            nur_tode(old(self)@, final(self)@),
        decreases lebende(old(self)@.players) + 1, 0nat,
    {
        let ghost g1 = self@;
        let ghost t = (g.players.len() - 1) as nat;
        proof {
            assert(g1.players[i as int] == self.players@[i as int]@);
            assert(g1.players[i as int].rolle == g.players[i as int].rolle);
            assert(g1.jaeger_ziel == g.jaeger_ziel);
        }
        if self.players[i].rolle == Rolle::Jaeger {
            match &self.jaeger_ziel {
                Some(z) => {
                    let ziel = z.clone();
                    self.spieler_stirbt(ziel.as_str());
                    proof {
                        lemma_stirbt_tiefe(g1, ziel@, g1.players.len(), t);
                        lemma_stirbt_nur_tode(g1, ziel@, g1.players.len());
                    }
                    return ;
                },
                None => {},
            }
        }
        proof {
            assert(nur_tode(g1, g1));
        }
    }

    /// A dead lover takes the partner along; the couple is no longer active.
    fn liebe_folgt(&mut self, name: &String, Ghost(g): Ghost<SpielModell>)
        requires
            old(self)@.players.len() == g.players.len(),
            old(self)@.liebender_1 == g.liebender_1,
            old(self)@.liebender_2 == g.liebender_2,
            lebende(old(self)@.players) < lebende(g.players),
            lebende(g.players) <= g.players.len(),
        ensures
            final(self)@ == mit_liebe(g, name@, old(self)@, (g.players.len() - 1) as nat),
        decreases lebende(old(self)@.players) + 1, 0nat,
    {
        let ghost g2 = self@;
        let ghost t = (g.players.len() - 1) as nat;
        let ist_liebender_1 = match &self.liebender_1 {
            Some(l) => *l == *name,
            None => false,
        };
        let ist_liebender_2 = match &self.liebender_2 {
            Some(l) => *l == *name,
            None => false,
        };
        if !(ist_liebender_1 || ist_liebender_2) {
            return ;
        }
        let partner_kopie = if ist_liebender_1 {
            match &self.liebender_2 {
                Some(l) => Some(l.clone()),
                None => None,
            }
        } else {
            match &self.liebender_1 {
                Some(l) => Some(l.clone()),
                None => None,
            }
        };
        match partner_kopie {
            Some(partner_name) => {
                let j = finde(&self.players, Some(&partner_name), None, false, false);
                proof {
                    lemma_treffer_passt(g2.players, mit_name(partner_name@));
                }
                match j {
                    Some(j) => {
                        if self.players[j].lebend {
                            self.spieler_stirbt(partner_name.as_str());
                            proof {
                                lemma_stirbt_tiefe(g2, partner_name@, g2.players.len(), t);
                            }
                        } else {
                            proof {
                                lemma_stirbt_nichts(g2, partner_name@, t);
                            }
                        }
                    },
                    None => {
                        proof {
                            lemma_stirbt_nichts(g2, partner_name@, t);
                        }
                    },
                }
            },
            None => {},
        }
        self.liebende_aktiv = false;
    }
}

} // verus!
