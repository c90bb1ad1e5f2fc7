use vstd::prelude::*;
use rand::seq::SliceRandom;
use crate::rollen::{Rolle, team_von};
use crate::spiel::{Game, SpielModell, SpielerModell};

verus! {

/// The special roles of a game with `n` players: the seer from four players
/// on, the witch from five, Amor from six, the hunter from seven, the doctor
/// and the priest from eight.
pub open spec fn sonderrollen(n: nat) -> Seq<Rolle> {
    (if n >= 4 { seq![Rolle::Seher] } else { Seq::empty() }) + (if n >= 5 {
        seq![Rolle::Hexe]
    } else {
        Seq::empty()
    }) + (if n >= 6 { seq![Rolle::Amor] } else { Seq::empty() }) + (if n >= 7 {
        seq![Rolle::Jaeger]
    } else {
        Seq::empty()
    }) + (if n >= 8 { seq![Rolle::Doktor, Rolle::Priester] } else { Seq::empty() })
}

/// The roles dealt to `n` players before shuffling: one werewolf for every
/// three players, then the special roles, then villagers for the rest.
pub open spec fn rollen_liste(n: nat) -> Seq<Rolle> {
    let basis = Seq::new(n / 3, |i: int| Rolle::Werwolf) + sonderrollen(n);
    if basis.len() < n {
        basis + Seq::new((n - basis.len()) as nat, |i: int| Rolle::Dorfbewohner)
    } else {
        basis
    }
}

/// The game with the roles `rollen` dealt to its players in order, each
/// player joining the team of their role.
pub open spec fn mit_rollen(g: SpielModell, rollen: Seq<Rolle>) -> SpielModell {
    SpielModell {
        players: Seq::new(
            g.players.len(),
            |k: int|
                if k < rollen.len() {
                    SpielerModell { rolle: rollen[k], team: team_von(rollen[k]), ..g.players[k] }
                } else {
                    g.players[k]
                },
        ),
        ..g
    }
}

/// `r` is `g` with the roles for its number of players dealt in some order.
pub open spec fn gueltige_verteilung(g: SpielModell, r: SpielModell) -> bool {
    exists|rollen: Seq<Rolle>|
        rollen.len() == g.players.len() && #[trigger] rollen.to_multiset() == rollen_liste(
            g.players.len(),
        ).to_multiset() && r == mit_rollen(g, rollen)
}

/// How often `rolle` occurs in `s`.
pub open spec fn anzahl(s: Seq<Rolle>, rolle: Rolle) -> nat
    decreases s.len(),
{
    if s.len() == 0 {
        0
    } else {
        anzahl(s.drop_last(), rolle) + if s.last() == rolle {
            1nat
        } else {
            0nat
        }
    }
}

/// The roles of the players, in order.
pub open spec fn rollen_der_spieler(ps: Seq<SpielerModell>) -> Seq<Rolle> {
    ps.map_values(|p: SpielerModell| p.rolle)
}

pub proof fn lemma_anzahl_verkettet(a: Seq<Rolle>, b: Seq<Rolle>, rolle: Rolle)
    ensures
        anzahl(a + b, rolle) == anzahl(a, rolle) + anzahl(b, rolle),
    decreases b.len(),
{
    if b.len() > 0 {
        lemma_anzahl_verkettet(a, b.drop_last(), rolle);
        assert((a + b).drop_last() =~= a + b.drop_last());
    } else {
        assert(a + b =~= a);
    }
}

pub proof fn lemma_anzahl_gleich(m: nat, x: Rolle, rolle: Rolle)
    ensures
        anzahl(Seq::new(m, |i: int| x), rolle) == if x == rolle {
            m
        } else {
            0
        },
    decreases m,
{
    if m > 0 {
        lemma_anzahl_gleich((m - 1) as nat, x, rolle);
        assert(Seq::new(m, |i: int| x).drop_last() =~= Seq::new((m - 1) as nat, |i: int| x));
    }
}

/// Counting a role agrees with the multiset of the roles.
pub proof fn lemma_anzahl_multimenge(s: Seq<Rolle>, rolle: Rolle)
    ensures
        anzahl(s, rolle) == s.to_multiset().count(rolle),
    decreases s.len(),
{
    broadcast use vstd::seq_lib::group_to_multiset_ensures;
    if s.len() == 0 {
        assert(s.to_multiset() =~= vstd::multiset::Multiset::empty());
    } else {
        lemma_anzahl_multimenge(s.drop_last(), rolle);
        assert(s.drop_last().push(s.last()) =~= s);
    }
}

/// How many special roles a game with `n` players has.
pub open spec fn sonderzahl(n: nat) -> nat {
    (if n >= 4 { 1nat } else { 0nat }) + (if n >= 5 { 1nat } else { 0nat }) + (if n >= 6 { 1nat } else { 0nat })
        + (if n >= 7 { 1nat } else { 0nat }) + (if n >= 8 { 2nat } else { 0nat })
}

pub proof fn lemma_sonderrollen(n: nat)
    ensures
        anzahl(sonderrollen(n), Rolle::Werwolf) == 0,
        anzahl(sonderrollen(n), Rolle::Dorfbewohner) == 0,
        3 <= n <= 16 ==> n / 3 + sonderrollen(n).len() <= n,
        forall|r: Rolle| r != Rolle::Werwolf && r != Rolle::Dorfbewohner ==> anzahl(sonderrollen(n), r) <= 1,
        anzahl(sonderrollen(n), Rolle::Seher) == (if n >= 4 { 1nat } else { 0nat }),
        anzahl(sonderrollen(n), Rolle::Hexe) == (if n >= 5 { 1nat } else { 0nat }),
        anzahl(sonderrollen(n), Rolle::Amor) == (if n >= 6 { 1nat } else { 0nat }),
        anzahl(sonderrollen(n), Rolle::Jaeger) == (if n >= 7 { 1nat } else { 0nat }),
        anzahl(sonderrollen(n), Rolle::Doktor) == (if n >= 8 { 1nat } else { 0nat }),
        anzahl(sonderrollen(n), Rolle::Priester) == (if n >= 8 { 1nat } else { 0nat }),
        sonderrollen(n).len() == sonderzahl(n),
{
    let e = Seq::<Rolle>::empty();
    let a = if n >= 4 { seq![Rolle::Seher] } else { e };
    let b = if n >= 5 { seq![Rolle::Hexe] } else { e };
    let c = if n >= 6 { seq![Rolle::Amor] } else { e };
    let d = if n >= 7 { seq![Rolle::Jaeger] } else { e };
    let f = if n >= 8 { seq![Rolle::Doktor, Rolle::Priester] } else { e };
    assert forall|r: Rolle| #![auto] true implies anzahl(sonderrollen(n), r) == anzahl(a, r) + anzahl(b, r) + anzahl(c, r)
        + anzahl(d, r) + anzahl(f, r) by {
        lemma_anzahl_verkettet(a, b, r);
        lemma_anzahl_verkettet(a + b, c, r);
        lemma_anzahl_verkettet(a + b + c, d, r);
        lemma_anzahl_verkettet(a + b + c + d, f, r);
    }
    reveal_with_fuel(anzahl, 3);
    assert(seq![Rolle::Doktor, Rolle::Priester].drop_last() =~= seq![Rolle::Doktor]);
    assert(seq![Rolle::Seher].drop_last() =~= e);
    assert(seq![Rolle::Hexe].drop_last() =~= e);
    assert(seq![Rolle::Amor].drop_last() =~= e);
    assert(seq![Rolle::Jaeger].drop_last() =~= e);
    assert(seq![Rolle::Doktor].drop_last() =~= e);
}

/// Law: from 3 to 16 players the role list has one role per player, one
/// werewolf for every three players, and no special role twice.
pub proof fn law_rollen_liste(n: nat)
    requires
        3 <= n <= 16,
    ensures
        rollen_liste(n).len() == n,
        anzahl(rollen_liste(n), Rolle::Werwolf) == n / 3,
        forall|r: Rolle| r != Rolle::Werwolf && r != Rolle::Dorfbewohner ==> anzahl(rollen_liste(n), r) <= 1,
{
    let w = Seq::new(n / 3, |i: int| Rolle::Werwolf);
    let basis = w + sonderrollen(n);
    lemma_sonderrollen(n);
    assert forall|r: Rolle| #![auto]
        true implies (r == Rolle::Werwolf ==> anzahl(rollen_liste(n), r) == n / 3) && (r != Rolle::Werwolf && r
        != Rolle::Dorfbewohner ==> anzahl(rollen_liste(n), r) <= 1) by {
        lemma_anzahl_verkettet(w, sonderrollen(n), r);
        if basis.len() < n {
            lemma_anzahl_verkettet(basis, Seq::new((n - basis.len()) as nat, |i: int| Rolle::Dorfbewohner), r);
        }
        lemma_anzahl_gleich(n / 3, Rolle::Werwolf, r);
        lemma_anzahl_gleich((n - basis.len()) as nat, Rolle::Dorfbewohner, r);
    }
    assert(anzahl(rollen_liste(n), Rolle::Werwolf) == n / 3);
}

/// Law: the roles for `n` players, role by role: one werewolf for every
/// three players, the seer from 4 players on, the witch from 5, Amor from 6,
/// the hunter from 7, the doctor and the priest from 8, and villagers for
/// all other players.
pub proof fn law_rollen_je_spielerzahl(n: nat)
    ensures
        rollen_liste(n).len() == n,
        anzahl(rollen_liste(n), Rolle::Werwolf) == n / 3,
        anzahl(rollen_liste(n), Rolle::Seher) == (if n >= 4 { 1nat } else { 0nat }),
        anzahl(rollen_liste(n), Rolle::Hexe) == (if n >= 5 { 1nat } else { 0nat }),
        anzahl(rollen_liste(n), Rolle::Amor) == (if n >= 6 { 1nat } else { 0nat }),
        anzahl(rollen_liste(n), Rolle::Jaeger) == (if n >= 7 { 1nat } else { 0nat }),
        anzahl(rollen_liste(n), Rolle::Doktor) == (if n >= 8 { 1nat } else { 0nat }),
        anzahl(rollen_liste(n), Rolle::Priester) == (if n >= 8 { 1nat } else { 0nat }),
        anzahl(rollen_liste(n), Rolle::Dorfbewohner) + n / 3 + sonderzahl(n) == n,
{
    let w = Seq::new(n / 3, |i: int| Rolle::Werwolf);
    let basis = w + sonderrollen(n);
    lemma_sonderrollen(n);
    assert(basis.len() <= n);
    let rest = Seq::new((n - basis.len()) as nat, |i: int| Rolle::Dorfbewohner);
    assert(rollen_liste(n) == basis + rest) by {
        if basis.len() == n {
            assert(rest =~= Seq::<Rolle>::empty());
            assert(basis + rest =~= basis);
        }
    }
    assert forall|r: Rolle|
        #![trigger anzahl(rollen_liste(n), r)]
        true implies anzahl(rollen_liste(n), r) == (if r == Rolle::Werwolf { n / 3 } else { 0 }) + anzahl(
            sonderrollen(n),
            r,
        ) + (if r == Rolle::Dorfbewohner { n - basis.len() } else { 0 }) by {
        lemma_anzahl_verkettet(w, sonderrollen(n), r);
        lemma_anzahl_verkettet(basis, rest, r);
        lemma_anzahl_gleich(n / 3, Rolle::Werwolf, r);
        lemma_anzahl_gleich((n - basis.len()) as nat, Rolle::Dorfbewohner, r);
    }
    assert(anzahl(rollen_liste(n), Rolle::Werwolf) == n / 3);
    assert(anzahl(rollen_liste(n), Rolle::Seher) == anzahl(sonderrollen(n), Rolle::Seher));
    assert(anzahl(rollen_liste(n), Rolle::Hexe) == anzahl(sonderrollen(n), Rolle::Hexe));
    assert(anzahl(rollen_liste(n), Rolle::Amor) == anzahl(sonderrollen(n), Rolle::Amor));
    assert(anzahl(rollen_liste(n), Rolle::Jaeger) == anzahl(sonderrollen(n), Rolle::Jaeger));
    assert(anzahl(rollen_liste(n), Rolle::Doktor) == anzahl(sonderrollen(n), Rolle::Doktor));
    assert(anzahl(rollen_liste(n), Rolle::Priester) == anzahl(sonderrollen(n), Rolle::Priester));
    assert(anzahl(rollen_liste(n), Rolle::Dorfbewohner) == n - basis.len());
}

/// Law: after the roles are dealt to 3 to 16 players, one in three is a
/// werewolf and no special role is held twice.
pub proof fn law_verteilung(g: SpielModell, r: SpielModell)
    requires
        gueltige_verteilung(g, r),
        3 <= g.players.len() <= 16,
    ensures
        r.players.len() == g.players.len(),
        anzahl(rollen_der_spieler(r.players), Rolle::Werwolf) == g.players.len() / 3,
        forall|x: Rolle|
            x != Rolle::Werwolf && x != Rolle::Dorfbewohner ==> anzahl(rollen_der_spieler(r.players), x) <= 1,
{
    let n = g.players.len();
    let rollen = choose|rollen: Seq<Rolle>|
        rollen.len() == g.players.len() && #[trigger] rollen.to_multiset() == rollen_liste(
            g.players.len(),
        ).to_multiset() && r == mit_rollen(g, rollen);
    assert(rollen_der_spieler(r.players) =~= rollen);
    law_rollen_liste(n);
    assert forall|x: Rolle| #![auto] true implies anzahl(rollen, x) == anzahl(rollen_liste(n), x) by {
        lemma_anzahl_multimenge(rollen, x);
        lemma_anzahl_multimenge(rollen_liste(n), x);
    }
}

/// Shuffles the roles with `rand`'s `SliceRandom::shuffle` and the thread's
/// random generator `rand::rng()`. The shuffle only swaps elements, so the
/// result holds the same roles, each as often as before; which order comes
/// out is left open.
#[verifier::external_body]
fn mische_rollen(rollen: &mut Vec<Rolle>)
    ensures
        final(rollen)@.len() == old(rollen)@.len(),
        final(rollen)@.to_multiset() == old(rollen)@.to_multiset(),
{
    rollen.shuffle(&mut rand::rng());
}

/// The roles for `n` players, unshuffled (see `rollen_liste`).
pub fn rollen_liste_fuer(n: usize) -> (r: Vec<Rolle>)
    ensures
        r@ == rollen_liste(n as nat),
{
    let mut roles: Vec<Rolle> = Vec::new();
    let anzahl_werwoelfe = n / 3;
    let mut i: usize = 0;
    while i < anzahl_werwoelfe
        invariant
            i <= anzahl_werwoelfe,
            anzahl_werwoelfe == n / 3,
            roles@ =~= Seq::new(i as nat, |k: int| Rolle::Werwolf),
        decreases anzahl_werwoelfe - i,
    {
        roles.push(Rolle::Werwolf);
        i += 1;
    }
    let ghost w = roles@;
    if n >= 4 {
        roles.push(Rolle::Seher);
    }
    if n >= 5 {
        roles.push(Rolle::Hexe);
    }
    if n >= 6 {
        roles.push(Rolle::Amor);
    }
    if n >= 7 {
        roles.push(Rolle::Jaeger);
    }
    if n >= 8 {
        roles.push(Rolle::Doktor);
    }
    if n >= 8 {
        roles.push(Rolle::Priester);
    }
    let ghost basis = roles@;
    assert(basis =~= Seq::new((n / 3) as nat, |k: int| Rolle::Werwolf) + sonderrollen(n as nat));
    while roles.len() < n
        invariant
            basis.len() <= roles.len() <= n || (roles.len() == basis.len() && basis.len() >= n),
            roles@ =~= basis + Seq::new((roles.len() - basis.len()) as nat, |k: int| Rolle::Dorfbewohner),
        decreases n - roles.len(),
    {
        roles.push(Rolle::Dorfbewohner);
    }
    roles
}

impl Game {
    /// Gives the players the roles `rollen` in order (see `mit_rollen`).
    pub fn rollen_zuweisen(&mut self, rollen: Vec<Rolle>)
        ensures
            final(self)@ == mit_rollen(old(self)@, rollen@),
    {
        let ghost g = self@;
        let mut i: usize = 0;
        while i < self.players.len() && i < rollen.len()
            invariant
                i <= self.players.len(),
                i <= rollen.len(),
                self@ == mit_rollen(g, rollen@.take(i as int)),
                self.players.len() == g.players.len(),
            decreases self.players.len() - i,
        {
            let role = rollen[i];
            let ghost vorher = self@;
            self.players[i].rolle = role;
            self.players[i].team = role.team();
            proof {
                let neu = mit_rollen(g, rollen@.take(i + 1)).players;
                let alt = mit_rollen(g, rollen@.take(i as int)).players;
                assert forall|k: int| 0 <= k < g.players.len() implies #[trigger] self@.players[k] == neu[k] by {
                    if k < i {
                        assert(rollen@.take(i + 1)[k] == rollen@.take(i as int)[k]);
                        assert(vorher.players[k] == alt[k]);
                    } else if k == i {
                        assert(rollen@.take(i + 1)[k] == role);
                    } else {
                        assert(vorher.players[k] == alt[k]);
                    }
                }
                assert(self@.players =~= neu);
                assert(self@ =~= mit_rollen(g, rollen@.take(i + 1)));
            }
            i += 1;
        }
        proof {
            assert(mit_rollen(g, rollen@.take(i as int)) =~= mit_rollen(g, rollen@));
        }
    }

    /// Deals the roles for the number of players (see `rollen_liste`) in a
    /// random order. At least 3 and at most 16 players can play.
    pub fn verteile_rollen(&mut self) -> (r: Result<(), String>)
        ensures
            old(self)@.players.len() < 3 ==> (r matches Err(e) && e@
                == "Es müssen mindestens 3 Spieler vorhanden sein."@ && final(self)@ == old(self)@),
            old(self)@.players.len() > 16 ==> (r matches Err(e) && e@
                == "Es dürfen maximal 16 Spieler mitspielen."@ && final(self)@ == old(self)@),
            3 <= old(self)@.players.len() <= 16 ==> r is Ok && gueltige_verteilung(old(self)@, final(self)@),
    {
        let ghost g = self@;
        let anzahl_spieler = self.players.len();
        if anzahl_spieler < 3 {
            return Err("Es müssen mindestens 3 Spieler vorhanden sein.".to_owned());
        }
        if anzahl_spieler > 16 {
            return Err("Es dürfen maximal 16 Spieler mitspielen.".to_owned());
        }
        let mut roles = rollen_liste_fuer(anzahl_spieler);
        mische_rollen(&mut roles);
        let ghost gemischt = roles@;
        self.rollen_zuweisen(roles);
        proof {
            assert(gemischt.len() == g.players.len() && gemischt.to_multiset() == rollen_liste(
                g.players.len(),
            ).to_multiset() && self@ == mit_rollen(g, gemischt));
        }
        Ok(())
    }
}

} // verus!
