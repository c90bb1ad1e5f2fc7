use vstd::prelude::*;
use base64::Engine;
use crate::rollen::Rolle;
use crate::spiel::{
    Game, Phase, SpielModell, SpielerModell, StimmenModell, Winner, erster_treffer, lemma_treffer_passt, mit_name,
    sieger, stimmen_text, texte,
};
use crate::abstimmung::{kopiere_namen, kopiere_stimmen};
use crate::sitzung::{GeraetModell, PlayerDevice, geraete};

verus! {

/// How a role is shown to the players.
pub open spec fn rollen_name(r: Rolle) -> Seq<char> {
    match r {
        Rolle::Dorfbewohner => "Dorfbewohner"@,
        Rolle::Werwolf => "Werwolf"@,
        Rolle::Seher => "Seher"@,
        Rolle::Hexe => "Hexe"@,
        Rolle::Jaeger => "Jäger"@,
        Rolle::Amor => "Amor"@,
        Rolle::Doktor => "Doktor"@,
        Rolle::Priester => "Priester"@,
    }
}

/// How a role is shown on the start page, which knows only werewolves,
/// the seer and villagers.
pub open spec fn rollen_name_kurz(r: Rolle) -> Seq<char> {
    match r {
        Rolle::Werwolf => "Werwolf"@,
        Rolle::Seher => "Seher"@,
        _ => "Dorfbewohner"@,
    }
}

/// How a phase is shown.
pub open spec fn phasen_name(p: Phase) -> Seq<char> {
    match p {
        Phase::Tag => "Tag"@,
        Phase::AmorPhase => "AmorPhase"@,
        Phase::WerwoelfePhase => "WerwölfePhase"@,
        Phase::SeherPhase => "SeherPhase"@,
        Phase::HexePhase => "HexePhase"@,
        Phase::PriesterPhase => "PriesterPhase"@,
        Phase::DoktorPhase => "DoktorPhase"@,
        Phase::Spielbeginn => "Spielbeginn"@,
    }
}

/// How a winning side is shown.
pub open spec fn sieger_name(w: Winner) -> Seq<char> {
    match w {
        Winner::Dorf => "Dorf"@,
        Winner::Werwolf => "Werwolf"@,
        Winner::Liebende => "Liebende"@,
    }
}

impl Rolle {
    pub fn name(&self) -> (s: &'static str)
        ensures
            s@ == rollen_name(*self),
    {
        match self {
            Rolle::Dorfbewohner => "Dorfbewohner",
            Rolle::Werwolf => "Werwolf",
            Rolle::Seher => "Seher",
            Rolle::Hexe => "Hexe",
            Rolle::Jaeger => "Jäger",
            Rolle::Amor => "Amor",
            Rolle::Doktor => "Doktor",
            Rolle::Priester => "Priester",
        }
    }

    pub fn name_kurz(&self) -> (s: &'static str)
        ensures
            s@ == rollen_name_kurz(*self),
    {
        match self {
            Rolle::Werwolf => "Werwolf",
            Rolle::Seher => "Seher",
            _ => "Dorfbewohner",
        }
    }
}

impl Phase {
    pub fn name(&self) -> (s: &'static str)
        ensures
            s@ == phasen_name(*self),
    {
        match self {
            Phase::Tag => "Tag",
            Phase::AmorPhase => "AmorPhase",
            Phase::WerwoelfePhase => "WerwölfePhase",
            Phase::SeherPhase => "SeherPhase",
            Phase::HexePhase => "HexePhase",
            Phase::PriesterPhase => "PriesterPhase",
            Phase::DoktorPhase => "DoktorPhase",
            Phase::Spielbeginn => "Spielbeginn",
        }
    }
}

impl Winner {
    pub fn name(&self) -> (s: &'static str)
        ensures
            s@ == sieger_name(*self),
    {
        match self {
            Winner::Dorf => "Dorf",
            Winner::Werwolf => "Werwolf",
            Winner::Liebende => "Liebende",
        }
    }
}

/// A line of the list of players on a page.
#[derive(Debug, Clone)]
pub struct SpielerZeile {
    pub name: String,
    pub rolle: String,
    pub status: bool,
    pub ready: bool,
}

pub struct ZeileModell {
    pub name: Seq<char>,
    pub rolle: Seq<char>,
    pub status: bool,
    pub ready: bool,
}

impl View for SpielerZeile {
    type V = ZeileModell;

    open spec fn view(&self) -> ZeileModell {
        ZeileModell { name: self.name@, rolle: self.rolle@, status: self.status, ready: self.ready }
    }
}

pub open spec fn zeilen_modell(v: Seq<SpielerZeile>) -> Seq<ZeileModell> {
    v.map_values(|z: SpielerZeile| z@)
}

/// The list of players as a page shows it: each player's name, the role
/// found under that name (in full, or as the start page shows it), whether
/// they live and whether they are ready.
pub open spec fn spielerliste(ps: Seq<SpielerModell>, kurz: bool) -> Seq<ZeileModell> {
    Seq::new(
        ps.len(),
        |k: int|
            ZeileModell {
                name: ps[k].name,
                rolle: match erster_treffer(ps, mit_name(ps[k].name)) {
                    Some(i) => if kurz {
                        rollen_name_kurz(ps[i].rolle)
                    } else {
                        rollen_name(ps[i].rolle)
                    },
                    None => "?"@,
                },
                status: ps[k].lebend,
                ready: ps[k].ready_state,
            },
    )
}

/// What every page learns after each message: the players, the phase, the
/// seer's last finding, who votes, the votes, whether a vote is open, and
/// the winner once a started game has one.
#[derive(Debug, Clone)]
pub struct SpielStand {
    pub players: Vec<SpielerZeile>,
    pub phase: String,
    pub last_seher_result: Option<String>,
    pub eligible_players: Vec<String>,
    pub current_votes: Vec<(String, Vec<String>)>,
    pub ongoing_vote: bool,
    pub winner: Option<String>,
}

pub struct StandModell {
    pub players: Seq<ZeileModell>,
    pub phase: Seq<char>,
    pub last_seher_result: Option<Seq<char>>,
    pub eligible_players: Seq<Seq<char>>,
    pub current_votes: StimmenModell,
    pub ongoing_vote: bool,
    pub winner: Option<Seq<char>>,
}

impl View for SpielStand {
    type V = StandModell;

    open spec fn view(&self) -> StandModell {
        StandModell {
            players: zeilen_modell(self.players@),
            phase: self.phase@,
            last_seher_result: crate::spiel::opt_text(self.last_seher_result),
            eligible_players: texte(self.eligible_players@),
            current_votes: stimmen_text(self.current_votes@),
            ongoing_vote: self.ongoing_vote,
            winner: crate::spiel::opt_text(self.winner),
        }
    }
}

/// The state of the game as the pages are told it.
pub open spec fn spielstand_modell(g: SpielModell, gestartet: bool) -> StandModell {
    StandModell {
        players: spielerliste(g.players, false),
        phase: phasen_name(g.phase),
        last_seher_result: match g.last_seher_result {
            Some((t, r)) => Some(t + " is "@ + rollen_name(r)),
            None => None,
        },
        eligible_players: g.eligible_players,
        current_votes: g.current_votes,
        ongoing_vote: g.ongoing_vote,
        winner: match sieger(g) {
            Some(w) => if gestartet {
                Some(sieger_name(w))
            } else {
                None
            },
            None => None,
        },
    }
}

impl Game {
    /// The list of players as a page shows it (see `spielerliste`).
    pub fn spielerliste(&self, kurz: bool) -> (r: Vec<SpielerZeile>)
        ensures
            zeilen_modell(r@) == spielerliste(self@.players, kurz),
    {
        let ghost ps = self@.players;
        let mut r: Vec<SpielerZeile> = Vec::new();
        let mut i: usize = 0;
        while i < self.players.len()
            invariant
                i <= self.players.len(),
                ps == self@.players,
                zeilen_modell(r@) =~= spielerliste(ps, kurz).take(i as int),
            decreases self.players.len() - i,
        {
            let p = &self.players[i];
            let rolle = match self.rolle_von(p.name.as_str()) {
                Some(rolle) => if kurz {
                    rolle.name_kurz().to_owned()
                } else {
                    rolle.name().to_owned()
                },
                None => "?".to_owned(),
            };
            let ghost vorher = r@;
            let zeile = SpielerZeile { name: p.name.clone(), rolle, status: p.lebend, ready: p.ready_state };
            proof {
                assert(ps[i as int] == p@);
                assert(zeile@ == spielerliste(ps, kurz)[i as int]);
            }
            r.push(zeile);
            proof {
                assert(zeilen_modell(r@) =~= zeilen_modell(vorher).push(zeile@));
                assert(zeilen_modell(r@) =~= spielerliste(ps, kurz).take(i + 1));
            }
            i += 1;
        }
        proof {
            assert(spielerliste(ps, kurz).take(i as int) =~= spielerliste(ps, kurz));
        }
        r
    }

    /// The state of the game as the pages are told it (see
    /// `spielstand_modell`).
    pub fn spielstand(&self, game_started: bool) -> (r: SpielStand)
        ensures
            r@ == spielstand_modell(self@, game_started),
    {
        let players = self.spielerliste(false);
        let phase = self.phase.name().to_owned();
        let last_seher_result = match &self.last_seher_result {
            Some((t, r)) => {
                let mut text = t.clone();
                text.append(" is ");
                text.append(r.name());
                Some(text)
            },
            None => None,
        };
        let winner = match self.check_win() {
            Some(w) => if game_started {
                Some(w.name().to_owned())
            } else {
                None
            },
            None => None,
        };
        SpielStand {
            players,
            phase,
            last_seher_result,
            eligible_players: kopiere_namen(&self.eligible_players),
            current_votes: kopiere_stimmen(&self.current_votes),
            ongoing_vote: self.ongoing_vote,
            winner,
        }
    }

    /// The role of `username` as their page shows it; `?` for nobody.
    pub fn rollen_anzeige(&self, username: &str) -> (r: String)
        ensures
            r@ == match erster_treffer(self@.players, mit_name(username@)) {
                Some(i) => rollen_name(self@.players[i].rolle),
                None => "?"@,
            },
    {
        match self.rolle_von(username) {
            Some(rolle) => rolle.name().to_owned(),
            None => "?".to_owned(),
        }
    }
}

/// The device whose token is `token`, if one has it.
pub fn geraet_mit_token(play_dev: &Vec<PlayerDevice>, token: &String) -> (r: Option<usize>)
    ensures
        match r {
            Some(i) => i < play_dev@.len() && geraete(play_dev@)[i as int].token == token@ && forall|j: int|
                0 <= j < i ==> geraete(play_dev@)[j].token != token@,
            None => forall|j: int| 0 <= j < play_dev@.len() ==> geraete(play_dev@)[j].token != token@,
        },
{
    let mut i: usize = 0;
    while i < play_dev.len()
        invariant
            i <= play_dev.len(),
            forall|j: int| 0 <= j < i ==> geraete(play_dev@)[j].token != token@,
        decreases play_dev.len() - i,
    {
        if play_dev[i].token == *token {
            return Some(i);
        }
        i += 1;
    }
    None
}

/// The address that the QR code on the start page leads to.
pub open spec fn beitritts_url(ip: Seq<char>) -> Seq<char> {
    "http://"@ + ip + ":7878/join"@
}

/// The text of the SVG image of the QR code for `text`, if the text fits
/// into a QR code.
pub uninterp spec fn qr_svg(text: Seq<char>) -> Option<Seq<char>>;

/// The standard Base64 alphabet.
pub open spec fn base64_zeichen(v: int) -> char {
    if v < 26 {
        (65 + v) as char
    } else if v < 52 {
        (97 + v - 26) as char
    } else if v < 62 {
        (48 + v - 52) as char
    } else if v == 62 {
        '+'
    } else {
        '/'
    }
}

/// Standard Base64 with padding: every three bytes become four characters
/// of six bits each; a shorter end is filled up with `=`.
pub open spec fn base64(b: Seq<u8>) -> Seq<char>
    decreases b.len(),
{
    if b.len() == 0 {
        Seq::empty()
    } else {
        let b0 = b[0] as int;
        let b1 = if b.len() > 1 {
            b[1] as int
        } else {
            0
        };
        let b2 = if b.len() > 2 {
            b[2] as int
        } else {
            0
        };
        if b.len() == 1 {
            seq![base64_zeichen(b0 / 4), base64_zeichen((b0 % 4) * 16), '=', '=']
        } else if b.len() == 2 {
            seq![
                base64_zeichen(b0 / 4),
                base64_zeichen((b0 % 4) * 16 + b1 / 16),
                base64_zeichen((b1 % 16) * 4),
                '=',
            ]
        } else {
            seq![
                base64_zeichen(b0 / 4),
                base64_zeichen((b0 % 4) * 16 + b1 / 16),
                base64_zeichen((b1 % 16) * 4 + b2 / 64),
                base64_zeichen(b2 % 64),
            ] + base64(b.skip(3))
        }
    }
}

/// Renders `text` as a QR code with `qrcode`: `QrCode::new` on the text's
/// bytes (which picks the smallest code at error correction level M), then
/// `render::<svg::Color>().min_dimensions(220, 220).build()`. Nothing in it
/// depends on anything but the text; `None` where `QrCode::new` refuses the
/// text. The picture itself is only named (`qr_svg`).
#[verifier::external_body]
fn qr_als_svg(text: &str) -> (r: Option<String>)
    ensures
        crate::spiel::opt_text(r) == qr_svg(text@),
{
    match qrcode::QrCode::new(text.as_bytes()) {
        Ok(code) => Some(code.render::<qrcode::render::svg::Color>().min_dimensions(220, 220).build()),
        Err(_) => None,
    }
}

/// Encodes `bytes` with `base64`'s `general_purpose::STANDARD` engine:
/// standard alphabet, with padding (see `base64`). The engine panics when
/// the length of the result does not fit a `usize`, which the precondition
/// rules out.
#[verifier::external_body]
fn base64_kodieren(bytes: &[u8]) -> (r: String)
    requires
        bytes@.len() / 3 * 4 + 4 <= usize::MAX,
    ensures
        r@ == base64(bytes@),
{
    base64::engine::general_purpose::STANDARD.encode(bytes)
}

/// An SVG image as a data URL, its UTF-8 bytes in Base64; `None` where the
/// encoded image would be too long for memory.
pub fn svg_als_data_url(svg: &str) -> (r: Option<String>)
    ensures
        if vstd::utf8::encode_utf8(svg@).len() / 3 * 4 + 4 <= usize::MAX {
            r matches Some(u) && u@ == "data:image/svg+xml;base64,"@ + base64(vstd::utf8::encode_utf8(svg@))
        } else {
            r is None
        },
{
    let bytes = svg.as_bytes();
    if bytes.len() / 3 > (usize::MAX - 4) / 4 {
        return None;
    }
    let mut daten = "data:image/svg+xml;base64,".to_owned();
    let kodiert = base64_kodieren(bytes);
    daten.append(kodiert.as_str());
    Some(daten)
}

/// The QR code that leads to the join page on the server at `ip`, as the
/// text of an SVG image; `None` where the address does not fit into a QR
/// code.
pub fn generate_qr(ip: &str) -> (r: Option<String>)
    ensures
        crate::spiel::opt_text(r) == qr_svg(beitritts_url(ip@)),
{
    let mut url = "http://".to_owned();
    url.append(ip);
    url.append(":7878/join");
    qr_als_svg(url.as_str())
}

} // verus!
