use vstd::prelude::*;
use crate::spiel::HexenAktion;

verus! {

/// The acting player of a message and, where the action has one, its target.
#[derive(Debug, Clone)]
pub struct ActionForm {
    pub actor: String,
    pub target: Option<String>,
}

/// A message that a player's page sends to the server.
#[derive(Debug, Clone)]
#[allow(non_snake_case)]
pub enum ClientMessage {
    StartGame,
    ResetGame,
    IngameBereit { username: String, ready: bool },
    AddUser { username: String },
    ReadyStatus { username: String, ready: bool },
    TagAction { direction: ActionForm },
    WerwolfAction { direction: ActionForm },
    SeherAction { actor: String, target: String },
    HexenAction { direction: ActionForm, hexenAktion: HexenAktion, extra_target: String },
    AmorAction { actor: String, target1: String, target2: String },
    DoktorAction { direction: ActionForm },
    PriesterAction { actor: String, target: Option<String> },
    JaegerAction { actor: String, target: Option<String> },
    ChatMessage { sender: String, message: String },
}

/// An acting player and a target, as character sequences.
pub struct FormModell {
    pub actor: Seq<char>,
    pub target: Option<Seq<char>>,
}

/// A message, with its texts as character sequences.
pub enum NachrichtModell {
    StartGame,
    ResetGame,
    IngameBereit { username: Seq<char>, ready: bool },
    AddUser { username: Seq<char> },
    ReadyStatus { username: Seq<char>, ready: bool },
    TagAction { direction: FormModell },
    WerwolfAction { direction: FormModell },
    SeherAction { actor: Seq<char>, target: Seq<char> },
    HexenAction { direction: FormModell, aktion: HexenAktion, extra_target: Seq<char> },
    AmorAction { actor: Seq<char>, target1: Seq<char>, target2: Seq<char> },
    DoktorAction { direction: FormModell },
    PriesterAction { actor: Seq<char>, target: Option<Seq<char>> },
    JaegerAction { actor: Seq<char>, target: Option<Seq<char>> },
    ChatMessage { sender: Seq<char>, message: Seq<char> },
}

pub open spec fn opt_seq(o: Option<String>) -> Option<Seq<char>> {
    match o {
        Some(s) => Some(s@),
        None => None,
    }
}

impl View for ActionForm {
    type V = FormModell;

    open spec fn view(&self) -> FormModell {
        FormModell { actor: self.actor@, target: opt_seq(self.target) }
    }
}

impl View for ClientMessage {
    type V = NachrichtModell;

    open spec fn view(&self) -> NachrichtModell {
        match self {
            ClientMessage::StartGame => NachrichtModell::StartGame,
            ClientMessage::ResetGame => NachrichtModell::ResetGame,
            ClientMessage::IngameBereit { username, ready } => NachrichtModell::IngameBereit {
                username: username@,
                ready: *ready,
            },
            ClientMessage::AddUser { username } => NachrichtModell::AddUser { username: username@ },
            ClientMessage::ReadyStatus { username, ready } => NachrichtModell::ReadyStatus {
                username: username@,
                ready: *ready,
            },
            ClientMessage::TagAction { direction } => NachrichtModell::TagAction { direction: direction@ },
            ClientMessage::WerwolfAction { direction } => NachrichtModell::WerwolfAction { direction: direction@ },
            ClientMessage::SeherAction { actor, target } => NachrichtModell::SeherAction {
                actor: actor@,
                target: target@,
            },
            ClientMessage::HexenAction { direction, hexenAktion, extra_target } => NachrichtModell::HexenAction {
                direction: direction@,
                aktion: *hexenAktion,
                extra_target: extra_target@,
            },
            ClientMessage::AmorAction { actor, target1, target2 } => NachrichtModell::AmorAction {
                actor: actor@,
                target1: target1@,
                target2: target2@,
            },
            ClientMessage::DoktorAction { direction } => NachrichtModell::DoktorAction { direction: direction@ },
            ClientMessage::PriesterAction { actor, target } => NachrichtModell::PriesterAction {
                actor: actor@,
                target: opt_seq(*target),
            },
            ClientMessage::JaegerAction { actor, target } => NachrichtModell::JaegerAction {
                actor: actor@,
                target: opt_seq(*target),
            },
            ClientMessage::ChatMessage { sender, message } => NachrichtModell::ChatMessage {
                sender: sender@,
                message: message@,
            },
        }
    }
}

/// The characters that Unicode gives the White_Space property, those that
/// separate the words of a message.
pub open spec fn ist_leerzeichen_spec(c: char) -> bool {
    ||| '\u{9}' <= c <= '\u{d}'
    ||| c == ' '
    ||| c == '\u{85}'
    ||| c == '\u{a0}'
    ||| c == '\u{1680}'
    ||| '\u{2000}' <= c <= '\u{200a}'
    ||| c == '\u{2028}'
    ||| c == '\u{2029}'
    ||| c == '\u{202f}'
    ||| c == '\u{205f}'
    ||| c == '\u{3000}'
}

/// The words of `s` found so far, and the word still being read.
pub open spec fn zerlegung(s: Seq<char>) -> (Seq<Seq<char>>, Seq<char>)
    decreases s.len(),
{
    if s.len() == 0 {
        (Seq::empty(), Seq::empty())
    } else {
        let (w, c) = zerlegung(s.drop_last());
        if ist_leerzeichen_spec(s.last()) {
            (if c.len() > 0 { w.push(c) } else { w }, Seq::empty())
        } else {
            (w, c.push(s.last()))
        }
    }
}

/// The words of `s`: its maximal runs of characters other than white space.
pub open spec fn woerter(s: Seq<char>) -> Seq<Seq<char>> {
    let (w, c) = zerlegung(s);
    if c.len() > 0 {
        w.push(c)
    } else {
        w
    }
}

/// The words joined by single spaces.
pub open spec fn verbunden(w: Seq<Seq<char>>) -> Seq<char>
    decreases w.len(),
{
    if w.len() == 0 {
        Seq::empty()
    } else if w.len() == 1 {
        w[0]
    } else {
        verbunden(w.drop_last()) + seq![' '] + w.last()
    }
}

/// The message that a line of text stands for: a keyword followed by its
/// words, as the test scripts of games write them. `Priester` takes an
/// optional target, `Chat` the rest of the line as the message.
pub open spec fn nachricht_aus(s: Seq<char>) -> Result<NachrichtModell, Seq<char>> {
    let w = woerter(s);
    if w.len() == 1 && w[0] == "StartGame"@ {
        Ok(NachrichtModell::StartGame)
    } else if w.len() == 1 && w[0] == "ResetGame"@ {
        Ok(NachrichtModell::ResetGame)
    } else if w.len() == 2 && w[0] == "AddUser"@ {
        Ok(NachrichtModell::AddUser { username: w[1] })
    } else if w.len() == 2 && w[0] == "IngameBereit"@ {
        Ok(NachrichtModell::IngameBereit { username: w[1], ready: true })
    } else if w.len() == 4 && w[0] == "ReadyStatus"@ {
        if w[3] == "true"@ {
            Ok(NachrichtModell::ReadyStatus { username: w[1], ready: true })
        } else if w[3] == "false"@ {
            Ok(NachrichtModell::ReadyStatus { username: w[1], ready: false })
        } else {
            Err("Invalid bool for ready status"@)
        }
    } else if w.len() == 3 && w[0] == "TagAction"@ {
        Ok(NachrichtModell::TagAction { direction: FormModell { actor: w[1], target: Some(w[2]) } })
    } else if w.len() == 3 && w[0] == "Werwolf"@ {
        Ok(NachrichtModell::WerwolfAction { direction: FormModell { actor: w[1], target: Some(w[2]) } })
    } else if w.len() == 3 && w[0] == "Seher"@ {
        Ok(NachrichtModell::SeherAction { actor: w[1], target: w[2] })
    } else if w.len() == 4 && w[0] == "Hexe"@ {
        let aktion = if w[1] == "heilt"@ {
            Some(HexenAktion::Heilen)
        } else if w[1] == "vergiftet"@ {
            Some(HexenAktion::Vergiften)
        } else if w[1] == "tut_nichts"@ {
            Some(HexenAktion::NichtsTun)
        } else {
            None
        };
        match aktion {
            Some(a) => Ok(
                NachrichtModell::HexenAction {
                    direction: FormModell { actor: w[2], target: Some("None"@) },
                    aktion: a,
                    extra_target: w[3],
                },
            ),
            None => Err("ungültige Hexenaktion"@),
        }
    } else if w.len() == 4 && w[0] == "Amor"@ {
        Ok(NachrichtModell::AmorAction { actor: w[1], target1: w[2], target2: w[3] })
    } else if w.len() == 3 && w[0] == "Doktor"@ {
        Ok(NachrichtModell::DoktorAction { direction: FormModell { actor: w[1], target: Some(w[2]) } })
    } else if w.len() >= 2 && w[0] == "Priester"@ {
        Ok(
            NachrichtModell::PriesterAction {
                actor: w[1],
                target: if w.len() == 2 {
                    None
                } else {
                    Some(w[2])
                },
            },
        )
    } else if w.len() >= 2 && w[0] == "Chat"@ {
        Ok(NachrichtModell::ChatMessage { sender: w[1], message: verbunden(w.skip(2)) })
    } else {
        Err("Invalid action format: '"@ + s + "'"@)
    }
}

/// `w` is a word: not empty, and without white space.
pub open spec fn ein_wort(w: Seq<char>) -> bool {
    w.len() > 0 && forall|i: int| 0 <= i < w.len() ==> !ist_leerzeichen_spec(#[trigger] w[i])
}

/// Characters without white space only lengthen the word being read.
pub proof fn lemma_zerlegung_anhaengen(s: Seq<char>, w: Seq<char>)
    requires
        forall|i: int| 0 <= i < w.len() ==> !ist_leerzeichen_spec(#[trigger] w[i]),
    ensures
        zerlegung(s + w) == (zerlegung(s).0, zerlegung(s).1 + w),
    decreases w.len(),
{
    if w.len() == 0 {
        assert(s + w =~= s);
        assert(zerlegung(s).1 + w =~= zerlegung(s).1);
    } else {
        let v = w.drop_last();
        lemma_zerlegung_anhaengen(s, v);
        assert((s + w).drop_last() =~= s + v);
        assert((s + w).last() == w.last());
        assert(zerlegung(s).1 + w =~= (zerlegung(s).1 + v).push(w.last()));
    }
}

/// The words joined by single spaces, split again, are the words.
pub proof fn lemma_zerlegung_verbunden(ws: Seq<Seq<char>>)
    requires
        ws.len() >= 1,
        forall|i: int| 0 <= i < ws.len() ==> ein_wort(#[trigger] ws[i]),
    ensures
        zerlegung(verbunden(ws)) == (ws.drop_last(), ws.last()),
    decreases ws.len(),
{
    if ws.len() == 1 {
        lemma_zerlegung_anhaengen(Seq::empty(), ws[0]);
        assert(Seq::<char>::empty() + ws[0] =~= ws[0]);
        assert(ws.drop_last() =~= Seq::<Seq<char>>::empty());
        assert(zerlegung(Seq::<char>::empty()).1 + ws[0] =~= ws[0]);
    } else {
        let vorne = ws.drop_last();
        assert forall|i: int| 0 <= i < vorne.len() implies ein_wort(#[trigger] vorne[i]) by {
            assert(vorne[i] == ws[i]);
        }
        lemma_zerlegung_verbunden(vorne);
        let t = verbunden(vorne);
        let mit = t + seq![' '];
        assert(mit =~= t.push(' '));
        assert(mit.drop_last() =~= t);
        assert(mit.last() == ' ');
        assert(ist_leerzeichen_spec(' '));
        assert(ein_wort(vorne.last()));
        assert(vorne.drop_last().push(vorne.last()) =~= vorne);
        assert(zerlegung(mit) == (vorne, Seq::<char>::empty()));
        assert(ein_wort(ws.last()));
        lemma_zerlegung_anhaengen(mit, ws.last());
        assert(Seq::<char>::empty() + ws.last() =~= ws.last());
    }
}

/// The words joined by single spaces are read back as the same words.
pub proof fn lemma_woerter_verbunden(ws: Seq<Seq<char>>)
    requires
        ws.len() >= 1,
        forall|i: int| 0 <= i < ws.len() ==> ein_wort(#[trigger] ws[i]),
    ensures
        woerter(verbunden(ws)) == ws,
{
    lemma_zerlegung_verbunden(ws);
    assert(ein_wort(ws.last()));
    assert(ws.drop_last().push(ws.last()) =~= ws);
}

proof fn zeile_start()
    ensures
        nachricht_aus(verbunden(seq!["StartGame"@])) == Ok::<NachrichtModell, Seq<char>>(NachrichtModell::StartGame),
{
    reveal_strlit("StartGame");
    reveal_strlit("ResetGame");
    reveal_strlit("AddUser");
    reveal_strlit("IngameBereit");
    reveal_strlit("ReadyStatus");
    reveal_strlit("true");
    reveal_strlit("false");
    reveal_strlit("TagAction");
    reveal_strlit("Werwolf");
    reveal_strlit("Seher");
    reveal_strlit("Hexe");
    reveal_strlit("heilt");
    reveal_strlit("vergiftet");
    reveal_strlit("tut_nichts");
    reveal_strlit("Amor");
    reveal_strlit("Doktor");
    reveal_strlit("Priester");
    reveal_strlit("Chat");
    reveal_strlit("None");
    let ws = seq!["StartGame"@];
    assert(ein_wort("StartGame"@));
    assert forall|i: int| 0 <= i < ws.len() implies ein_wort(#[trigger] ws[i]) by {
        if i == 0 {
            assert(ws[0] == "StartGame"@);
        }
    }
    lemma_woerter_verbunden(ws);
    assert(woerter(verbunden(ws)) == ws);
}

proof fn zeile_reset()
    ensures
        nachricht_aus(verbunden(seq!["ResetGame"@])) == Ok::<NachrichtModell, Seq<char>>(NachrichtModell::ResetGame),
{
    reveal_strlit("StartGame");
    reveal_strlit("ResetGame");
    reveal_strlit("AddUser");
    reveal_strlit("IngameBereit");
    reveal_strlit("ReadyStatus");
    reveal_strlit("true");
    reveal_strlit("false");
    reveal_strlit("TagAction");
    reveal_strlit("Werwolf");
    reveal_strlit("Seher");
    reveal_strlit("Hexe");
    reveal_strlit("heilt");
    reveal_strlit("vergiftet");
    reveal_strlit("tut_nichts");
    reveal_strlit("Amor");
    reveal_strlit("Doktor");
    reveal_strlit("Priester");
    reveal_strlit("Chat");
    reveal_strlit("None");
    let ws = seq!["ResetGame"@];
    assert("ResetGame"@[0] != "StartGame"@[0]);
    assert(ein_wort("ResetGame"@));
    assert forall|i: int| 0 <= i < ws.len() implies ein_wort(#[trigger] ws[i]) by {
        if i == 0 {
            assert(ws[0] == "ResetGame"@);
        }
    }
    lemma_woerter_verbunden(ws);
    assert(woerter(verbunden(ws)) == ws);
}

proof fn zeile_add(a: Seq<char>)
    requires
        ein_wort(a),
    ensures
        nachricht_aus(verbunden(seq!["AddUser"@, a])) == Ok::<NachrichtModell, Seq<char>>(NachrichtModell::AddUser { username: a }),
{
    reveal_strlit("StartGame");
    reveal_strlit("ResetGame");
    reveal_strlit("AddUser");
    reveal_strlit("IngameBereit");
    reveal_strlit("ReadyStatus");
    reveal_strlit("true");
    reveal_strlit("false");
    reveal_strlit("TagAction");
    reveal_strlit("Werwolf");
    reveal_strlit("Seher");
    reveal_strlit("Hexe");
    reveal_strlit("heilt");
    reveal_strlit("vergiftet");
    reveal_strlit("tut_nichts");
    reveal_strlit("Amor");
    reveal_strlit("Doktor");
    reveal_strlit("Priester");
    reveal_strlit("Chat");
    reveal_strlit("None");
    let ws = seq!["AddUser"@, a];
    assert(ein_wort("AddUser"@));
    assert forall|i: int| 0 <= i < ws.len() implies ein_wort(#[trigger] ws[i]) by {
        if i == 0 {
            assert(ws[0] == "AddUser"@);
        } else if i == 1 {
            assert(ws[1] == a);
        }
    }
    lemma_woerter_verbunden(ws);
    assert(woerter(verbunden(ws)) == ws);
}

proof fn zeile_ingame(a: Seq<char>)
    requires
        ein_wort(a),
    ensures
        nachricht_aus(verbunden(seq!["IngameBereit"@, a])) == Ok::<NachrichtModell, Seq<char>>(NachrichtModell::IngameBereit { username: a, ready: true }),
{
    reveal_strlit("StartGame");
    reveal_strlit("ResetGame");
    reveal_strlit("AddUser");
    reveal_strlit("IngameBereit");
    reveal_strlit("ReadyStatus");
    reveal_strlit("true");
    reveal_strlit("false");
    reveal_strlit("TagAction");
    reveal_strlit("Werwolf");
    reveal_strlit("Seher");
    reveal_strlit("Hexe");
    reveal_strlit("heilt");
    reveal_strlit("vergiftet");
    reveal_strlit("tut_nichts");
    reveal_strlit("Amor");
    reveal_strlit("Doktor");
    reveal_strlit("Priester");
    reveal_strlit("Chat");
    reveal_strlit("None");
    let ws = seq!["IngameBereit"@, a];
    assert(ein_wort("IngameBereit"@));
    assert forall|i: int| 0 <= i < ws.len() implies ein_wort(#[trigger] ws[i]) by {
        if i == 0 {
            assert(ws[0] == "IngameBereit"@);
        } else if i == 1 {
            assert(ws[1] == a);
        }
    }
    lemma_woerter_verbunden(ws);
    assert(woerter(verbunden(ws)) == ws);
}

proof fn zeile_bereit(a: Seq<char>, x: Seq<char>)
    requires
        ein_wort(a),
        ein_wort(x),
    ensures
        nachricht_aus(verbunden(seq!["ReadyStatus"@, a, x, "true"@])) == Ok::<NachrichtModell, Seq<char>>(NachrichtModell::ReadyStatus { username: a, ready: true }),
{
    reveal_strlit("StartGame");
    reveal_strlit("ResetGame");
    reveal_strlit("AddUser");
    reveal_strlit("IngameBereit");
    reveal_strlit("ReadyStatus");
    reveal_strlit("true");
    reveal_strlit("false");
    reveal_strlit("TagAction");
    reveal_strlit("Werwolf");
    reveal_strlit("Seher");
    reveal_strlit("Hexe");
    reveal_strlit("heilt");
    reveal_strlit("vergiftet");
    reveal_strlit("tut_nichts");
    reveal_strlit("Amor");
    reveal_strlit("Doktor");
    reveal_strlit("Priester");
    reveal_strlit("Chat");
    reveal_strlit("None");
    let ws = seq!["ReadyStatus"@, a, x, "true"@];
    assert(ein_wort("ReadyStatus"@));
    assert(ein_wort("true"@));
    assert forall|i: int| 0 <= i < ws.len() implies ein_wort(#[trigger] ws[i]) by {
        if i == 0 {
            assert(ws[0] == "ReadyStatus"@);
        } else if i == 1 {
            assert(ws[1] == a);
        } else if i == 2 {
            assert(ws[2] == x);
        } else if i == 3 {
            assert(ws[3] == "true"@);
        }
    }
    lemma_woerter_verbunden(ws);
    assert(woerter(verbunden(ws)) == ws);
}

proof fn zeile_nicht_bereit(a: Seq<char>, x: Seq<char>)
    requires
        ein_wort(a),
        ein_wort(x),
    ensures
        nachricht_aus(verbunden(seq!["ReadyStatus"@, a, x, "false"@])) == Ok::<NachrichtModell, Seq<char>>(NachrichtModell::ReadyStatus { username: a, ready: false }),
{
    reveal_strlit("StartGame");
    reveal_strlit("ResetGame");
    reveal_strlit("AddUser");
    reveal_strlit("IngameBereit");
    reveal_strlit("ReadyStatus");
    reveal_strlit("true");
    reveal_strlit("false");
    reveal_strlit("TagAction");
    reveal_strlit("Werwolf");
    reveal_strlit("Seher");
    reveal_strlit("Hexe");
    reveal_strlit("heilt");
    reveal_strlit("vergiftet");
    reveal_strlit("tut_nichts");
    reveal_strlit("Amor");
    reveal_strlit("Doktor");
    reveal_strlit("Priester");
    reveal_strlit("Chat");
    reveal_strlit("None");
    let ws = seq!["ReadyStatus"@, a, x, "false"@];
    assert(ein_wort("ReadyStatus"@));
    assert(ein_wort("false"@));
    assert forall|i: int| 0 <= i < ws.len() implies ein_wort(#[trigger] ws[i]) by {
        if i == 0 {
            assert(ws[0] == "ReadyStatus"@);
        } else if i == 1 {
            assert(ws[1] == a);
        } else if i == 2 {
            assert(ws[2] == x);
        } else if i == 3 {
            assert(ws[3] == "false"@);
        }
    }
    lemma_woerter_verbunden(ws);
    assert(woerter(verbunden(ws)) == ws);
}

proof fn zeile_tag(a: Seq<char>, t: Seq<char>)
    requires
        ein_wort(a),
        ein_wort(t),
    ensures
        nachricht_aus(verbunden(seq!["TagAction"@, a, t])) == Ok::<NachrichtModell, Seq<char>>(NachrichtModell::TagAction { direction: FormModell { actor: a, target: Some(t) } }),
{
    reveal_strlit("StartGame");
    reveal_strlit("ResetGame");
    reveal_strlit("AddUser");
    reveal_strlit("IngameBereit");
    reveal_strlit("ReadyStatus");
    reveal_strlit("true");
    reveal_strlit("false");
    reveal_strlit("TagAction");
    reveal_strlit("Werwolf");
    reveal_strlit("Seher");
    reveal_strlit("Hexe");
    reveal_strlit("heilt");
    reveal_strlit("vergiftet");
    reveal_strlit("tut_nichts");
    reveal_strlit("Amor");
    reveal_strlit("Doktor");
    reveal_strlit("Priester");
    reveal_strlit("Chat");
    reveal_strlit("None");
    let ws = seq!["TagAction"@, a, t];
    assert(ein_wort("TagAction"@));
    assert forall|i: int| 0 <= i < ws.len() implies ein_wort(#[trigger] ws[i]) by {
        if i == 0 {
            assert(ws[0] == "TagAction"@);
        } else if i == 1 {
            assert(ws[1] == a);
        } else if i == 2 {
            assert(ws[2] == t);
        }
    }
    lemma_woerter_verbunden(ws);
    assert(woerter(verbunden(ws)) == ws);
}

proof fn zeile_werwolf(a: Seq<char>, t: Seq<char>)
    requires
        ein_wort(a),
        ein_wort(t),
    ensures
        nachricht_aus(verbunden(seq!["Werwolf"@, a, t])) == Ok::<NachrichtModell, Seq<char>>(NachrichtModell::WerwolfAction { direction: FormModell { actor: a, target: Some(t) } }),
{
    reveal_strlit("StartGame");
    reveal_strlit("ResetGame");
    reveal_strlit("AddUser");
    reveal_strlit("IngameBereit");
    reveal_strlit("ReadyStatus");
    reveal_strlit("true");
    reveal_strlit("false");
    reveal_strlit("TagAction");
    reveal_strlit("Werwolf");
    reveal_strlit("Seher");
    reveal_strlit("Hexe");
    reveal_strlit("heilt");
    reveal_strlit("vergiftet");
    reveal_strlit("tut_nichts");
    reveal_strlit("Amor");
    reveal_strlit("Doktor");
    reveal_strlit("Priester");
    reveal_strlit("Chat");
    reveal_strlit("None");
    let ws = seq!["Werwolf"@, a, t];
    assert(ein_wort("Werwolf"@));
    assert forall|i: int| 0 <= i < ws.len() implies ein_wort(#[trigger] ws[i]) by {
        if i == 0 {
            assert(ws[0] == "Werwolf"@);
        } else if i == 1 {
            assert(ws[1] == a);
        } else if i == 2 {
            assert(ws[2] == t);
        }
    }
    lemma_woerter_verbunden(ws);
    assert(woerter(verbunden(ws)) == ws);
}

proof fn zeile_seher(a: Seq<char>, t: Seq<char>)
    requires
        ein_wort(a),
        ein_wort(t),
    ensures
        nachricht_aus(verbunden(seq!["Seher"@, a, t])) == Ok::<NachrichtModell, Seq<char>>(NachrichtModell::SeherAction { actor: a, target: t }),
{
    reveal_strlit("StartGame");
    reveal_strlit("ResetGame");
    reveal_strlit("AddUser");
    reveal_strlit("IngameBereit");
    reveal_strlit("ReadyStatus");
    reveal_strlit("true");
    reveal_strlit("false");
    reveal_strlit("TagAction");
    reveal_strlit("Werwolf");
    reveal_strlit("Seher");
    reveal_strlit("Hexe");
    reveal_strlit("heilt");
    reveal_strlit("vergiftet");
    reveal_strlit("tut_nichts");
    reveal_strlit("Amor");
    reveal_strlit("Doktor");
    reveal_strlit("Priester");
    reveal_strlit("Chat");
    reveal_strlit("None");
    let ws = seq!["Seher"@, a, t];
    assert(ein_wort("Seher"@));
    assert forall|i: int| 0 <= i < ws.len() implies ein_wort(#[trigger] ws[i]) by {
        if i == 0 {
            assert(ws[0] == "Seher"@);
        } else if i == 1 {
            assert(ws[1] == a);
        } else if i == 2 {
            assert(ws[2] == t);
        }
    }
    lemma_woerter_verbunden(ws);
    assert(woerter(verbunden(ws)) == ws);
}

proof fn zeile_doktor(a: Seq<char>, t: Seq<char>)
    requires
        ein_wort(a),
        ein_wort(t),
    ensures
        nachricht_aus(verbunden(seq!["Doktor"@, a, t])) == Ok::<NachrichtModell, Seq<char>>(NachrichtModell::DoktorAction { direction: FormModell { actor: a, target: Some(t) } }),
{
    reveal_strlit("StartGame");
    reveal_strlit("ResetGame");
    reveal_strlit("AddUser");
    reveal_strlit("IngameBereit");
    reveal_strlit("ReadyStatus");
    reveal_strlit("true");
    reveal_strlit("false");
    reveal_strlit("TagAction");
    reveal_strlit("Werwolf");
    reveal_strlit("Seher");
    reveal_strlit("Hexe");
    reveal_strlit("heilt");
    reveal_strlit("vergiftet");
    reveal_strlit("tut_nichts");
    reveal_strlit("Amor");
    reveal_strlit("Doktor");
    reveal_strlit("Priester");
    reveal_strlit("Chat");
    reveal_strlit("None");
    let ws = seq!["Doktor"@, a, t];
    assert(ein_wort("Doktor"@));
    assert forall|i: int| 0 <= i < ws.len() implies ein_wort(#[trigger] ws[i]) by {
        if i == 0 {
            assert(ws[0] == "Doktor"@);
        } else if i == 1 {
            assert(ws[1] == a);
        } else if i == 2 {
            assert(ws[2] == t);
        }
    }
    lemma_woerter_verbunden(ws);
    assert(woerter(verbunden(ws)) == ws);
}

proof fn zeile_amor(a: Seq<char>, t: Seq<char>, u: Seq<char>)
    requires
        ein_wort(a),
        ein_wort(t),
        ein_wort(u),
    ensures
        nachricht_aus(verbunden(seq!["Amor"@, a, t, u])) == Ok::<NachrichtModell, Seq<char>>(NachrichtModell::AmorAction { actor: a, target1: t, target2: u }),
{
    reveal_strlit("StartGame");
    reveal_strlit("ResetGame");
    reveal_strlit("AddUser");
    reveal_strlit("IngameBereit");
    reveal_strlit("ReadyStatus");
    reveal_strlit("true");
    reveal_strlit("false");
    reveal_strlit("TagAction");
    reveal_strlit("Werwolf");
    reveal_strlit("Seher");
    reveal_strlit("Hexe");
    reveal_strlit("heilt");
    reveal_strlit("vergiftet");
    reveal_strlit("tut_nichts");
    reveal_strlit("Amor");
    reveal_strlit("Doktor");
    reveal_strlit("Priester");
    reveal_strlit("Chat");
    reveal_strlit("None");
    let ws = seq!["Amor"@, a, t, u];
    assert("Amor"@[0] != "Hexe"@[0]);
    assert(ein_wort("Amor"@));
    assert forall|i: int| 0 <= i < ws.len() implies ein_wort(#[trigger] ws[i]) by {
        if i == 0 {
            assert(ws[0] == "Amor"@);
        } else if i == 1 {
            assert(ws[1] == a);
        } else if i == 2 {
            assert(ws[2] == t);
        } else if i == 3 {
            assert(ws[3] == u);
        }
    }
    lemma_woerter_verbunden(ws);
    assert(woerter(verbunden(ws)) == ws);
}

proof fn zeile_heilt(a: Seq<char>, t: Seq<char>)
    requires
        ein_wort(a),
        ein_wort(t),
    ensures
        nachricht_aus(verbunden(seq!["Hexe"@, "heilt"@, a, t])) == Ok::<NachrichtModell, Seq<char>>(NachrichtModell::HexenAction { direction: FormModell { actor: a, target: Some("None"@) }, aktion: HexenAktion::Heilen, extra_target: t }),
{
    reveal_strlit("StartGame");
    reveal_strlit("ResetGame");
    reveal_strlit("AddUser");
    reveal_strlit("IngameBereit");
    reveal_strlit("ReadyStatus");
    reveal_strlit("true");
    reveal_strlit("false");
    reveal_strlit("TagAction");
    reveal_strlit("Werwolf");
    reveal_strlit("Seher");
    reveal_strlit("Hexe");
    reveal_strlit("heilt");
    reveal_strlit("vergiftet");
    reveal_strlit("tut_nichts");
    reveal_strlit("Amor");
    reveal_strlit("Doktor");
    reveal_strlit("Priester");
    reveal_strlit("Chat");
    reveal_strlit("None");
    let ws = seq!["Hexe"@, "heilt"@, a, t];
    assert(ein_wort("Hexe"@));
    assert(ein_wort("heilt"@));
    assert forall|i: int| 0 <= i < ws.len() implies ein_wort(#[trigger] ws[i]) by {
        if i == 0 {
            assert(ws[0] == "Hexe"@);
        } else if i == 1 {
            assert(ws[1] == "heilt"@);
        } else if i == 2 {
            assert(ws[2] == a);
        } else if i == 3 {
            assert(ws[3] == t);
        }
    }
    lemma_woerter_verbunden(ws);
    assert(woerter(verbunden(ws)) == ws);
}

proof fn zeile_vergiftet(a: Seq<char>, t: Seq<char>)
    requires
        ein_wort(a),
        ein_wort(t),
    ensures
        nachricht_aus(verbunden(seq!["Hexe"@, "vergiftet"@, a, t])) == Ok::<NachrichtModell, Seq<char>>(NachrichtModell::HexenAction { direction: FormModell { actor: a, target: Some("None"@) }, aktion: HexenAktion::Vergiften, extra_target: t }),
{
    reveal_strlit("StartGame");
    reveal_strlit("ResetGame");
    reveal_strlit("AddUser");
    reveal_strlit("IngameBereit");
    reveal_strlit("ReadyStatus");
    reveal_strlit("true");
    reveal_strlit("false");
    reveal_strlit("TagAction");
    reveal_strlit("Werwolf");
    reveal_strlit("Seher");
    reveal_strlit("Hexe");
    reveal_strlit("heilt");
    reveal_strlit("vergiftet");
    reveal_strlit("tut_nichts");
    reveal_strlit("Amor");
    reveal_strlit("Doktor");
    reveal_strlit("Priester");
    reveal_strlit("Chat");
    reveal_strlit("None");
    let ws = seq!["Hexe"@, "vergiftet"@, a, t];
    assert(ein_wort("Hexe"@));
    assert(ein_wort("vergiftet"@));
    assert forall|i: int| 0 <= i < ws.len() implies ein_wort(#[trigger] ws[i]) by {
        if i == 0 {
            assert(ws[0] == "Hexe"@);
        } else if i == 1 {
            assert(ws[1] == "vergiftet"@);
        } else if i == 2 {
            assert(ws[2] == a);
        } else if i == 3 {
            assert(ws[3] == t);
        }
    }
    lemma_woerter_verbunden(ws);
    assert(woerter(verbunden(ws)) == ws);
}

proof fn zeile_tut_nichts(a: Seq<char>, t: Seq<char>)
    requires
        ein_wort(a),
        ein_wort(t),
    ensures
        nachricht_aus(verbunden(seq!["Hexe"@, "tut_nichts"@, a, t])) == Ok::<NachrichtModell, Seq<char>>(NachrichtModell::HexenAction { direction: FormModell { actor: a, target: Some("None"@) }, aktion: HexenAktion::NichtsTun, extra_target: t }),
{
    reveal_strlit("StartGame");
    reveal_strlit("ResetGame");
    reveal_strlit("AddUser");
    reveal_strlit("IngameBereit");
    reveal_strlit("ReadyStatus");
    reveal_strlit("true");
    reveal_strlit("false");
    reveal_strlit("TagAction");
    reveal_strlit("Werwolf");
    reveal_strlit("Seher");
    reveal_strlit("Hexe");
    reveal_strlit("heilt");
    reveal_strlit("vergiftet");
    reveal_strlit("tut_nichts");
    reveal_strlit("Amor");
    reveal_strlit("Doktor");
    reveal_strlit("Priester");
    reveal_strlit("Chat");
    reveal_strlit("None");
    let ws = seq!["Hexe"@, "tut_nichts"@, a, t];
    assert(ein_wort("Hexe"@));
    assert(ein_wort("tut_nichts"@));
    assert forall|i: int| 0 <= i < ws.len() implies ein_wort(#[trigger] ws[i]) by {
        if i == 0 {
            assert(ws[0] == "Hexe"@);
        } else if i == 1 {
            assert(ws[1] == "tut_nichts"@);
        } else if i == 2 {
            assert(ws[2] == a);
        } else if i == 3 {
            assert(ws[3] == t);
        }
    }
    lemma_woerter_verbunden(ws);
    assert(woerter(verbunden(ws)) == ws);
}

proof fn zeile_priester(a: Seq<char>)
    requires
        ein_wort(a),
    ensures
        nachricht_aus(verbunden(seq!["Priester"@, a])) == Ok::<NachrichtModell, Seq<char>>(NachrichtModell::PriesterAction { actor: a, target: None }),
{
    reveal_strlit("StartGame");
    reveal_strlit("ResetGame");
    reveal_strlit("AddUser");
    reveal_strlit("IngameBereit");
    reveal_strlit("ReadyStatus");
    reveal_strlit("true");
    reveal_strlit("false");
    reveal_strlit("TagAction");
    reveal_strlit("Werwolf");
    reveal_strlit("Seher");
    reveal_strlit("Hexe");
    reveal_strlit("heilt");
    reveal_strlit("vergiftet");
    reveal_strlit("tut_nichts");
    reveal_strlit("Amor");
    reveal_strlit("Doktor");
    reveal_strlit("Priester");
    reveal_strlit("Chat");
    reveal_strlit("None");
    let ws = seq!["Priester"@, a];
    assert(ein_wort("Priester"@));
    assert forall|i: int| 0 <= i < ws.len() implies ein_wort(#[trigger] ws[i]) by {
        if i == 0 {
            assert(ws[0] == "Priester"@);
        } else if i == 1 {
            assert(ws[1] == a);
        }
    }
    lemma_woerter_verbunden(ws);
    assert(woerter(verbunden(ws)) == ws);
}

proof fn zeile_priester_ziel(a: Seq<char>, t: Seq<char>)
    requires
        ein_wort(a),
        ein_wort(t),
    ensures
        nachricht_aus(verbunden(seq!["Priester"@, a, t])) == Ok::<NachrichtModell, Seq<char>>(NachrichtModell::PriesterAction { actor: a, target: Some(t) }),
{
    reveal_strlit("StartGame");
    reveal_strlit("ResetGame");
    reveal_strlit("AddUser");
    reveal_strlit("IngameBereit");
    reveal_strlit("ReadyStatus");
    reveal_strlit("true");
    reveal_strlit("false");
    reveal_strlit("TagAction");
    reveal_strlit("Werwolf");
    reveal_strlit("Seher");
    reveal_strlit("Hexe");
    reveal_strlit("heilt");
    reveal_strlit("vergiftet");
    reveal_strlit("tut_nichts");
    reveal_strlit("Amor");
    reveal_strlit("Doktor");
    reveal_strlit("Priester");
    reveal_strlit("Chat");
    reveal_strlit("None");
    let ws = seq!["Priester"@, a, t];
    assert(ein_wort("Priester"@));
    assert forall|i: int| 0 <= i < ws.len() implies ein_wort(#[trigger] ws[i]) by {
        if i == 0 {
            assert(ws[0] == "Priester"@);
        } else if i == 1 {
            assert(ws[1] == a);
        } else if i == 2 {
            assert(ws[2] == t);
        }
    }
    lemma_woerter_verbunden(ws);
    assert(woerter(verbunden(ws)) == ws);
}

proof fn zeile_chat(a: Seq<char>, t: Seq<char>)
    requires
        ein_wort(a),
        ein_wort(t),
    ensures
        nachricht_aus(verbunden(seq!["Chat"@, a, t])) == Ok::<NachrichtModell, Seq<char>>(NachrichtModell::ChatMessage { sender: a, message: t }),
{
    reveal_strlit("StartGame");
    reveal_strlit("ResetGame");
    reveal_strlit("AddUser");
    reveal_strlit("IngameBereit");
    reveal_strlit("ReadyStatus");
    reveal_strlit("true");
    reveal_strlit("false");
    reveal_strlit("TagAction");
    reveal_strlit("Werwolf");
    reveal_strlit("Seher");
    reveal_strlit("Hexe");
    reveal_strlit("heilt");
    reveal_strlit("vergiftet");
    reveal_strlit("tut_nichts");
    reveal_strlit("Amor");
    reveal_strlit("Doktor");
    reveal_strlit("Priester");
    reveal_strlit("Chat");
    reveal_strlit("None");
    let ws = seq!["Chat"@, a, t];
    assert(ein_wort("Chat"@));
    assert forall|i: int| 0 <= i < ws.len() implies ein_wort(#[trigger] ws[i]) by {
        if i == 0 {
            assert(ws[0] == "Chat"@);
        } else if i == 1 {
            assert(ws[1] == a);
        } else if i == 2 {
            assert(ws[2] == t);
        }
    }
    lemma_woerter_verbunden(ws);
    assert(woerter(verbunden(ws)) == ws);
    assert(ws.skip(2) =~= seq![t]);
}

/// Law: the lines that name a player: `AddUser a` and `IngameBereit a` are
/// read for player `a`, `ReadyStatus a x true` and `ReadyStatus a x false`
/// as `a` being ready or not; a keyword alone starts or resets the game.
pub proof fn law_zeilen_eines_spielers(a: Seq<char>, x: Seq<char>)
    requires
        ein_wort(a),
        ein_wort(x),
    ensures
        nachricht_aus(verbunden(seq!["StartGame"@])) == Ok::<NachrichtModell, Seq<char>>(NachrichtModell::StartGame),
        nachricht_aus(verbunden(seq!["ResetGame"@])) == Ok::<NachrichtModell, Seq<char>>(NachrichtModell::ResetGame),
        nachricht_aus(verbunden(seq!["AddUser"@, a])) == Ok::<NachrichtModell, Seq<char>>(NachrichtModell::AddUser { username: a }),
        nachricht_aus(verbunden(seq!["IngameBereit"@, a])) == Ok::<NachrichtModell, Seq<char>>(NachrichtModell::IngameBereit { username: a, ready: true }),
        nachricht_aus(verbunden(seq!["ReadyStatus"@, a, x, "true"@])) == Ok::<NachrichtModell, Seq<char>>(NachrichtModell::ReadyStatus { username: a, ready: true }),
        nachricht_aus(verbunden(seq!["ReadyStatus"@, a, x, "false"@])) == Ok::<NachrichtModell, Seq<char>>(NachrichtModell::ReadyStatus { username: a, ready: false }),
{
    zeile_start();
    zeile_reset();
    zeile_add(a);
    zeile_ingame(a);
    zeile_bereit(a, x);
    zeile_nicht_bereit(a, x);
}

/// Law: the lines of an actor and a target: `TagAction a t`, `Werwolf a t`
/// and `Doktor a t` are read as the vote or protection of `a` for `t`,
/// `Seher a t` as the seer `a` looking at `t`, `Amor a t u` as Amor `a`
/// making `t` and `u` lovers.
pub proof fn law_zeilen_mit_ziel(a: Seq<char>, t: Seq<char>, u: Seq<char>)
    requires
        ein_wort(a),
        ein_wort(t),
        ein_wort(u),
    ensures
        nachricht_aus(verbunden(seq!["TagAction"@, a, t])) == Ok::<NachrichtModell, Seq<char>>(NachrichtModell::TagAction { direction: FormModell { actor: a, target: Some(t) } }),
        nachricht_aus(verbunden(seq!["Werwolf"@, a, t])) == Ok::<NachrichtModell, Seq<char>>(NachrichtModell::WerwolfAction { direction: FormModell { actor: a, target: Some(t) } }),
        nachricht_aus(verbunden(seq!["Seher"@, a, t])) == Ok::<NachrichtModell, Seq<char>>(NachrichtModell::SeherAction { actor: a, target: t }),
        nachricht_aus(verbunden(seq!["Doktor"@, a, t])) == Ok::<NachrichtModell, Seq<char>>(NachrichtModell::DoktorAction { direction: FormModell { actor: a, target: Some(t) } }),
        nachricht_aus(verbunden(seq!["Amor"@, a, t, u])) == Ok::<NachrichtModell, Seq<char>>(NachrichtModell::AmorAction { actor: a, target1: t, target2: u }),
{
    zeile_tag(a, t);
    zeile_werwolf(a, t);
    zeile_seher(a, t);
    zeile_doktor(a, t);
    zeile_amor(a, t, u);
}

/// Law: the lines of the witch, the priest and the chat: `Hexe heilt a t`,
/// `Hexe vergiftet a t` and `Hexe tut_nichts a t` are the witch `a` acting
/// with `t` as her extra target; `Priester a` throws at nobody, `Priester a
/// t` at `t`; `Chat a m` is the message `m` of `a`.
pub proof fn law_zeilen_hexe_priester_chat(a: Seq<char>, t: Seq<char>)
    requires
        ein_wort(a),
        ein_wort(t),
    ensures
        nachricht_aus(verbunden(seq!["Hexe"@, "heilt"@, a, t])) == Ok::<NachrichtModell, Seq<char>>(NachrichtModell::HexenAction { direction: FormModell { actor: a, target: Some("None"@) }, aktion: HexenAktion::Heilen, extra_target: t }),
        nachricht_aus(verbunden(seq!["Hexe"@, "vergiftet"@, a, t])) == Ok::<NachrichtModell, Seq<char>>(NachrichtModell::HexenAction { direction: FormModell { actor: a, target: Some("None"@) }, aktion: HexenAktion::Vergiften, extra_target: t }),
        nachricht_aus(verbunden(seq!["Hexe"@, "tut_nichts"@, a, t])) == Ok::<NachrichtModell, Seq<char>>(NachrichtModell::HexenAction { direction: FormModell { actor: a, target: Some("None"@) }, aktion: HexenAktion::NichtsTun, extra_target: t }),
        nachricht_aus(verbunden(seq!["Priester"@, a])) == Ok::<NachrichtModell, Seq<char>>(NachrichtModell::PriesterAction { actor: a, target: None }),
        nachricht_aus(verbunden(seq!["Priester"@, a, t])) == Ok::<NachrichtModell, Seq<char>>(NachrichtModell::PriesterAction { actor: a, target: Some(t) }),
        nachricht_aus(verbunden(seq!["Chat"@, a, t])) == Ok::<NachrichtModell, Seq<char>>(NachrichtModell::ChatMessage { sender: a, message: t }),
{
    zeile_heilt(a, t);
    zeile_vergiftet(a, t);
    zeile_tut_nichts(a, t);
    zeile_priester(a);
    zeile_priester_ziel(a, t);
    zeile_chat(a, t);
}

/// Whether `c` is white space (see `ist_leerzeichen_spec`).
pub fn ist_leerzeichen(c: char) -> (r: bool)
    ensures
        r == ist_leerzeichen_spec(c),
{
    ('\u{9}' <= c && c <= '\u{d}') || c == ' ' || c == '\u{85}' || c == '\u{a0}' || c == '\u{1680}' || ('\u{2000}'
        <= c && c <= '\u{200a}') || c == '\u{2028}' || c == '\u{2029}' || c == '\u{202f}' || c == '\u{205f}' || c
        == '\u{3000}'
}

/// Splits `s` into its words (see `woerter`).
pub fn woerter_von(s: &str) -> (r: Vec<String>)
    ensures
        r@.map_values(|w: String| w@) == woerter(s@),
{
    let n = s.unicode_len();
    let mut fertig: Vec<String> = Vec::new();
    let mut cur = String::new();
    let mut cur_len: usize = 0;
    let mut i: usize = 0;
    while i < n
        invariant
            i <= n,
            n == s@.len(),
            (fertig@.map_values(|w: String| w@), cur@) == zerlegung(s@.take(i as int)),
            cur_len == cur@.len(),
            cur_len <= i,
        decreases n - i,
    {
        let c = s.get_char(i);
        proof {
            assert(s@.take(i + 1).drop_last() =~= s@.take(i as int));
            assert(s@.take(i + 1).last() == c);
        }
        if ist_leerzeichen(c) {
            if cur_len > 0 {
                let ghost vorher = fertig@;
                fertig.push(cur);
                proof {
                    assert(fertig@.map_values(|w: String| w@) =~= vorher.map_values(|w: String| w@).push(
                        zerlegung(s@.take(i as int)).1,
                    ));
                }
            }
            cur = String::new();
            cur_len = 0;
        } else {
            let teil = s.substring_char(i, i + 1);
            proof {
                assert(teil@ =~= seq![c]);
            }
            cur.append(teil);
            cur_len = cur_len + 1;
        }
        i += 1;
    }
    proof {
        assert(s@.take(i as int) =~= s@);
    }
    if cur_len > 0 {
        let ghost vorher = fertig@;
        fertig.push(cur);
        proof {
            assert(fertig@.map_values(|w: String| w@) =~= vorher.map_values(|w: String| w@).push(
                zerlegung(s@).1,
            ));
        }
    }
    fertig
}

/// Whether `w` is exactly the text `lit`.
pub fn ist_wort(w: &String, lit: &str) -> (r: bool)
    ensures
        r == (w@ == lit@),
{
    let a = w.as_str();
    let n = a.unicode_len();
    if n != lit.unicode_len() {
        return false;
    }
    let mut i: usize = 0;
    while i < n
        invariant
            i <= n,
            n == a@.len(),
            n == lit@.len(),
            a@ == w@,
            forall|j: int| 0 <= j < i ==> a@[j] == lit@[j],
        decreases n - i,
    {
        if a.get_char(i) != lit.get_char(i) {
            return false;
        }
        i += 1;
    }
    assert(a@ =~= lit@);
    true
}

/// Joins the words from `ab` on with single spaces (see `verbunden`).
fn verbinde_ab(w: &Vec<String>, ab: usize) -> (r: String)
    requires
        ab <= w.len(),
    ensures
        r@ == verbunden(w@.map_values(|x: String| x@).skip(ab as int)),
{
    let ghost ws = w@.map_values(|x: String| x@).skip(ab as int);
    let mut r = String::new();
    let mut i: usize = ab;
    proof {
        reveal_strlit(" ");
        assert(ws.take(0) =~= Seq::<Seq<char>>::empty());
    }
    while i < w.len()
        invariant
            ab <= i <= w.len(),
            ws == w@.map_values(|x: String| x@).skip(ab as int),
            r@ == verbunden(ws.take(i - ab)),
            " "@ == seq![' '],
        decreases w.len() - i,
    {
        proof {
            assert(ws.take(i - ab + 1).drop_last() =~= ws.take(i - ab));
            assert(ws.take(i - ab + 1).last() == w@[i as int]@);
        }
        if i > ab {
            r.append(" ");
        }
        r.append(w[i].as_str());
        i += 1;
    }
    proof {
        assert(ws.take(i - ab) =~= ws);
    }
    r
}

/// Reads a message from a line of text (see `nachricht_aus`).
pub fn parse_client_message(s: &str) -> (r: Result<ClientMessage, String>)
    ensures
        match r {
            Ok(m) => nachricht_aus(s@) == Ok::<NachrichtModell, Seq<char>>(m@),
            Err(e) => nachricht_aus(s@) == Err::<NachrichtModell, Seq<char>>(e@),
        },
{
    let w = woerter_von(s);
    let ghost ws = w@.map_values(|x: String| x@);
    let n = w.len();
    proof {
        assert(ws.len() == n);
        assert forall|k: int| 0 <= k < n implies ws[k] == (#[trigger] w@[k])@ by {}
    }
    if n == 1 && ist_wort(&w[0], "StartGame") {
        return Ok(ClientMessage::StartGame);
    }
    if n == 1 && ist_wort(&w[0], "ResetGame") {
        return Ok(ClientMessage::ResetGame);
    }
    if n == 2 && ist_wort(&w[0], "AddUser") {
        return Ok(ClientMessage::AddUser { username: w[1].clone() });
    }
    if n == 2 && ist_wort(&w[0], "IngameBereit") {
        return Ok(ClientMessage::IngameBereit { username: w[1].clone(), ready: true });
    }
    if n == 4 && ist_wort(&w[0], "ReadyStatus") {
        if ist_wort(&w[3], "true") {
            return Ok(ClientMessage::ReadyStatus { username: w[1].clone(), ready: true });
        } else if ist_wort(&w[3], "false") {
            return Ok(ClientMessage::ReadyStatus { username: w[1].clone(), ready: false });
        } else {
            return Err("Invalid bool for ready status".to_owned());
        }
    }
    if n == 3 && ist_wort(&w[0], "TagAction") {
        return Ok(
            ClientMessage::TagAction {
                direction: ActionForm { actor: w[1].clone(), target: Some(w[2].clone()) },
            },
        );
    }
    if n == 3 && ist_wort(&w[0], "Werwolf") {
        return Ok(
            ClientMessage::WerwolfAction {
                direction: ActionForm { actor: w[1].clone(), target: Some(w[2].clone()) },
            },
        );
    }
    if n == 3 && ist_wort(&w[0], "Seher") {
        return Ok(ClientMessage::SeherAction { actor: w[1].clone(), target: w[2].clone() });
    }
    if n == 4 && ist_wort(&w[0], "Hexe") {
        let aktion = if ist_wort(&w[1], "heilt") {
            HexenAktion::Heilen
        } else if ist_wort(&w[1], "vergiftet") {
            HexenAktion::Vergiften
        } else if ist_wort(&w[1], "tut_nichts") {
            HexenAktion::NichtsTun
        } else {
            return Err("ungültige Hexenaktion".to_owned());
        };
        return Ok(
            ClientMessage::HexenAction {
                direction: ActionForm { actor: w[2].clone(), target: Some("None".to_owned()) },
                hexenAktion: aktion,
                extra_target: w[3].clone(),
            },
        );
    }
    if n == 4 && ist_wort(&w[0], "Amor") {
        return Ok(
            ClientMessage::AmorAction { actor: w[1].clone(), target1: w[2].clone(), target2: w[3].clone() },
        );
    }
    if n == 3 && ist_wort(&w[0], "Doktor") {
        return Ok(
            ClientMessage::DoktorAction {
                direction: ActionForm { actor: w[1].clone(), target: Some(w[2].clone()) },
            },
        );
    }
    if n >= 2 && ist_wort(&w[0], "Priester") {
        let target = if n == 2 {
            None
        } else {
            Some(w[2].clone())
        };
        return Ok(ClientMessage::PriesterAction { actor: w[1].clone(), target });
    }
    if n >= 2 && ist_wort(&w[0], "Chat") {
        let message = verbinde_ab(&w, 2);
        return Ok(ClientMessage::ChatMessage { sender: w[1].clone(), message });
    }
    let mut fehler = "Invalid action format: '".to_owned();
    fehler.append(s);
    fehler.append("'");
    Err(fehler)
}

impl std::str::FromStr for ClientMessage {
    type Err = String;

    /// Reads a message from a line of text (see `nachricht_aus`).
    fn from_str(s: &str) -> (r: Result<Self, Self::Err>)
        ensures
            match r {
                Ok(m) => nachricht_aus(s@) == Ok::<NachrichtModell, Seq<char>>(m@),
                Err(e) => nachricht_aus(s@) == Err::<NachrichtModell, Seq<char>>(e@),
            },
    {
        parse_client_message(s)
    }
}

} // verus!
