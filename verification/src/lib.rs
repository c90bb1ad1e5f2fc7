//! Rules of the party game "Werwolf": players, roles, night and day phases,
//! the deaths they cause and the votes that decide them.

pub mod rollen;
pub mod spiel;
pub mod tod;
pub mod phasen;
pub mod rollen_logik;
pub mod verteilung;
pub mod abstimmung;
pub mod nachrichten;
pub mod sitzung;
pub mod anzeige;
