//! The two SQLite pragmas that a caller may choose.

use vstd::prelude::*;
use crate::error::PackError;
use crate::text::same_text;

verus! {

/// The SQLite pragma `synchronous`.
#[derive(Clone, Copy, Debug, PartialEq, Eq, Structural)]
pub enum Synchronous {
    Off,
    Normal,
    Full,
    Extra,
}

/// The SQLite pragma `journal_mode`.
#[derive(Clone, Copy, Debug, PartialEq, Eq, Structural)]
pub enum Journal {
    Off,
    Delete,
    Truncate,
    Persist,
    Memory,
    Wal,
}

impl Synchronous {
    /// The word that SQLite knows the mode by.
    pub open spec fn text(self) -> Seq<char> {
        match self {
            Synchronous::Off => "off"@,
            Synchronous::Normal => "normal"@,
            Synchronous::Full => "full"@,
            Synchronous::Extra => "extra"@,
        }
    }

    /// The word that SQLite knows the mode by.
    pub fn to_string(&self) -> (s: String)
        ensures
            s@ == self.text(),
    {
        match self {
            Synchronous::Off => "off".to_owned(),
            Synchronous::Normal => "normal".to_owned(),
            Synchronous::Full => "full".to_owned(),
            Synchronous::Extra => "extra".to_owned(),
        }
    }

    /// The mode that `s` names; any other text is an unknown pragma value.
    pub fn from_str(s: &str) -> (r: Result<Synchronous, PackError>)
        ensures
            match r {
                Ok(mode) => mode.text() == s@,
                Err(error) => error matches PackError::Pragma(text) && text@ == s@
                    && forall|mode: Synchronous| mode.text() != s@,
            },
    {
        if same_text(s, "off") {
            Ok(Synchronous::Off)
        } else if same_text(s, "normal") {
            Ok(Synchronous::Normal)
        } else if same_text(s, "full") {
            Ok(Synchronous::Full)
        } else if same_text(s, "extra") {
            Ok(Synchronous::Extra)
        } else {
            Err(PackError::Pragma(s.to_owned()))
        }
    }

    /// No two modes go by the same word, so the word of a mode names that
    /// mode and no other.
    pub proof fn law_text_names_one_mode(a: Synchronous, b: Synchronous)
        ensures
            a.text() == b.text() ==> a == b,
    {
        reveal_strlit("off");
        reveal_strlit("normal");
        reveal_strlit("full");
        reveal_strlit("extra");
        if a != b && a.text() == b.text() {
            assert(a.text().len() == b.text().len());
            assert(a.text()[0] == b.text()[0]);
        }
    }
}

impl Journal {
    /// The word that SQLite knows the mode by.
    pub open spec fn text(self) -> Seq<char> {
        match self {
            Journal::Off => "off"@,
            Journal::Delete => "delete"@,
            Journal::Truncate => "truncate"@,
            Journal::Persist => "persist"@,
            Journal::Memory => "memory"@,
            Journal::Wal => "wal"@,
        }
    }

    /// The word that SQLite knows the mode by.
    pub fn to_string(&self) -> (s: String)
        ensures
            s@ == self.text(),
    {
        match self {
            Journal::Off => "off".to_owned(),
            Journal::Delete => "delete".to_owned(),
            Journal::Truncate => "truncate".to_owned(),
            Journal::Persist => "persist".to_owned(),
            Journal::Memory => "memory".to_owned(),
            Journal::Wal => "wal".to_owned(),
        }
    }

    /// The mode that `s` names; any other text is an unknown pragma value.
    pub fn from_str(s: &str) -> (r: Result<Journal, PackError>)
        ensures
            match r {
                Ok(mode) => mode.text() == s@,
                Err(error) => error matches PackError::Pragma(text) && text@ == s@
                    && forall|mode: Journal| mode.text() != s@,
            },
    {
        if same_text(s, "off") {
            Ok(Journal::Off)
        } else if same_text(s, "delete") {
            Ok(Journal::Delete)
        } else if same_text(s, "truncate") {
            Ok(Journal::Truncate)
        } else if same_text(s, "persist") {
            Ok(Journal::Persist)
        } else if same_text(s, "memory") {
            Ok(Journal::Memory)
        } else if same_text(s, "wal") {
            Ok(Journal::Wal)
        } else {
            Err(PackError::Pragma(s.to_owned()))
        }
    }

    /// No two modes go by the same word, so the word of a mode names that
    /// mode and no other.
    pub proof fn law_text_names_one_mode(a: Journal, b: Journal)
        ensures
            a.text() == b.text() ==> a == b,
    {
        reveal_strlit("off");
        reveal_strlit("delete");
        reveal_strlit("truncate");
        reveal_strlit("persist");
        reveal_strlit("memory");
        reveal_strlit("wal");
        if a != b && a.text() == b.text() {
            assert(a.text().len() == b.text().len());
            assert(a.text()[0] == b.text()[0]);
        }
    }
}

} // verus!
