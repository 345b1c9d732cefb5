//! Update targets as the director and the repository know them.

use vstd::prelude::*;

use crate::error::Error;
use crate::text::{concat, lower_of, lowercase, same_text};

verus! {

/// Packaging of an uploaded software artifact.
#[derive(PartialEq, Eq, Structural, Clone, Copy, Debug)]
pub enum TargetFormat {
    Binary,
    Ostree,
}

impl TargetFormat {
    /// The value that the lower-case word `w` names, if any.
    pub open spec fn named(w: Seq<char>) -> Option<TargetFormat> {
        if w == "binary"@ {
            Some(TargetFormat::Binary)
        } else if w == "ostree"@ {
            Some(TargetFormat::Ostree)
        } else {
            None
        }
    }

    /// The words that name a value, one for each.
    pub open spec fn words() -> Seq<Seq<char>> {
        seq!["binary"@, "ostree"@]
    }

    /// The message of the error for the unknown word `s`.
    pub open spec fn unknown_message(s: Seq<char>) -> Seq<char> {
        "unknown `TargetFormat`: "@ + s
    }

    /// `r` is what reading the word `s` gives, once lowered to `w`.
    pub open spec fn reads_as(w: Seq<char>, s: Seq<char>, r: Result<TargetFormat, Error>) -> bool {
        match TargetFormat::named(w) {
            Some(v) => r == Ok::<TargetFormat, Error>(v),
            None => r matches Err(e) && e.is_parse(TargetFormat::unknown_message(s)),
        }
    }

    /// Reads `w`, the lower-case form of the word `s` as given.
    pub fn from_lowercase(w: &str, s: &str) -> (r: Result<TargetFormat, Error>)
        ensures
            TargetFormat::reads_as(w@, s@, r),
    {
        if same_text(w, "binary") {
            Ok(TargetFormat::Binary)
        } else if same_text(w, "ostree") {
            Ok(TargetFormat::Ostree)
        } else {
            Err(Error::Parse(concat("unknown `TargetFormat`: ", s)))
        }
    }

    /// Reads the word `s`, ignoring case.
    pub fn parse(s: &str) -> (r: Result<TargetFormat, Error>)
        ensures
            TargetFormat::reads_as(lower_of(s@), s@, r),
    {
        let w = lowercase(s);
        TargetFormat::from_lowercase(w.as_str(), s)
    }

    /// Exactly the listed words name a value.
    pub proof fn closed_vocabulary(w: Seq<char>)
        ensures
            TargetFormat::named(w) is Some <==> TargetFormat::words().contains(w),
    {
        if TargetFormat::named(w) is Some {
            if w == "binary"@ {
                assert(TargetFormat::words()[0] == w);
            }
            if w == "ostree"@ {
                assert(TargetFormat::words()[1] == w);
            }
        }
    }
}

impl std::str::FromStr for TargetFormat {
    type Err = Error;

    fn from_str(s: &str) -> Result<TargetFormat, Error> {
        TargetFormat::parse(s)
    }
}
impl TargetFormat {
    /// The name the services know this format by.
    pub open spec fn text(self) -> Seq<char> {
        match self {
            TargetFormat::Binary => "BINARY"@,
            TargetFormat::Ostree => "OSTREE"@,
        }
    }

    /// The name the services know this format by.
    pub fn to_string(&self) -> (r: String)
        ensures
            r@ == self.text(),
    {
        match self {
            TargetFormat::Binary => "BINARY".to_owned(),
            TargetFormat::Ostree => "OSTREE".to_owned(),
        }
    }

    /// The variant name, as listings show it.
    pub open spec fn label(self) -> Seq<char> {
        match self {
            TargetFormat::Binary => "Binary"@,
            TargetFormat::Ostree => "Ostree"@,
        }
    }

    /// The variant name, as listings show it.
    pub fn to_label(&self) -> (r: String)
        ensures
            r@ == self.label(),
    {
        match self {
            TargetFormat::Binary => "Binary".to_owned(),
            TargetFormat::Ostree => "Ostree".to_owned(),
        }
    }

    /// The format chosen by the `--binary` and `--ostree` flags; `--binary` wins.
    pub fn from_args(binary: bool, ostree: bool) -> (r: Result<TargetFormat, Error>)
        ensures
            binary ==> r == Ok::<TargetFormat, Error>(TargetFormat::Binary),
            !binary && ostree ==> r == Ok::<TargetFormat, Error>(TargetFormat::Ostree),
            !binary && !ostree ==> (r matches Err(e) && e.is_args(
                "Either --binary or --ostree flag is required"@,
            )),
    {
        if binary {
            Ok(TargetFormat::Binary)
        } else if ostree {
            Ok(TargetFormat::Ostree)
        } else {
            Err(Error::Args("Either --binary or --ostree flag is required".to_owned()))
        }
    }
}

} // verus!
