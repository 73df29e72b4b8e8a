//! Character classes ("aspects"): a closed set of known classes plus a
//! fallback variant that keeps the unrecognized class code as data.

use vstd::prelude::*;
use vstd::string::StringExecFns;
use crate::text::chars_eq_str;
use crate::text::chars_vec;

verus! {

/// A player character class. `Unknown` keeps the original class code so an
/// unrecognized class is displayable and never silently dropped.
#[derive(Debug, PartialEq, Eq, Hash)]
pub enum Aspect {
    MagmaMiner,
    Mosscloak,
    Clairvoyant,
    Weaver,
    Obelisk,
    StarCaptain,
    Chainbreaker,
    Godkeeper,
    Unknown(String),
}

/// Mathematical model of an `Aspect`: the fallback code as a character
/// sequence.
pub enum AspectV {
    MagmaMiner,
    Mosscloak,
    Clairvoyant,
    Weaver,
    Obelisk,
    StarCaptain,
    Chainbreaker,
    Godkeeper,
    Unknown(Seq<char>),
}

impl View for Aspect {
    type V = AspectV;

    open spec fn view(&self) -> AspectV {
        match self {
            Aspect::MagmaMiner => AspectV::MagmaMiner,
            Aspect::Mosscloak => AspectV::Mosscloak,
            Aspect::Clairvoyant => AspectV::Clairvoyant,
            Aspect::Weaver => AspectV::Weaver,
            Aspect::Obelisk => AspectV::Obelisk,
            Aspect::StarCaptain => AspectV::StarCaptain,
            Aspect::Chainbreaker => AspectV::Chainbreaker,
            Aspect::Godkeeper => AspectV::Godkeeper,
            Aspect::Unknown(s) => AspectV::Unknown(s@),
        }
    }
}

/// The aspect a class code stands for. A code outside the closed set maps to
/// the fallback, which carries the code itself.
pub open spec fn aspect_of_code(code: Seq<char>) -> AspectV {
    if code == "C01"@ {
        AspectV::MagmaMiner
    } else if code == "C02"@ {
        AspectV::Mosscloak
    } else if code == "C03"@ {
        AspectV::Clairvoyant
    } else if code == "C04"@ {
        AspectV::Weaver
    } else if code == "C05"@ {
        AspectV::Obelisk
    } else if code == "C07"@ {
        AspectV::StarCaptain
    } else if code == "C08"@ {
        AspectV::Chainbreaker
    } else if code == "C09"@ {
        AspectV::Godkeeper
    } else {
        AspectV::Unknown(code)
    }
}

/// Display name of an aspect; the fallback shows its stored code.
pub open spec fn aspect_display(a: AspectV) -> Seq<char> {
    match a {
        AspectV::MagmaMiner => "Magma Miner"@,
        AspectV::Mosscloak => "Mosscloak"@,
        AspectV::Clairvoyant => "Clairvoyent"@,
        AspectV::Weaver => "Weaver"@,
        AspectV::Obelisk => "Obelisk"@,
        AspectV::StarCaptain => "Star Captain"@,
        AspectV::Chainbreaker => "Chainbreaker"@,
        AspectV::Godkeeper => "Godkeeper"@,
        AspectV::Unknown(code) => code,
    }
}

/// Three-letter abbreviation of an aspect.
pub open spec fn aspect_abbv(a: AspectV) -> Seq<char> {
    match a {
        AspectV::MagmaMiner => "MGM"@,
        AspectV::Mosscloak => "MSC"@,
        AspectV::Weaver => "WVR"@,
        AspectV::Obelisk => "OBE"@,
        AspectV::Clairvoyant => "CLV"@,
        AspectV::StarCaptain => "STC"@,
        AspectV::Chainbreaker => "CHB"@,
        AspectV::Godkeeper => "GKR"@,
        AspectV::Unknown(_) => "UNK"@,
    }
}

impl Aspect {
    /// Get an Aspect from the internal class code.
    pub fn from_id(id: &str) -> (r: Aspect)
        ensures
            r@ == aspect_of_code(id@),
    {
        let v = chars_vec(id);
        if chars_eq_str(&v, "C01") {
            Aspect::MagmaMiner
        } else if chars_eq_str(&v, "C02") {
            Aspect::Mosscloak
        } else if chars_eq_str(&v, "C03") {
            Aspect::Clairvoyant
        } else if chars_eq_str(&v, "C04") {
            Aspect::Weaver
        } else if chars_eq_str(&v, "C05") {
            Aspect::Obelisk
        } else if chars_eq_str(&v, "C07") {
            Aspect::StarCaptain
        } else if chars_eq_str(&v, "C08") {
            Aspect::Chainbreaker
        } else if chars_eq_str(&v, "C09") {
            Aspect::Godkeeper
        } else {
            Aspect::Unknown(id.to_owned())
        }
    }

    /// Human-readable name of the aspect.
    pub fn display_name(&self) -> (r: String)
        ensures
            r@ == aspect_display(self@),
    {
        match self {
            Aspect::MagmaMiner => String::from_str("Magma Miner"),
            Aspect::Mosscloak => String::from_str("Mosscloak"),
            Aspect::Clairvoyant => String::from_str("Clairvoyent"),
            Aspect::Weaver => String::from_str("Weaver"),
            Aspect::Obelisk => String::from_str("Obelisk"),
            Aspect::StarCaptain => String::from_str("Star Captain"),
            Aspect::Chainbreaker => String::from_str("Chainbreaker"),
            Aspect::Godkeeper => String::from_str("Godkeeper"),
            Aspect::Unknown(code) => code.clone(),
        }
    }
}

impl Clone for Aspect {
    fn clone(&self) -> (r: Self)
        ensures
            r@ == self@,
    {
        match self {
            Aspect::MagmaMiner => Aspect::MagmaMiner,
            Aspect::Mosscloak => Aspect::Mosscloak,
            Aspect::Clairvoyant => Aspect::Clairvoyant,
            Aspect::Weaver => Aspect::Weaver,
            Aspect::Obelisk => Aspect::Obelisk,
            Aspect::StarCaptain => Aspect::StarCaptain,
            Aspect::Chainbreaker => Aspect::Chainbreaker,
            Aspect::Godkeeper => Aspect::Godkeeper,
            Aspect::Unknown(s) => Aspect::Unknown(s.clone()),
        }
    }
}

/// Abbreviated display of an aspect.
pub trait AspectAbbv {
    /// The abbreviation this type promises to return.
    spec fn abbv_spec(&self) -> Seq<char>;

    /// Get an abbreviated name for the aspect.
    fn abbv(&self) -> (r: String)
        ensures
            r@ == self.abbv_spec(),
    ;
}

impl AspectAbbv for Aspect {
    open spec fn abbv_spec(&self) -> Seq<char> {
        aspect_abbv(self@)
    }

    fn abbv(&self) -> (r: String) {
        match self {
            Aspect::MagmaMiner => String::from_str("MGM"),
            Aspect::Mosscloak => String::from_str("MSC"),
            Aspect::Weaver => String::from_str("WVR"),
            Aspect::Obelisk => String::from_str("OBE"),
            Aspect::Clairvoyant => String::from_str("CLV"),
            Aspect::StarCaptain => String::from_str("STC"),
            Aspect::Chainbreaker => String::from_str("CHB"),
            Aspect::Godkeeper => String::from_str("GKR"),
            Aspect::Unknown(_) => String::from_str("UNK"),
        }
    }
}

} // verus!
