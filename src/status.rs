use vstd::prelude::*;
use crate::error::Error;

verus! {

/// How the transport of one photon ended.
#[derive(Clone, Copy, Debug, PartialEq, Eq, Structural)]
pub enum TransportStatus {
    Absorbed,
    Boundary,
    EnergyConstraint,
    EnergyMax,
    EnergyMin,
    Exit,
    LengthMax,
}

/// The number of terminal statuses; their codes are `0` to `STATUS_COUNT - 1`.
pub const STATUS_COUNT: i32 = 7;

/// The status that a code stands for, if any.
pub open spec fn status_of_code(c: int) -> Option<TransportStatus> {
    if c == 0 {
        Some(TransportStatus::Absorbed)
    } else if c == 1 {
        Some(TransportStatus::Boundary)
    } else if c == 2 {
        Some(TransportStatus::EnergyConstraint)
    } else if c == 3 {
        Some(TransportStatus::EnergyMax)
    } else if c == 4 {
        Some(TransportStatus::EnergyMin)
    } else if c == 5 {
        Some(TransportStatus::Exit)
    } else if c == 6 {
        Some(TransportStatus::LengthMax)
    } else {
        None
    }
}

impl TransportStatus {
    pub open spec fn code_spec(self) -> i32 {
        match self {
            TransportStatus::Absorbed => 0,
            TransportStatus::Boundary => 1,
            TransportStatus::EnergyConstraint => 2,
            TransportStatus::EnergyMax => 3,
            TransportStatus::EnergyMin => 4,
            TransportStatus::Exit => 5,
            TransportStatus::LengthMax => 6,
        }
    }

    pub open spec fn name_spec(self) -> Seq<char> {
        match self {
            TransportStatus::Absorbed => "Absorbed"@,
            TransportStatus::Boundary => "Boundary"@,
            TransportStatus::EnergyConstraint => "EnergyConstraint"@,
            TransportStatus::EnergyMax => "EnergyMax"@,
            TransportStatus::EnergyMin => "EnergyMin"@,
            TransportStatus::Exit => "Exit"@,
            TransportStatus::LengthMax => "LengthMax"@,
        }
    }

    /// The integer code written to status arrays.
    pub fn code(self) -> (r: i32)
        ensures
            r == self.code_spec(),
    {
        match self {
            TransportStatus::Absorbed => 0,
            TransportStatus::Boundary => 1,
            TransportStatus::EnergyConstraint => 2,
            TransportStatus::EnergyMax => 3,
            TransportStatus::EnergyMin => 4,
            TransportStatus::Exit => 5,
            TransportStatus::LengthMax => 6,
        }
    }

    /// The status of an integer code; a code of no status is outside of the enumeration.
    pub fn from_code(c: i32) -> (r: Result<TransportStatus, Error>)
        ensures
            match r {
                Ok(s) => status_of_code(c as int) == Some(s) && s.code_spec() == c,
                Err(e) => e == Error::Domain && status_of_code(c as int) is None,
            },
    {
        match c {
            0 => Ok(TransportStatus::Absorbed),
            1 => Ok(TransportStatus::Boundary),
            2 => Ok(TransportStatus::EnergyConstraint),
            3 => Ok(TransportStatus::EnergyMax),
            4 => Ok(TransportStatus::EnergyMin),
            5 => Ok(TransportStatus::Exit),
            6 => Ok(TransportStatus::LengthMax),
            _ => Err(Error::Domain),
        }
    }

    pub fn name(self) -> (r: &'static str)
        ensures
            r@ == self.name_spec(),
    {
        match self {
            TransportStatus::Absorbed => "Absorbed",
            TransportStatus::Boundary => "Boundary",
            TransportStatus::EnergyConstraint => "EnergyConstraint",
            TransportStatus::EnergyMax => "EnergyMax",
            TransportStatus::EnergyMin => "EnergyMin",
            TransportStatus::Exit => "Exit",
            TransportStatus::LengthMax => "LengthMax",
        }
    }
}

/// The name of the status that an integer code stands for.
pub fn status_name(code: i32) -> (r: Result<&'static str, Error>)
    ensures
        match r {
            Ok(n) => exists|s: TransportStatus|
                status_of_code(code as int) == Some(s) && n@ == #[trigger] s.name_spec(),
            Err(e) => e == Error::Domain && status_of_code(code as int) is None,
        },
{
    let s = TransportStatus::from_code(code)?;
    Ok(s.name())
}

/// Every status that the engine reports is one of the terminal statuses: its code lies in
/// `0 .. STATUS_COUNT` and decodes back to it. No code stands for a photon still in flight.
pub proof fn status_codes_are_terminal(s: TransportStatus)
    ensures
        0 <= s.code_spec() < STATUS_COUNT,
        status_of_code(s.code_spec() as int) == Some(s),
{
}

/// Exactly the codes `0 .. STATUS_COUNT` stand for a status.
pub proof fn status_codes_are_closed(c: int)
    ensures
        status_of_code(c) is Some <==> 0 <= c < STATUS_COUNT,
        match status_of_code(c) {
            Some(s) => s.code_spec() == c,
            None => true,
        },
{
}

} // verus!
