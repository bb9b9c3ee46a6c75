//! United States jurisdictions and their two-letter postal codes: parsing
//! is case-insensitive through the Unicode uppercase mapping, as the
//! registration interface accepts codes in any case.

use vstd::prelude::*;
use crate::text::str_eq;
use crate::unicode::{upper_of, uppercase};

verus! {

/// A U.S. state a user can hold licensure hours in.
#[derive(Debug, Clone, Copy, PartialEq, Eq, Hash, Structural)]
pub enum UsState {
    Alabama,
    Alaska,
    Arizona,
    Arkansas,
    California,
    Colorado,
    Connecticut,
    Delaware,
    Florida,
    Georgia,
    Hawaii,
    Idaho,
    Illinois,
    Indiana,
    Iowa,
    Kansas,
    Kentucky,
    Louisiana,
    Maine,
    Maryland,
    Massachusetts,
    Michigan,
    Minnesota,
    Mississippi,
    Missouri,
    Montana,
    Nebraska,
    Nevada,
    NewHampshire,
    NewJersey,
    NewMexico,
    NewYork,
    NorthCarolina,
    NorthDakota,
    Ohio,
    Oklahoma,
    Oregon,
    Pennsylvania,
    RhodeIsland,
    SouthCarolina,
    SouthDakota,
    Tennessee,
    Texas,
    Utah,
    Vermont,
    Virginia,
    Washington,
    WestVirginia,
    Wisconsin,
    Wyoming,
}

/// The failure of parsing a state code.
#[derive(Debug, Clone, Copy, PartialEq, Eq, Structural)]
pub struct ParseStateError;

impl ParseStateError {
    /// The diagnostic text of this error.
    pub fn message(&self) -> (m: &'static str)
        ensures
            m@ == "Invalid state code"@,
    {
        "Invalid state code"
    }
}

/// The state a two-letter code (already uppercased) denotes, if any.
pub open spec fn spec_state_of_code(s: Seq<char>) -> Option<UsState> {
    if s == "AL"@ {
        Some(UsState::Alabama)
    } else if s == "AK"@ {
        Some(UsState::Alaska)
    } else if s == "AZ"@ {
        Some(UsState::Arizona)
    } else if s == "AR"@ {
        Some(UsState::Arkansas)
    } else if s == "CA"@ {
        Some(UsState::California)
    } else if s == "CO"@ {
        Some(UsState::Colorado)
    } else if s == "CT"@ {
        Some(UsState::Connecticut)
    } else if s == "DE"@ {
        Some(UsState::Delaware)
    } else if s == "FL"@ {
        Some(UsState::Florida)
    } else if s == "GA"@ {
        Some(UsState::Georgia)
    } else if s == "HI"@ {
        Some(UsState::Hawaii)
    } else if s == "ID"@ {
        Some(UsState::Idaho)
    } else if s == "IL"@ {
        Some(UsState::Illinois)
    } else if s == "IN"@ {
        Some(UsState::Indiana)
    } else if s == "IA"@ {
        Some(UsState::Iowa)
    } else if s == "KS"@ {
        Some(UsState::Kansas)
    } else if s == "KY"@ {
        Some(UsState::Kentucky)
    } else if s == "LA"@ {
        Some(UsState::Louisiana)
    } else if s == "ME"@ {
        Some(UsState::Maine)
    } else if s == "MD"@ {
        Some(UsState::Maryland)
    } else if s == "MA"@ {
        Some(UsState::Massachusetts)
    } else if s == "MI"@ {
        Some(UsState::Michigan)
    } else if s == "MN"@ {
        Some(UsState::Minnesota)
    } else if s == "MS"@ {
        Some(UsState::Mississippi)
    } else if s == "MO"@ {
        Some(UsState::Missouri)
    } else if s == "MT"@ {
        Some(UsState::Montana)
    } else if s == "NE"@ {
        Some(UsState::Nebraska)
    } else if s == "NV"@ {
        Some(UsState::Nevada)
    } else if s == "NH"@ {
        Some(UsState::NewHampshire)
    } else if s == "NJ"@ {
        Some(UsState::NewJersey)
    } else if s == "NM"@ {
        Some(UsState::NewMexico)
    } else if s == "NY"@ {
        Some(UsState::NewYork)
    } else if s == "NC"@ {
        Some(UsState::NorthCarolina)
    } else if s == "ND"@ {
        Some(UsState::NorthDakota)
    } else if s == "OH"@ {
        Some(UsState::Ohio)
    } else if s == "OK"@ {
        Some(UsState::Oklahoma)
    } else if s == "OR"@ {
        Some(UsState::Oregon)
    } else if s == "PA"@ {
        Some(UsState::Pennsylvania)
    } else if s == "RI"@ {
        Some(UsState::RhodeIsland)
    } else if s == "SC"@ {
        Some(UsState::SouthCarolina)
    } else if s == "SD"@ {
        Some(UsState::SouthDakota)
    } else if s == "TN"@ {
        Some(UsState::Tennessee)
    } else if s == "TX"@ {
        Some(UsState::Texas)
    } else if s == "UT"@ {
        Some(UsState::Utah)
    } else if s == "VT"@ {
        Some(UsState::Vermont)
    } else if s == "VA"@ {
        Some(UsState::Virginia)
    } else if s == "WA"@ {
        Some(UsState::Washington)
    } else if s == "WV"@ {
        Some(UsState::WestVirginia)
    } else if s == "WI"@ {
        Some(UsState::Wisconsin)
    } else if s == "WY"@ {
        Some(UsState::Wyoming)
    } else {
        None
    }
}

/// The two-letter postal code of a state.
pub open spec fn spec_code(s: UsState) -> Seq<char> {
    match s {
        UsState::Alabama => "AL"@,
        UsState::Alaska => "AK"@,
        UsState::Arizona => "AZ"@,
        UsState::Arkansas => "AR"@,
        UsState::California => "CA"@,
        UsState::Colorado => "CO"@,
        UsState::Connecticut => "CT"@,
        UsState::Delaware => "DE"@,
        UsState::Florida => "FL"@,
        UsState::Georgia => "GA"@,
        UsState::Hawaii => "HI"@,
        UsState::Idaho => "ID"@,
        UsState::Illinois => "IL"@,
        UsState::Indiana => "IN"@,
        UsState::Iowa => "IA"@,
        UsState::Kansas => "KS"@,
        UsState::Kentucky => "KY"@,
        UsState::Louisiana => "LA"@,
        UsState::Maine => "ME"@,
        UsState::Maryland => "MD"@,
        UsState::Massachusetts => "MA"@,
        UsState::Michigan => "MI"@,
        UsState::Minnesota => "MN"@,
        UsState::Mississippi => "MS"@,
        UsState::Missouri => "MO"@,
        UsState::Montana => "MT"@,
        UsState::Nebraska => "NE"@,
        UsState::Nevada => "NV"@,
        UsState::NewHampshire => "NH"@,
        UsState::NewJersey => "NJ"@,
        UsState::NewMexico => "NM"@,
        UsState::NewYork => "NY"@,
        UsState::NorthCarolina => "NC"@,
        UsState::NorthDakota => "ND"@,
        UsState::Ohio => "OH"@,
        UsState::Oklahoma => "OK"@,
        UsState::Oregon => "OR"@,
        UsState::Pennsylvania => "PA"@,
        UsState::RhodeIsland => "RI"@,
        UsState::SouthCarolina => "SC"@,
        UsState::SouthDakota => "SD"@,
        UsState::Tennessee => "TN"@,
        UsState::Texas => "TX"@,
        UsState::Utah => "UT"@,
        UsState::Vermont => "VT"@,
        UsState::Virginia => "VA"@,
        UsState::Washington => "WA"@,
        UsState::WestVirginia => "WV"@,
        UsState::Wisconsin => "WI"@,
        UsState::Wyoming => "WY"@,
    }
}

impl UsState {
    /// Parses a state code, accepting any letter case. Succeeds exactly on
    /// the strings whose uppercase form is one of the fifty codes.
    pub fn from_str(s: &str) -> (r: Result<UsState, ParseStateError>)
        ensures
            r matches Ok(st) ==> spec_state_of_code(upper_of(s@)) == Some(st),
            r is Err <==> spec_state_of_code(upper_of(s@)) is None,
    {
        let u = uppercase(s);
        let c = u.as_str();
        if str_eq(c, "AL") {
            Ok(UsState::Alabama)
        } else if str_eq(c, "AK") {
            Ok(UsState::Alaska)
        } else if str_eq(c, "AZ") {
            Ok(UsState::Arizona)
        } else if str_eq(c, "AR") {
            Ok(UsState::Arkansas)
        } else if str_eq(c, "CA") {
            Ok(UsState::California)
        } else if str_eq(c, "CO") {
            Ok(UsState::Colorado)
        } else if str_eq(c, "CT") {
            Ok(UsState::Connecticut)
        } else if str_eq(c, "DE") {
            Ok(UsState::Delaware)
        } else if str_eq(c, "FL") {
            Ok(UsState::Florida)
        } else if str_eq(c, "GA") {
            Ok(UsState::Georgia)
        } else if str_eq(c, "HI") {
            Ok(UsState::Hawaii)
        } else if str_eq(c, "ID") {
            Ok(UsState::Idaho)
        } else if str_eq(c, "IL") {
            Ok(UsState::Illinois)
        } else if str_eq(c, "IN") {
            Ok(UsState::Indiana)
        } else if str_eq(c, "IA") {
            Ok(UsState::Iowa)
        } else if str_eq(c, "KS") {
            Ok(UsState::Kansas)
        } else if str_eq(c, "KY") {
            Ok(UsState::Kentucky)
        } else if str_eq(c, "LA") {
            Ok(UsState::Louisiana)
        } else if str_eq(c, "ME") {
            Ok(UsState::Maine)
        } else if str_eq(c, "MD") {
            Ok(UsState::Maryland)
        } else if str_eq(c, "MA") {
            Ok(UsState::Massachusetts)
        } else if str_eq(c, "MI") {
            Ok(UsState::Michigan)
        } else if str_eq(c, "MN") {
            Ok(UsState::Minnesota)
        } else if str_eq(c, "MS") {
            Ok(UsState::Mississippi)
        } else if str_eq(c, "MO") {
            Ok(UsState::Missouri)
        } else if str_eq(c, "MT") {
            Ok(UsState::Montana)
        } else if str_eq(c, "NE") {
            Ok(UsState::Nebraska)
        } else if str_eq(c, "NV") {
            Ok(UsState::Nevada)
        } else if str_eq(c, "NH") {
            Ok(UsState::NewHampshire)
        } else if str_eq(c, "NJ") {
            Ok(UsState::NewJersey)
        } else if str_eq(c, "NM") {
            Ok(UsState::NewMexico)
        } else if str_eq(c, "NY") {
            Ok(UsState::NewYork)
        } else if str_eq(c, "NC") {
            Ok(UsState::NorthCarolina)
        } else if str_eq(c, "ND") {
            Ok(UsState::NorthDakota)
        } else if str_eq(c, "OH") {
            Ok(UsState::Ohio)
        } else if str_eq(c, "OK") {
            Ok(UsState::Oklahoma)
        } else if str_eq(c, "OR") {
            Ok(UsState::Oregon)
        } else if str_eq(c, "PA") {
            Ok(UsState::Pennsylvania)
        } else if str_eq(c, "RI") {
            Ok(UsState::RhodeIsland)
        } else if str_eq(c, "SC") {
            Ok(UsState::SouthCarolina)
        } else if str_eq(c, "SD") {
            Ok(UsState::SouthDakota)
        } else if str_eq(c, "TN") {
            Ok(UsState::Tennessee)
        } else if str_eq(c, "TX") {
            Ok(UsState::Texas)
        } else if str_eq(c, "UT") {
            Ok(UsState::Utah)
        } else if str_eq(c, "VT") {
            Ok(UsState::Vermont)
        } else if str_eq(c, "VA") {
            Ok(UsState::Virginia)
        } else if str_eq(c, "WA") {
            Ok(UsState::Washington)
        } else if str_eq(c, "WV") {
            Ok(UsState::WestVirginia)
        } else if str_eq(c, "WI") {
            Ok(UsState::Wisconsin)
        } else if str_eq(c, "WY") {
            Ok(UsState::Wyoming)
        } else {
            Err(ParseStateError)
        }
    }

    /// The two-letter postal code of this state.
    pub fn code(&self) -> (r: &'static str)
        ensures
            r@ == spec_code(*self),
    {
        match self {
            UsState::Alabama => "AL",
            UsState::Alaska => "AK",
            UsState::Arizona => "AZ",
            UsState::Arkansas => "AR",
            UsState::California => "CA",
            UsState::Colorado => "CO",
            UsState::Connecticut => "CT",
            UsState::Delaware => "DE",
            UsState::Florida => "FL",
            UsState::Georgia => "GA",
            UsState::Hawaii => "HI",
            UsState::Idaho => "ID",
            UsState::Illinois => "IL",
            UsState::Indiana => "IN",
            UsState::Iowa => "IA",
            UsState::Kansas => "KS",
            UsState::Kentucky => "KY",
            UsState::Louisiana => "LA",
            UsState::Maine => "ME",
            UsState::Maryland => "MD",
            UsState::Massachusetts => "MA",
            UsState::Michigan => "MI",
            UsState::Minnesota => "MN",
            UsState::Mississippi => "MS",
            UsState::Missouri => "MO",
            UsState::Montana => "MT",
            UsState::Nebraska => "NE",
            UsState::Nevada => "NV",
            UsState::NewHampshire => "NH",
            UsState::NewJersey => "NJ",
            UsState::NewMexico => "NM",
            UsState::NewYork => "NY",
            UsState::NorthCarolina => "NC",
            UsState::NorthDakota => "ND",
            UsState::Ohio => "OH",
            UsState::Oklahoma => "OK",
            UsState::Oregon => "OR",
            UsState::Pennsylvania => "PA",
            UsState::RhodeIsland => "RI",
            UsState::SouthCarolina => "SC",
            UsState::SouthDakota => "SD",
            UsState::Tennessee => "TN",
            UsState::Texas => "TX",
            UsState::Utah => "UT",
            UsState::Vermont => "VT",
            UsState::Virginia => "VA",
            UsState::Washington => "WA",
            UsState::WestVirginia => "WV",
            UsState::Wisconsin => "WI",
            UsState::Wyoming => "WY",
        }
    }
}

} // verus!
