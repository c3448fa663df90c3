//! The closed code sets of the schema: each member stands for exactly one literal.
use vstd::prelude::*;

use super::{SchemaIntType, SchemaStringType};

verus! {

/// A US state, district, territory or armed-forces postal code.
#[derive(Clone, Copy, Debug, Hash, PartialEq, Eq, Structural)]
pub enum USStateCodeType {
    AL,
    AK,
    AS,
    AZ,
    AR,
    CA,
    CO,
    CT,
    DE,
    DC,
    FM,
    FL,
    GA,
    GU,
    HI,
    ID,
    IL,
    IN,
    IA,
    KS,
    KY,
    LA,
    ME,
    MH,
    MD,
    MA,
    MI,
    MN,
    MS,
    MO,
    MT,
    NE,
    NV,
    NH,
    NJ,
    NM,
    NY,
    NC,
    ND,
    MP,
    OH,
    OK,
    OR,
    PW,
    PA,
    PR,
    RI,
    SC,
    SD,
    TN,
    TX,
    UT,
    VT,
    VI,
    VA,
    WA,
    WV,
    WI,
    WY,
    AE,
    AA,
    AP,
    UK,
}

impl SchemaStringType for USStateCodeType {
    open spec fn spec_value(&self) -> Seq<char> {
        match self {
            USStateCodeType::AL => "AL"@,
            USStateCodeType::AK => "AK"@,
            USStateCodeType::AS => "AS"@,
            USStateCodeType::AZ => "AZ"@,
            USStateCodeType::AR => "AR"@,
            USStateCodeType::CA => "CA"@,
            USStateCodeType::CO => "CO"@,
            USStateCodeType::CT => "CT"@,
            USStateCodeType::DE => "DE"@,
            USStateCodeType::DC => "DC"@,
            USStateCodeType::FM => "FM"@,
            USStateCodeType::FL => "FL"@,
            USStateCodeType::GA => "GA"@,
            USStateCodeType::GU => "GU"@,
            USStateCodeType::HI => "HI"@,
            USStateCodeType::ID => "ID"@,
            USStateCodeType::IL => "IL"@,
            USStateCodeType::IN => "IN"@,
            USStateCodeType::IA => "IA"@,
            USStateCodeType::KS => "KS"@,
            USStateCodeType::KY => "KY"@,
            USStateCodeType::LA => "LA"@,
            USStateCodeType::ME => "ME"@,
            USStateCodeType::MH => "MH"@,
            USStateCodeType::MD => "MD"@,
            USStateCodeType::MA => "MA"@,
            USStateCodeType::MI => "MI"@,
            USStateCodeType::MN => "MN"@,
            USStateCodeType::MS => "MS"@,
            USStateCodeType::MO => "MO"@,
            USStateCodeType::MT => "MT"@,
            USStateCodeType::NE => "NE"@,
            USStateCodeType::NV => "NV"@,
            USStateCodeType::NH => "NH"@,
            USStateCodeType::NJ => "NJ"@,
            USStateCodeType::NM => "NM"@,
            USStateCodeType::NY => "NY"@,
            USStateCodeType::NC => "NC"@,
            USStateCodeType::ND => "ND"@,
            USStateCodeType::MP => "MP"@,
            USStateCodeType::OH => "OH"@,
            USStateCodeType::OK => "OK"@,
            USStateCodeType::OR => "OR"@,
            USStateCodeType::PW => "PW"@,
            USStateCodeType::PA => "PA"@,
            USStateCodeType::PR => "PR"@,
            USStateCodeType::RI => "RI"@,
            USStateCodeType::SC => "SC"@,
            USStateCodeType::SD => "SD"@,
            USStateCodeType::TN => "TN"@,
            USStateCodeType::TX => "TX"@,
            USStateCodeType::UT => "UT"@,
            USStateCodeType::VT => "VT"@,
            USStateCodeType::VI => "VI"@,
            USStateCodeType::VA => "VA"@,
            USStateCodeType::WA => "WA"@,
            USStateCodeType::WV => "WV"@,
            USStateCodeType::WI => "WI"@,
            USStateCodeType::WY => "WY"@,
            USStateCodeType::AE => "AE"@,
            USStateCodeType::AA => "AA"@,
            USStateCodeType::AP => "AP"@,
            USStateCodeType::UK => "UK"@,
        }
    }

    fn value(&self) -> (r: &str) {
        match self {
            USStateCodeType::AL => "AL",
            USStateCodeType::AK => "AK",
            USStateCodeType::AS => "AS",
            USStateCodeType::AZ => "AZ",
            USStateCodeType::AR => "AR",
            USStateCodeType::CA => "CA",
            USStateCodeType::CO => "CO",
            USStateCodeType::CT => "CT",
            USStateCodeType::DE => "DE",
            USStateCodeType::DC => "DC",
            USStateCodeType::FM => "FM",
            USStateCodeType::FL => "FL",
            USStateCodeType::GA => "GA",
            USStateCodeType::GU => "GU",
            USStateCodeType::HI => "HI",
            USStateCodeType::ID => "ID",
            USStateCodeType::IL => "IL",
            USStateCodeType::IN => "IN",
            USStateCodeType::IA => "IA",
            USStateCodeType::KS => "KS",
            USStateCodeType::KY => "KY",
            USStateCodeType::LA => "LA",
            USStateCodeType::ME => "ME",
            USStateCodeType::MH => "MH",
            USStateCodeType::MD => "MD",
            USStateCodeType::MA => "MA",
            USStateCodeType::MI => "MI",
            USStateCodeType::MN => "MN",
            USStateCodeType::MS => "MS",
            USStateCodeType::MO => "MO",
            USStateCodeType::MT => "MT",
            USStateCodeType::NE => "NE",
            USStateCodeType::NV => "NV",
            USStateCodeType::NH => "NH",
            USStateCodeType::NJ => "NJ",
            USStateCodeType::NM => "NM",
            USStateCodeType::NY => "NY",
            USStateCodeType::NC => "NC",
            USStateCodeType::ND => "ND",
            USStateCodeType::MP => "MP",
            USStateCodeType::OH => "OH",
            USStateCodeType::OK => "OK",
            USStateCodeType::OR => "OR",
            USStateCodeType::PW => "PW",
            USStateCodeType::PA => "PA",
            USStateCodeType::PR => "PR",
            USStateCodeType::RI => "RI",
            USStateCodeType::SC => "SC",
            USStateCodeType::SD => "SD",
            USStateCodeType::TN => "TN",
            USStateCodeType::TX => "TX",
            USStateCodeType::UT => "UT",
            USStateCodeType::VT => "VT",
            USStateCodeType::VI => "VI",
            USStateCodeType::VA => "VA",
            USStateCodeType::WA => "WA",
            USStateCodeType::WV => "WV",
            USStateCodeType::WI => "WI",
            USStateCodeType::WY => "WY",
            USStateCodeType::AE => "AE",
            USStateCodeType::AA => "AA",
            USStateCodeType::AP => "AP",
            USStateCodeType::UK => "UK",
        }
    }
}

impl USStateCodeType {
    /// Reads a member back from its literal, by its length and the characters that
    /// set it apart from the literals of the same length.
    spec fn decode(s: Seq<char>) -> Option<Self> {
        if s.len() == 2 && s[0] == 'A' && s[1] == 'L' {
            Some(USStateCodeType::AL)
        } else if s.len() == 2 && s[0] == 'A' && s[1] == 'K' {
            Some(USStateCodeType::AK)
        } else if s.len() == 2 && s[0] == 'A' && s[1] == 'S' {
            Some(USStateCodeType::AS)
        } else if s.len() == 2 && s[0] == 'A' && s[1] == 'Z' {
            Some(USStateCodeType::AZ)
        } else if s.len() == 2 && s[0] == 'A' && s[1] == 'R' {
            Some(USStateCodeType::AR)
        } else if s.len() == 2 && s[0] == 'C' && s[1] == 'A' {
            Some(USStateCodeType::CA)
        } else if s.len() == 2 && s[0] == 'C' && s[1] == 'O' {
            Some(USStateCodeType::CO)
        } else if s.len() == 2 && s[0] == 'C' && s[1] == 'T' {
            Some(USStateCodeType::CT)
        } else if s.len() == 2 && s[0] == 'D' && s[1] == 'E' {
            Some(USStateCodeType::DE)
        } else if s.len() == 2 && s[0] == 'D' && s[1] == 'C' {
            Some(USStateCodeType::DC)
        } else if s.len() == 2 && s[0] == 'F' && s[1] == 'M' {
            Some(USStateCodeType::FM)
        } else if s.len() == 2 && s[0] == 'F' && s[1] == 'L' {
            Some(USStateCodeType::FL)
        } else if s.len() == 2 && s[0] == 'G' && s[1] == 'A' {
            Some(USStateCodeType::GA)
        } else if s.len() == 2 && s[0] == 'G' && s[1] == 'U' {
            Some(USStateCodeType::GU)
        } else if s.len() == 2 && s[0] == 'H' && s[1] == 'I' {
            Some(USStateCodeType::HI)
        } else if s.len() == 2 && s[0] == 'I' && s[1] == 'D' {
            Some(USStateCodeType::ID)
        } else if s.len() == 2 && s[0] == 'I' && s[1] == 'L' {
            Some(USStateCodeType::IL)
        } else if s.len() == 2 && s[0] == 'I' && s[1] == 'N' {
            Some(USStateCodeType::IN)
        } else if s.len() == 2 && s[0] == 'I' && s[1] == 'A' {
            Some(USStateCodeType::IA)
        } else if s.len() == 2 && s[0] == 'K' && s[1] == 'S' {
            Some(USStateCodeType::KS)
        } else if s.len() == 2 && s[0] == 'K' && s[1] == 'Y' {
            Some(USStateCodeType::KY)
        } else if s.len() == 2 && s[0] == 'L' && s[1] == 'A' {
            Some(USStateCodeType::LA)
        } else if s.len() == 2 && s[0] == 'M' && s[1] == 'E' {
            Some(USStateCodeType::ME)
        } else if s.len() == 2 && s[0] == 'M' && s[1] == 'H' {
            Some(USStateCodeType::MH)
        } else if s.len() == 2 && s[0] == 'M' && s[1] == 'D' {
            Some(USStateCodeType::MD)
        } else if s.len() == 2 && s[0] == 'M' && s[1] == 'A' {
            Some(USStateCodeType::MA)
        } else if s.len() == 2 && s[0] == 'M' && s[1] == 'I' {
            Some(USStateCodeType::MI)
        } else if s.len() == 2 && s[0] == 'M' && s[1] == 'N' {
            Some(USStateCodeType::MN)
        } else if s.len() == 2 && s[0] == 'M' && s[1] == 'S' {
            Some(USStateCodeType::MS)
        } else if s.len() == 2 && s[0] == 'M' && s[1] == 'O' {
            Some(USStateCodeType::MO)
        } else if s.len() == 2 && s[0] == 'M' && s[1] == 'T' {
            Some(USStateCodeType::MT)
        } else if s.len() == 2 && s[0] == 'N' && s[1] == 'E' {
            Some(USStateCodeType::NE)
        } else if s.len() == 2 && s[0] == 'N' && s[1] == 'V' {
            Some(USStateCodeType::NV)
        } else if s.len() == 2 && s[0] == 'N' && s[1] == 'H' {
            Some(USStateCodeType::NH)
        } else if s.len() == 2 && s[0] == 'N' && s[1] == 'J' {
            Some(USStateCodeType::NJ)
        } else if s.len() == 2 && s[0] == 'N' && s[1] == 'M' {
            Some(USStateCodeType::NM)
        } else if s.len() == 2 && s[0] == 'N' && s[1] == 'Y' {
            Some(USStateCodeType::NY)
        } else if s.len() == 2 && s[0] == 'N' && s[1] == 'C' {
            Some(USStateCodeType::NC)
        } else if s.len() == 2 && s[0] == 'N' && s[1] == 'D' {
            Some(USStateCodeType::ND)
        } else if s.len() == 2 && s[0] == 'M' && s[1] == 'P' {
            Some(USStateCodeType::MP)
        } else if s.len() == 2 && s[0] == 'O' && s[1] == 'H' {
            Some(USStateCodeType::OH)
        } else if s.len() == 2 && s[0] == 'O' && s[1] == 'K' {
            Some(USStateCodeType::OK)
        } else if s.len() == 2 && s[0] == 'O' && s[1] == 'R' {
            Some(USStateCodeType::OR)
        } else if s.len() == 2 && s[0] == 'P' && s[1] == 'W' {
            Some(USStateCodeType::PW)
        } else if s.len() == 2 && s[0] == 'P' && s[1] == 'A' {
            Some(USStateCodeType::PA)
        } else if s.len() == 2 && s[0] == 'P' && s[1] == 'R' {
            Some(USStateCodeType::PR)
        } else if s.len() == 2 && s[0] == 'R' && s[1] == 'I' {
            Some(USStateCodeType::RI)
        } else if s.len() == 2 && s[0] == 'S' && s[1] == 'C' {
            Some(USStateCodeType::SC)
        } else if s.len() == 2 && s[0] == 'S' && s[1] == 'D' {
            Some(USStateCodeType::SD)
        } else if s.len() == 2 && s[0] == 'T' && s[1] == 'N' {
            Some(USStateCodeType::TN)
        } else if s.len() == 2 && s[0] == 'T' && s[1] == 'X' {
            Some(USStateCodeType::TX)
        } else if s.len() == 2 && s[0] == 'U' && s[1] == 'T' {
            Some(USStateCodeType::UT)
        } else if s.len() == 2 && s[0] == 'V' && s[1] == 'T' {
            Some(USStateCodeType::VT)
        } else if s.len() == 2 && s[0] == 'V' && s[1] == 'I' {
            Some(USStateCodeType::VI)
        } else if s.len() == 2 && s[0] == 'V' && s[1] == 'A' {
            Some(USStateCodeType::VA)
        } else if s.len() == 2 && s[0] == 'W' && s[1] == 'A' {
            Some(USStateCodeType::WA)
        } else if s.len() == 2 && s[0] == 'W' && s[1] == 'V' {
            Some(USStateCodeType::WV)
        } else if s.len() == 2 && s[0] == 'W' && s[1] == 'I' {
            Some(USStateCodeType::WI)
        } else if s.len() == 2 && s[0] == 'W' && s[1] == 'Y' {
            Some(USStateCodeType::WY)
        } else if s.len() == 2 && s[0] == 'A' && s[1] == 'E' {
            Some(USStateCodeType::AE)
        } else if s.len() == 2 && s[0] == 'A' && s[1] == 'A' {
            Some(USStateCodeType::AA)
        } else if s.len() == 2 && s[0] == 'A' && s[1] == 'P' {
            Some(USStateCodeType::AP)
        } else if s.len() == 2 && s[0] == 'U' && s[1] == 'K' {
            Some(USStateCodeType::UK)
        } else {
            None
        }
    }

    /// `decode` reads every member back from its literal.
    proof fn lemma_decode(m: Self)
        ensures
            Self::decode(m.spec_value()) == Some(m),
    {
        reveal_strlit("AA");
        reveal_strlit("AE");
        reveal_strlit("AK");
        reveal_strlit("AL");
        reveal_strlit("AP");
        reveal_strlit("AR");
        reveal_strlit("AS");
        reveal_strlit("AZ");
        reveal_strlit("CA");
        reveal_strlit("CO");
        reveal_strlit("CT");
        reveal_strlit("DC");
        reveal_strlit("DE");
        reveal_strlit("FL");
        reveal_strlit("FM");
        reveal_strlit("GA");
        reveal_strlit("GU");
        reveal_strlit("HI");
        reveal_strlit("IA");
        reveal_strlit("ID");
        reveal_strlit("IL");
        reveal_strlit("IN");
        reveal_strlit("KS");
        reveal_strlit("KY");
        reveal_strlit("LA");
        reveal_strlit("MA");
        reveal_strlit("MD");
        reveal_strlit("ME");
        reveal_strlit("MH");
        reveal_strlit("MI");
        reveal_strlit("MN");
        reveal_strlit("MO");
        reveal_strlit("MP");
        reveal_strlit("MS");
        reveal_strlit("MT");
        reveal_strlit("NC");
        reveal_strlit("ND");
        reveal_strlit("NE");
        reveal_strlit("NH");
        reveal_strlit("NJ");
        reveal_strlit("NM");
        reveal_strlit("NV");
        reveal_strlit("NY");
        reveal_strlit("OH");
        reveal_strlit("OK");
        reveal_strlit("OR");
        reveal_strlit("PA");
        reveal_strlit("PR");
        reveal_strlit("PW");
        reveal_strlit("RI");
        reveal_strlit("SC");
        reveal_strlit("SD");
        reveal_strlit("TN");
        reveal_strlit("TX");
        reveal_strlit("UK");
        reveal_strlit("UT");
        reveal_strlit("VA");
        reveal_strlit("VI");
        reveal_strlit("VT");
        reveal_strlit("WA");
        reveal_strlit("WI");
        reveal_strlit("WV");
        reveal_strlit("WY");
    }

    /// No two members share a literal.
    pub proof fn lemma_literals_distinct(a: Self, b: Self)
        ensures
            a.spec_value() == b.spec_value() ==> a == b,
    {
        Self::lemma_decode(a);
        Self::lemma_decode(b);
    }
}

/// A patient's race.
#[derive(Clone, Copy, Debug, Hash, PartialEq, Eq, Structural)]
pub enum RaceCodeType {
    Native,
    Asian,
    Multiracial,
    Black,
    HispanicBlack,
    Hispanic,
    HispanicWhite,
    MiddleEastern,
    White,
    Other,
    Unknown,
}

impl SchemaStringType for RaceCodeType {
    open spec fn spec_value(&self) -> Seq<char> {
        match self {
            RaceCodeType::Native => "American Indian or Alaska Native"@,
            RaceCodeType::Asian => "Asian or Pacific Islander"@,
            RaceCodeType::Multiracial => "Bi or Multi Racial"@,
            RaceCodeType::Black => "Black, not of Hispanic Origin"@,
            RaceCodeType::HispanicBlack => "Hispanic, Black"@,
            RaceCodeType::Hispanic => "Hispanic, Color Unknown"@,
            RaceCodeType::HispanicWhite => "Hispanic, White"@,
            RaceCodeType::MiddleEastern => "Middle Eastern"@,
            RaceCodeType::White => "White, not of Hispanic Origin"@,
            RaceCodeType::Other => "OTHER"@,
            RaceCodeType::Unknown => "Unknown"@,
        }
    }

    fn value(&self) -> (r: &str) {
        match self {
            RaceCodeType::Native => "American Indian or Alaska Native",
            RaceCodeType::Asian => "Asian or Pacific Islander",
            RaceCodeType::Multiracial => "Bi or Multi Racial",
            RaceCodeType::Black => "Black, not of Hispanic Origin",
            RaceCodeType::HispanicBlack => "Hispanic, Black",
            RaceCodeType::Hispanic => "Hispanic, Color Unknown",
            RaceCodeType::HispanicWhite => "Hispanic, White",
            RaceCodeType::MiddleEastern => "Middle Eastern",
            RaceCodeType::White => "White, not of Hispanic Origin",
            RaceCodeType::Other => "OTHER",
            RaceCodeType::Unknown => "Unknown",
        }
    }
}

impl RaceCodeType {
    /// Reads a member back from its literal, by its length and the characters that
    /// set it apart from the literals of the same length.
    spec fn decode(s: Seq<char>) -> Option<Self> {
        if s.len() == 32 {
            Some(RaceCodeType::Native)
        } else if s.len() == 25 {
            Some(RaceCodeType::Asian)
        } else if s.len() == 18 {
            Some(RaceCodeType::Multiracial)
        } else if s.len() == 29 && s[0] == 'B' {
            Some(RaceCodeType::Black)
        } else if s.len() == 15 && s[10] == 'B' {
            Some(RaceCodeType::HispanicBlack)
        } else if s.len() == 23 {
            Some(RaceCodeType::Hispanic)
        } else if s.len() == 15 && s[10] == 'W' {
            Some(RaceCodeType::HispanicWhite)
        } else if s.len() == 14 {
            Some(RaceCodeType::MiddleEastern)
        } else if s.len() == 29 && s[0] == 'W' {
            Some(RaceCodeType::White)
        } else if s.len() == 5 {
            Some(RaceCodeType::Other)
        } else if s.len() == 7 {
            Some(RaceCodeType::Unknown)
        } else {
            None
        }
    }

    /// `decode` reads every member back from its literal.
    proof fn lemma_decode(m: Self)
        ensures
            Self::decode(m.spec_value()) == Some(m),
    {
        reveal_strlit("American Indian or Alaska Native");
        reveal_strlit("Asian or Pacific Islander");
        reveal_strlit("Bi or Multi Racial");
        reveal_strlit("Black, not of Hispanic Origin");
        reveal_strlit("Hispanic, Black");
        reveal_strlit("Hispanic, Color Unknown");
        reveal_strlit("Hispanic, White");
        reveal_strlit("Middle Eastern");
        reveal_strlit("OTHER");
        reveal_strlit("Unknown");
        reveal_strlit("White, not of Hispanic Origin");
    }

    /// No two members share a literal.
    pub proof fn lemma_literals_distinct(a: Self, b: Self)
        ensures
            a.spec_value() == b.spec_value() ==> a == b,
    {
        Self::lemma_decode(a);
        Self::lemma_decode(b);
    }
}

/// A patient's sex.
#[derive(Clone, Copy, Debug, Hash, PartialEq, Eq, Structural)]
pub enum PatientSexCodeType {
    Male,
    Female,
    Missing,
    Unknown,
}

impl SchemaStringType for PatientSexCodeType {
    open spec fn spec_value(&self) -> Seq<char> {
        match self {
            PatientSexCodeType::Male => "Male"@,
            PatientSexCodeType::Female => "Female"@,
            PatientSexCodeType::Missing => "Missing"@,
            PatientSexCodeType::Unknown => "Unknown"@,
        }
    }

    fn value(&self) -> (r: &str) {
        match self {
            PatientSexCodeType::Male => "Male",
            PatientSexCodeType::Female => "Female",
            PatientSexCodeType::Missing => "Missing",
            PatientSexCodeType::Unknown => "Unknown",
        }
    }
}

impl PatientSexCodeType {
    /// Reads a member back from its literal, by its length and the characters that
    /// set it apart from the literals of the same length.
    spec fn decode(s: Seq<char>) -> Option<Self> {
        if s.len() == 4 {
            Some(PatientSexCodeType::Male)
        } else if s.len() == 6 {
            Some(PatientSexCodeType::Female)
        } else if s.len() == 7 && s[0] == 'M' {
            Some(PatientSexCodeType::Missing)
        } else if s.len() == 7 && s[0] == 'U' {
            Some(PatientSexCodeType::Unknown)
        } else {
            None
        }
    }

    /// `decode` reads every member back from its literal.
    proof fn lemma_decode(m: Self)
        ensures
            Self::decode(m.spec_value()) == Some(m),
    {
        reveal_strlit("Female");
        reveal_strlit("Male");
        reveal_strlit("Missing");
        reveal_strlit("Unknown");
    }

    /// No two members share a literal.
    pub proof fn lemma_literals_distinct(a: Self, b: Self)
        ensures
            a.spec_value() == b.spec_value() ==> a == b,
    {
        Self::lemma_decode(a);
        Self::lemma_decode(b);
    }
}

/// A place-of-service code.
#[derive(Clone, Copy, Debug, Hash, PartialEq, Eq, Structural)]
pub enum LocationTypeCodeType {
    Pharmacy,
    Telehealth,
    School,
    HomelessShelter,
    IndianHealthServiceFreeStandingFacility,
    IndianHealthServiceProviderBasedFacility,
    Tribal638FreeStandingFacility,
    Tribal638ProviderBasedFacility,
    Prison,
    Office,
    Home,
    AssistedLivingFacility,
    GroupHome,
    MobileUnit,
    TemporaryLodging,
    WalkInRetailHealthClinic,
    PlaceOfEmploymentWorksite,
    OffCampusOutpatientHospital,
    UrgentCareFacility,
    InpatientHospital,
    OnCampusOutpatientHospital,
    EmergencyRoom,
    AmbulatorySurgicalCenter,
    BirthingCenter,
    MilitaryTreatmentFacility,
    SkilledNursingFacility,
    NursingFacility,
    CustodialCareFacility,
    Hospice,
    AmbulanceLand,
    AmbulanceAirOrWater,
    IndependentClinic,
    FederallyQualifiedHealthCenter,
    InpatientPsychiatricFacility,
    PsychiatricFacilityPartialHospitalization,
    CommunityMentalHealthCenter,
    IntermediateCareFacility,
    ResidentialSubstanceAbuseTreatmentFacility,
    PsychiatricResidentialTreatmentCenter,
    NonResidentialSubstanceAbuseTreatmentFacility,
    MassImmunizationCenter,
    ComprehensiveInpatientRehabFacility,
    ComprehensiveOutpatientRehabFacility,
    EndStageRenalDiseaseTreatmentFacility,
    PublicHealthClinic,
    RuralHealthClinic,
    IndependentLaboratory,
    Other,
}

impl SchemaIntType for LocationTypeCodeType {
    open spec fn spec_value(&self) -> u64 {
        match self {
            LocationTypeCodeType::Pharmacy => 1,
            LocationTypeCodeType::Telehealth => 2,
            LocationTypeCodeType::School => 3,
            LocationTypeCodeType::HomelessShelter => 4,
            LocationTypeCodeType::IndianHealthServiceFreeStandingFacility => 5,
            LocationTypeCodeType::IndianHealthServiceProviderBasedFacility => 6,
            LocationTypeCodeType::Tribal638FreeStandingFacility => 7,
            LocationTypeCodeType::Tribal638ProviderBasedFacility => 8,
            LocationTypeCodeType::Prison => 9,
            LocationTypeCodeType::Office => 11,
            LocationTypeCodeType::Home => 12,
            LocationTypeCodeType::AssistedLivingFacility => 13,
            LocationTypeCodeType::GroupHome => 14,
            LocationTypeCodeType::MobileUnit => 15,
            LocationTypeCodeType::TemporaryLodging => 16,
            LocationTypeCodeType::WalkInRetailHealthClinic => 17,
            LocationTypeCodeType::PlaceOfEmploymentWorksite => 18,
            LocationTypeCodeType::OffCampusOutpatientHospital => 19,
            LocationTypeCodeType::UrgentCareFacility => 20,
            LocationTypeCodeType::InpatientHospital => 21,
            LocationTypeCodeType::OnCampusOutpatientHospital => 22,
            LocationTypeCodeType::EmergencyRoom => 23,
            LocationTypeCodeType::AmbulatorySurgicalCenter => 24,
            LocationTypeCodeType::BirthingCenter => 25,
            LocationTypeCodeType::MilitaryTreatmentFacility => 26,
            LocationTypeCodeType::SkilledNursingFacility => 31,
            LocationTypeCodeType::NursingFacility => 32,
            LocationTypeCodeType::CustodialCareFacility => 33,
            LocationTypeCodeType::Hospice => 34,
            LocationTypeCodeType::AmbulanceLand => 41,
            LocationTypeCodeType::AmbulanceAirOrWater => 42,
            LocationTypeCodeType::IndependentClinic => 49,
            LocationTypeCodeType::FederallyQualifiedHealthCenter => 50,
            LocationTypeCodeType::InpatientPsychiatricFacility => 51,
            LocationTypeCodeType::PsychiatricFacilityPartialHospitalization => 52,
            LocationTypeCodeType::CommunityMentalHealthCenter => 53,
            LocationTypeCodeType::IntermediateCareFacility => 54,
            LocationTypeCodeType::ResidentialSubstanceAbuseTreatmentFacility => 55,
            LocationTypeCodeType::PsychiatricResidentialTreatmentCenter => 56,
            LocationTypeCodeType::NonResidentialSubstanceAbuseTreatmentFacility => 57,
            LocationTypeCodeType::MassImmunizationCenter => 60,
            LocationTypeCodeType::ComprehensiveInpatientRehabFacility => 61,
            LocationTypeCodeType::ComprehensiveOutpatientRehabFacility => 62,
            LocationTypeCodeType::EndStageRenalDiseaseTreatmentFacility => 65,
            LocationTypeCodeType::PublicHealthClinic => 71,
            LocationTypeCodeType::RuralHealthClinic => 72,
            LocationTypeCodeType::IndependentLaboratory => 81,
            LocationTypeCodeType::Other => 99,
        }
    }

    fn value(&self) -> (r: u64) {
        match self {
            LocationTypeCodeType::Pharmacy => 1,
            LocationTypeCodeType::Telehealth => 2,
            LocationTypeCodeType::School => 3,
            LocationTypeCodeType::HomelessShelter => 4,
            LocationTypeCodeType::IndianHealthServiceFreeStandingFacility => 5,
            LocationTypeCodeType::IndianHealthServiceProviderBasedFacility => 6,
            LocationTypeCodeType::Tribal638FreeStandingFacility => 7,
            LocationTypeCodeType::Tribal638ProviderBasedFacility => 8,
            LocationTypeCodeType::Prison => 9,
            LocationTypeCodeType::Office => 11,
            LocationTypeCodeType::Home => 12,
            LocationTypeCodeType::AssistedLivingFacility => 13,
            LocationTypeCodeType::GroupHome => 14,
            LocationTypeCodeType::MobileUnit => 15,
            LocationTypeCodeType::TemporaryLodging => 16,
            LocationTypeCodeType::WalkInRetailHealthClinic => 17,
            LocationTypeCodeType::PlaceOfEmploymentWorksite => 18,
            LocationTypeCodeType::OffCampusOutpatientHospital => 19,
            LocationTypeCodeType::UrgentCareFacility => 20,
            LocationTypeCodeType::InpatientHospital => 21,
            LocationTypeCodeType::OnCampusOutpatientHospital => 22,
            LocationTypeCodeType::EmergencyRoom => 23,
            LocationTypeCodeType::AmbulatorySurgicalCenter => 24,
            LocationTypeCodeType::BirthingCenter => 25,
            LocationTypeCodeType::MilitaryTreatmentFacility => 26,
            LocationTypeCodeType::SkilledNursingFacility => 31,
            LocationTypeCodeType::NursingFacility => 32,
            LocationTypeCodeType::CustodialCareFacility => 33,
            LocationTypeCodeType::Hospice => 34,
            LocationTypeCodeType::AmbulanceLand => 41,
            LocationTypeCodeType::AmbulanceAirOrWater => 42,
            LocationTypeCodeType::IndependentClinic => 49,
            LocationTypeCodeType::FederallyQualifiedHealthCenter => 50,
            LocationTypeCodeType::InpatientPsychiatricFacility => 51,
            LocationTypeCodeType::PsychiatricFacilityPartialHospitalization => 52,
            LocationTypeCodeType::CommunityMentalHealthCenter => 53,
            LocationTypeCodeType::IntermediateCareFacility => 54,
            LocationTypeCodeType::ResidentialSubstanceAbuseTreatmentFacility => 55,
            LocationTypeCodeType::PsychiatricResidentialTreatmentCenter => 56,
            LocationTypeCodeType::NonResidentialSubstanceAbuseTreatmentFacility => 57,
            LocationTypeCodeType::MassImmunizationCenter => 60,
            LocationTypeCodeType::ComprehensiveInpatientRehabFacility => 61,
            LocationTypeCodeType::ComprehensiveOutpatientRehabFacility => 62,
            LocationTypeCodeType::EndStageRenalDiseaseTreatmentFacility => 65,
            LocationTypeCodeType::PublicHealthClinic => 71,
            LocationTypeCodeType::RuralHealthClinic => 72,
            LocationTypeCodeType::IndependentLaboratory => 81,
            LocationTypeCodeType::Other => 99,
        }
    }
}

impl LocationTypeCodeType {
    spec fn decode(n: u64) -> Option<Self> {
        if n == 1 {
            Some(LocationTypeCodeType::Pharmacy)
        } else if n == 2 {
            Some(LocationTypeCodeType::Telehealth)
        } else if n == 3 {
            Some(LocationTypeCodeType::School)
        } else if n == 4 {
            Some(LocationTypeCodeType::HomelessShelter)
        } else if n == 5 {
            Some(LocationTypeCodeType::IndianHealthServiceFreeStandingFacility)
        } else if n == 6 {
            Some(LocationTypeCodeType::IndianHealthServiceProviderBasedFacility)
        } else if n == 7 {
            Some(LocationTypeCodeType::Tribal638FreeStandingFacility)
        } else if n == 8 {
            Some(LocationTypeCodeType::Tribal638ProviderBasedFacility)
        } else if n == 9 {
            Some(LocationTypeCodeType::Prison)
        } else if n == 11 {
            Some(LocationTypeCodeType::Office)
        } else if n == 12 {
            Some(LocationTypeCodeType::Home)
        } else if n == 13 {
            Some(LocationTypeCodeType::AssistedLivingFacility)
        } else if n == 14 {
            Some(LocationTypeCodeType::GroupHome)
        } else if n == 15 {
            Some(LocationTypeCodeType::MobileUnit)
        } else if n == 16 {
            Some(LocationTypeCodeType::TemporaryLodging)
        } else if n == 17 {
            Some(LocationTypeCodeType::WalkInRetailHealthClinic)
        } else if n == 18 {
            Some(LocationTypeCodeType::PlaceOfEmploymentWorksite)
        } else if n == 19 {
            Some(LocationTypeCodeType::OffCampusOutpatientHospital)
        } else if n == 20 {
            Some(LocationTypeCodeType::UrgentCareFacility)
        } else if n == 21 {
            Some(LocationTypeCodeType::InpatientHospital)
        } else if n == 22 {
            Some(LocationTypeCodeType::OnCampusOutpatientHospital)
        } else if n == 23 {
            Some(LocationTypeCodeType::EmergencyRoom)
        } else if n == 24 {
            Some(LocationTypeCodeType::AmbulatorySurgicalCenter)
        } else if n == 25 {
            Some(LocationTypeCodeType::BirthingCenter)
        } else if n == 26 {
            Some(LocationTypeCodeType::MilitaryTreatmentFacility)
        } else if n == 31 {
            Some(LocationTypeCodeType::SkilledNursingFacility)
        } else if n == 32 {
            Some(LocationTypeCodeType::NursingFacility)
        } else if n == 33 {
            Some(LocationTypeCodeType::CustodialCareFacility)
        } else if n == 34 {
            Some(LocationTypeCodeType::Hospice)
        } else if n == 41 {
            Some(LocationTypeCodeType::AmbulanceLand)
        } else if n == 42 {
            Some(LocationTypeCodeType::AmbulanceAirOrWater)
        } else if n == 49 {
            Some(LocationTypeCodeType::IndependentClinic)
        } else if n == 50 {
            Some(LocationTypeCodeType::FederallyQualifiedHealthCenter)
        } else if n == 51 {
            Some(LocationTypeCodeType::InpatientPsychiatricFacility)
        } else if n == 52 {
            Some(LocationTypeCodeType::PsychiatricFacilityPartialHospitalization)
        } else if n == 53 {
            Some(LocationTypeCodeType::CommunityMentalHealthCenter)
        } else if n == 54 {
            Some(LocationTypeCodeType::IntermediateCareFacility)
        } else if n == 55 {
            Some(LocationTypeCodeType::ResidentialSubstanceAbuseTreatmentFacility)
        } else if n == 56 {
            Some(LocationTypeCodeType::PsychiatricResidentialTreatmentCenter)
        } else if n == 57 {
            Some(LocationTypeCodeType::NonResidentialSubstanceAbuseTreatmentFacility)
        } else if n == 60 {
            Some(LocationTypeCodeType::MassImmunizationCenter)
        } else if n == 61 {
            Some(LocationTypeCodeType::ComprehensiveInpatientRehabFacility)
        } else if n == 62 {
            Some(LocationTypeCodeType::ComprehensiveOutpatientRehabFacility)
        } else if n == 65 {
            Some(LocationTypeCodeType::EndStageRenalDiseaseTreatmentFacility)
        } else if n == 71 {
            Some(LocationTypeCodeType::PublicHealthClinic)
        } else if n == 72 {
            Some(LocationTypeCodeType::RuralHealthClinic)
        } else if n == 81 {
            Some(LocationTypeCodeType::IndependentLaboratory)
        } else if n == 99 {
            Some(LocationTypeCodeType::Other)
        } else {
            None
        }
    }

    /// `decode` reads every member back from its literal.
    proof fn lemma_decode(m: Self)
        ensures
            Self::decode(m.spec_value()) == Some(m),
    {
    }

    /// No two members share a literal.
    pub proof fn lemma_literals_distinct(a: Self, b: Self)
        ensures
            a.spec_value() == b.spec_value() ==> a == b,
    {
        Self::lemma_decode(a);
        Self::lemma_decode(b);
    }
}

/// How the patient was admitted.
#[derive(Clone, Copy, Debug, Hash, PartialEq, Eq, Structural)]
pub enum AdmissionStatusCodeType {
    Ambulatory,
    Inpatient,
    Observation,
    Unknown,
}

impl SchemaStringType for AdmissionStatusCodeType {
    open spec fn spec_value(&self) -> Seq<char> {
        match self {
            AdmissionStatusCodeType::Ambulatory => "Ambulatory"@,
            AdmissionStatusCodeType::Inpatient => "Inpatient"@,
            AdmissionStatusCodeType::Observation => "Observation"@,
            AdmissionStatusCodeType::Unknown => "Unknown"@,
        }
    }

    fn value(&self) -> (r: &str) {
        match self {
            AdmissionStatusCodeType::Ambulatory => "Ambulatory",
            AdmissionStatusCodeType::Inpatient => "Inpatient",
            AdmissionStatusCodeType::Observation => "Observation",
            AdmissionStatusCodeType::Unknown => "Unknown",
        }
    }
}

impl AdmissionStatusCodeType {
    /// Reads a member back from its literal, by its length and the characters that
    /// set it apart from the literals of the same length.
    spec fn decode(s: Seq<char>) -> Option<Self> {
        if s.len() == 10 {
            Some(AdmissionStatusCodeType::Ambulatory)
        } else if s.len() == 9 {
            Some(AdmissionStatusCodeType::Inpatient)
        } else if s.len() == 11 {
            Some(AdmissionStatusCodeType::Observation)
        } else if s.len() == 7 {
            Some(AdmissionStatusCodeType::Unknown)
        } else {
            None
        }
    }

    /// `decode` reads every member back from its literal.
    proof fn lemma_decode(m: Self)
        ensures
            Self::decode(m.spec_value()) == Some(m),
    {
        reveal_strlit("Ambulatory");
        reveal_strlit("Inpatient");
        reveal_strlit("Observation");
        reveal_strlit("Unknown");
    }

    /// No two members share a literal.
    pub proof fn lemma_literals_distinct(a: Self, b: Self)
        ensures
            a.spec_value() == b.spec_value() ==> a == b,
    {
        Self::lemma_decode(a);
        Self::lemma_decode(b);
    }
}

/// How urgent the procedure was.
#[derive(Clone, Copy, Debug, Hash, PartialEq, Eq, Structural)]
pub enum ProcStatusCodeType {
    Elective,
    Emergency,
    Urgent,
    Unknown,
}

impl SchemaStringType for ProcStatusCodeType {
    open spec fn spec_value(&self) -> Seq<char> {
        match self {
            ProcStatusCodeType::Elective => "Elective"@,
            ProcStatusCodeType::Emergency => "Emergency"@,
            ProcStatusCodeType::Urgent => "Urgent"@,
            ProcStatusCodeType::Unknown => "Unknown"@,
        }
    }

    fn value(&self) -> (r: &str) {
        match self {
            ProcStatusCodeType::Elective => "Elective",
            ProcStatusCodeType::Emergency => "Emergency",
            ProcStatusCodeType::Urgent => "Urgent",
            ProcStatusCodeType::Unknown => "Unknown",
        }
    }
}

impl ProcStatusCodeType {
    /// Reads a member back from its literal, by its length and the characters that
    /// set it apart from the literals of the same length.
    spec fn decode(s: Seq<char>) -> Option<Self> {
        if s.len() == 8 {
            Some(ProcStatusCodeType::Elective)
        } else if s.len() == 9 {
            Some(ProcStatusCodeType::Emergency)
        } else if s.len() == 6 {
            Some(ProcStatusCodeType::Urgent)
        } else if s.len() == 7 {
            Some(ProcStatusCodeType::Unknown)
        } else {
            None
        }
    }

    /// `decode` reads every member back from its literal.
    proof fn lemma_decode(m: Self)
        ensures
            Self::decode(m.spec_value()) == Some(m),
    {
        reveal_strlit("Elective");
        reveal_strlit("Emergency");
        reveal_strlit("Unknown");
        reveal_strlit("Urgent");
    }

    /// No two members share a literal.
    pub proof fn lemma_literals_distinct(a: Self, b: Self)
        ensures
            a.spec_value() == b.spec_value() ==> a == b,
    {
        Self::lemma_decode(a);
        Self::lemma_decode(b);
    }
}

/// Where the patient was transferred from.
#[derive(Clone, Copy, Debug, Hash, PartialEq, Eq, Structural)]
pub enum TransferStatusCodeType {
    AmbulatorySurgicalCenter,
    ClinicPhysicianOffice,
    Died,
    ExtendedCareFacility,
    FloorBed,
    HealthCareFacility,
    HomeWithoutServices,
    HomeWithServices,
    Hospice,
    Hospital,
    IntensiveCareUnit,
    LeftAgainstMedicalAdvice,
    ObservationUnit,
    OperatingRoom,
    PhysicianReferral,
    SameFacility,
    TelemetryStepDownUnit,
    Transferred,
    Other,
    Unknown,
}

impl SchemaStringType for TransferStatusCodeType {
    open spec fn spec_value(&self) -> Seq<char> {
        match self {
            TransferStatusCodeType::AmbulatorySurgicalCenter => "Ambulatory Surgical Center"@,
            TransferStatusCodeType::ClinicPhysicianOffice => "Clinic Physician Office"@,
            TransferStatusCodeType::Died => "Died"@,
            TransferStatusCodeType::ExtendedCareFacility => "Extended Care Facility"@,
            TransferStatusCodeType::FloorBed => "Floor bed"@,
            TransferStatusCodeType::HealthCareFacility => "Health Care Facility"@,
            TransferStatusCodeType::HomeWithoutServices => "Home without services"@,
            TransferStatusCodeType::HomeWithServices => "Home with services"@,
            TransferStatusCodeType::Hospice => "Hospice"@,
            TransferStatusCodeType::Hospital => "Hospital"@,
            TransferStatusCodeType::IntensiveCareUnit => "Intensive Care Unit"@,
            TransferStatusCodeType::LeftAgainstMedicalAdvice => "Left against medical advice"@,
            TransferStatusCodeType::ObservationUnit => "Observation unit"@,
            TransferStatusCodeType::OperatingRoom => "Operating Room"@,
            TransferStatusCodeType::PhysicianReferral => "Physician Referral"@,
            TransferStatusCodeType::SameFacility => "Same Facility"@,
            TransferStatusCodeType::TelemetryStepDownUnit => "Telemetry/step-down unit"@,
            TransferStatusCodeType::Transferred => "Transferred to another hospital"@,
            TransferStatusCodeType::Other => "Other"@,
            TransferStatusCodeType::Unknown => "Unknown"@,
        }
    }

    fn value(&self) -> (r: &str) {
        match self {
            TransferStatusCodeType::AmbulatorySurgicalCenter => "Ambulatory Surgical Center",
            TransferStatusCodeType::ClinicPhysicianOffice => "Clinic Physician Office",
            TransferStatusCodeType::Died => "Died",
            TransferStatusCodeType::ExtendedCareFacility => "Extended Care Facility",
            TransferStatusCodeType::FloorBed => "Floor bed",
            TransferStatusCodeType::HealthCareFacility => "Health Care Facility",
            TransferStatusCodeType::HomeWithoutServices => "Home without services",
            TransferStatusCodeType::HomeWithServices => "Home with services",
            TransferStatusCodeType::Hospice => "Hospice",
            TransferStatusCodeType::Hospital => "Hospital",
            TransferStatusCodeType::IntensiveCareUnit => "Intensive Care Unit",
            TransferStatusCodeType::LeftAgainstMedicalAdvice => "Left against medical advice",
            TransferStatusCodeType::ObservationUnit => "Observation unit",
            TransferStatusCodeType::OperatingRoom => "Operating Room",
            TransferStatusCodeType::PhysicianReferral => "Physician Referral",
            TransferStatusCodeType::SameFacility => "Same Facility",
            TransferStatusCodeType::TelemetryStepDownUnit => "Telemetry/step-down unit",
            TransferStatusCodeType::Transferred => "Transferred to another hospital",
            TransferStatusCodeType::Other => "Other",
            TransferStatusCodeType::Unknown => "Unknown",
        }
    }
}

impl TransferStatusCodeType {
    /// Reads a member back from its literal, by its length and the characters that
    /// set it apart from the literals of the same length.
    spec fn decode(s: Seq<char>) -> Option<Self> {
        if s.len() == 26 {
            Some(TransferStatusCodeType::AmbulatorySurgicalCenter)
        } else if s.len() == 23 {
            Some(TransferStatusCodeType::ClinicPhysicianOffice)
        } else if s.len() == 4 {
            Some(TransferStatusCodeType::Died)
        } else if s.len() == 22 {
            Some(TransferStatusCodeType::ExtendedCareFacility)
        } else if s.len() == 9 {
            Some(TransferStatusCodeType::FloorBed)
        } else if s.len() == 20 {
            Some(TransferStatusCodeType::HealthCareFacility)
        } else if s.len() == 21 {
            Some(TransferStatusCodeType::HomeWithoutServices)
        } else if s.len() == 18 && s[0] == 'H' {
            Some(TransferStatusCodeType::HomeWithServices)
        } else if s.len() == 7 && s[0] == 'H' {
            Some(TransferStatusCodeType::Hospice)
        } else if s.len() == 8 {
            Some(TransferStatusCodeType::Hospital)
        } else if s.len() == 19 {
            Some(TransferStatusCodeType::IntensiveCareUnit)
        } else if s.len() == 27 {
            Some(TransferStatusCodeType::LeftAgainstMedicalAdvice)
        } else if s.len() == 16 {
            Some(TransferStatusCodeType::ObservationUnit)
        } else if s.len() == 14 {
            Some(TransferStatusCodeType::OperatingRoom)
        } else if s.len() == 18 && s[0] == 'P' {
            Some(TransferStatusCodeType::PhysicianReferral)
        } else if s.len() == 13 {
            Some(TransferStatusCodeType::SameFacility)
        } else if s.len() == 24 {
            Some(TransferStatusCodeType::TelemetryStepDownUnit)
        } else if s.len() == 31 {
            Some(TransferStatusCodeType::Transferred)
        } else if s.len() == 5 {
            Some(TransferStatusCodeType::Other)
        } else if s.len() == 7 && s[0] == 'U' {
            Some(TransferStatusCodeType::Unknown)
        } else {
            None
        }
    }

    /// `decode` reads every member back from its literal.
    proof fn lemma_decode(m: Self)
        ensures
            Self::decode(m.spec_value()) == Some(m),
    {
        reveal_strlit("Ambulatory Surgical Center");
        reveal_strlit("Clinic Physician Office");
        reveal_strlit("Died");
        reveal_strlit("Extended Care Facility");
        reveal_strlit("Floor bed");
        reveal_strlit("Health Care Facility");
        reveal_strlit("Home with services");
        reveal_strlit("Home without services");
        reveal_strlit("Hospice");
        reveal_strlit("Hospital");
        reveal_strlit("Intensive Care Unit");
        reveal_strlit("Left against medical advice");
        reveal_strlit("Observation unit");
        reveal_strlit("Operating Room");
        reveal_strlit("Other");
        reveal_strlit("Physician Referral");
        reveal_strlit("Same Facility");
        reveal_strlit("Telemetry/step-down unit");
        reveal_strlit("Transferred to another hospital");
        reveal_strlit("Unknown");
    }

    /// No two members share a literal.
    pub proof fn lemma_literals_distinct(a: Self, b: Self)
        ensures
            a.spec_value() == b.spec_value() ==> a == b,
    {
        Self::lemma_decode(a);
        Self::lemma_decode(b);
    }
}

/// How the anesthesia care was covered by staff.
#[derive(Clone, Copy, Debug, Hash, PartialEq, Eq, Structural)]
pub enum CoverageCodeType {
    MdAlone,
    MdDirecting,
    MdPresent,
    CrnaAlone,
    CrnaDirected,
    CrnaSupervising,
    CrnaSupervised,
    MdSupervising,
    Md,
    PaAlone,
    PaDirected,
    CaaDirected,
}

impl SchemaStringType for CoverageCodeType {
    open spec fn spec_value(&self) -> Seq<char> {
        match self {
            CoverageCodeType::MdAlone => "MD-ALONE"@,
            CoverageCodeType::MdDirecting => "MD-DIRECTING"@,
            CoverageCodeType::MdPresent => "MD PRESENT BUT NOT DIRECTING"@,
            CoverageCodeType::CrnaAlone => "CRNA-ALONE"@,
            CoverageCodeType::CrnaDirected => "CRNA-DIRECTED"@,
            CoverageCodeType::CrnaSupervising => "CRNA-SUPERVISING"@,
            CoverageCodeType::CrnaSupervised => "CRNA-SUPERVISED"@,
            CoverageCodeType::MdSupervising => "MD-SUPERVISING"@,
            CoverageCodeType::Md => "MD-MD"@,
            CoverageCodeType::PaAlone => "PA-ALONE"@,
            CoverageCodeType::PaDirected => "PA-DIRECTED"@,
            CoverageCodeType::CaaDirected => "CAA-DIRECTED"@,
        }
    }

    fn value(&self) -> (r: &str) {
        match self {
            CoverageCodeType::MdAlone => "MD-ALONE",
            CoverageCodeType::MdDirecting => "MD-DIRECTING",
            CoverageCodeType::MdPresent => "MD PRESENT BUT NOT DIRECTING",
            CoverageCodeType::CrnaAlone => "CRNA-ALONE",
            CoverageCodeType::CrnaDirected => "CRNA-DIRECTED",
            CoverageCodeType::CrnaSupervising => "CRNA-SUPERVISING",
            CoverageCodeType::CrnaSupervised => "CRNA-SUPERVISED",
            CoverageCodeType::MdSupervising => "MD-SUPERVISING",
            CoverageCodeType::Md => "MD-MD",
            CoverageCodeType::PaAlone => "PA-ALONE",
            CoverageCodeType::PaDirected => "PA-DIRECTED",
            CoverageCodeType::CaaDirected => "CAA-DIRECTED",
        }
    }
}

impl CoverageCodeType {
    /// Reads a member back from its literal, by its length and the characters that
    /// set it apart from the literals of the same length.
    spec fn decode(s: Seq<char>) -> Option<Self> {
        if s.len() == 8 && s[0] == 'M' {
            Some(CoverageCodeType::MdAlone)
        } else if s.len() == 12 && s[0] == 'M' {
            Some(CoverageCodeType::MdDirecting)
        } else if s.len() == 28 {
            Some(CoverageCodeType::MdPresent)
        } else if s.len() == 10 {
            Some(CoverageCodeType::CrnaAlone)
        } else if s.len() == 13 {
            Some(CoverageCodeType::CrnaDirected)
        } else if s.len() == 16 {
            Some(CoverageCodeType::CrnaSupervising)
        } else if s.len() == 15 {
            Some(CoverageCodeType::CrnaSupervised)
        } else if s.len() == 14 {
            Some(CoverageCodeType::MdSupervising)
        } else if s.len() == 5 {
            Some(CoverageCodeType::Md)
        } else if s.len() == 8 && s[0] == 'P' {
            Some(CoverageCodeType::PaAlone)
        } else if s.len() == 11 {
            Some(CoverageCodeType::PaDirected)
        } else if s.len() == 12 && s[0] == 'C' {
            Some(CoverageCodeType::CaaDirected)
        } else {
            None
        }
    }

    /// `decode` reads every member back from its literal.
    proof fn lemma_decode(m: Self)
        ensures
            Self::decode(m.spec_value()) == Some(m),
    {
        reveal_strlit("CAA-DIRECTED");
        reveal_strlit("CRNA-ALONE");
        reveal_strlit("CRNA-DIRECTED");
        reveal_strlit("CRNA-SUPERVISED");
        reveal_strlit("CRNA-SUPERVISING");
        reveal_strlit("MD PRESENT BUT NOT DIRECTING");
        reveal_strlit("MD-ALONE");
        reveal_strlit("MD-DIRECTING");
        reveal_strlit("MD-MD");
        reveal_strlit("MD-SUPERVISING");
        reveal_strlit("PA-ALONE");
        reveal_strlit("PA-DIRECTED");
    }

    /// No two members share a literal.
    pub proof fn lemma_literals_distinct(a: Self, b: Self)
        ensures
            a.spec_value() == b.spec_value() ==> a == b,
    {
        Self::lemma_decode(a);
        Self::lemma_decode(b);
    }
}

/// A staff member's responsibility in the case.
#[derive(Clone, Copy, Debug, Hash, PartialEq, Eq, Structural)]
pub enum StaffResponsibilityCodeType {
    Supervisory,
    Monitoring,
    Administrative,
    InCharge,
    Performing,
    Responsible,
}

impl SchemaStringType for StaffResponsibilityCodeType {
    open spec fn spec_value(&self) -> Seq<char> {
        match self {
            StaffResponsibilityCodeType::Supervisory => "Supervisory"@,
            StaffResponsibilityCodeType::Monitoring => "Monitoring"@,
            StaffResponsibilityCodeType::Administrative => "Administrative"@,
            StaffResponsibilityCodeType::InCharge => "In charge"@,
            StaffResponsibilityCodeType::Performing => "Performing the case"@,
            StaffResponsibilityCodeType::Responsible => "Medically responsible"@,
        }
    }

    fn value(&self) -> (r: &str) {
        match self {
            StaffResponsibilityCodeType::Supervisory => "Supervisory",
            StaffResponsibilityCodeType::Monitoring => "Monitoring",
            StaffResponsibilityCodeType::Administrative => "Administrative",
            StaffResponsibilityCodeType::InCharge => "In charge",
            StaffResponsibilityCodeType::Performing => "Performing the case",
            StaffResponsibilityCodeType::Responsible => "Medically responsible",
        }
    }
}

impl StaffResponsibilityCodeType {
    /// Reads a member back from its literal, by its length and the characters that
    /// set it apart from the literals of the same length.
    spec fn decode(s: Seq<char>) -> Option<Self> {
        if s.len() == 11 {
            Some(StaffResponsibilityCodeType::Supervisory)
        } else if s.len() == 10 {
            Some(StaffResponsibilityCodeType::Monitoring)
        } else if s.len() == 14 {
            Some(StaffResponsibilityCodeType::Administrative)
        } else if s.len() == 9 {
            Some(StaffResponsibilityCodeType::InCharge)
        } else if s.len() == 19 {
            Some(StaffResponsibilityCodeType::Performing)
        } else if s.len() == 21 {
            Some(StaffResponsibilityCodeType::Responsible)
        } else {
            None
        }
    }

    /// `decode` reads every member back from its literal.
    proof fn lemma_decode(m: Self)
        ensures
            Self::decode(m.spec_value()) == Some(m),
    {
        reveal_strlit("Administrative");
        reveal_strlit("In charge");
        reveal_strlit("Medically responsible");
        reveal_strlit("Monitoring");
        reveal_strlit("Performing the case");
        reveal_strlit("Supervisory");
    }

    /// No two members share a literal.
    pub proof fn lemma_literals_distinct(a: Self, b: Self)
        ensures
            a.spec_value() == b.spec_value() ==> a == b,
    {
        Self::lemma_decode(a);
        Self::lemma_decode(b);
    }
}

/// A provider's credentials.
#[derive(Clone, Copy, Debug, Hash, PartialEq, Eq, Structural)]
pub enum ProviderCredentialsCodeType {
    AP,
    Anesthesiologist,
    CAA,
    CRNA,
    Dentist,
    Fellow,
    Surgeon,
    PA,
    Podiatrist,
    RN,
    Resident,
    SRNA,
}

impl SchemaStringType for ProviderCredentialsCodeType {
    open spec fn spec_value(&self) -> Seq<char> {
        match self {
            ProviderCredentialsCodeType::AP => "Advanced Practice Nurse"@,
            ProviderCredentialsCodeType::Anesthesiologist => "Anesthesiologist"@,
            ProviderCredentialsCodeType::CAA => "Certified Anesthesiologist Assistant"@,
            ProviderCredentialsCodeType::CRNA => "Certified Registered Nurse Anesthetist"@,
            ProviderCredentialsCodeType::Dentist => "Dentist or Oral Surgeon"@,
            ProviderCredentialsCodeType::Fellow => "Fellow (Anesthesiology)"@,
            ProviderCredentialsCodeType::Surgeon => "Surgeon"@,
            ProviderCredentialsCodeType::PA => "Physician Assistant"@,
            ProviderCredentialsCodeType::Podiatrist => "Podiatrist"@,
            ProviderCredentialsCodeType::RN => "Registered Nurse"@,
            ProviderCredentialsCodeType::Resident => "Resident (Anesthesia)"@,
            ProviderCredentialsCodeType::SRNA => "Student Registered Nurse Anesthetist"@,
        }
    }

    fn value(&self) -> (r: &str) {
        match self {
            ProviderCredentialsCodeType::AP => "Advanced Practice Nurse",
            ProviderCredentialsCodeType::Anesthesiologist => "Anesthesiologist",
            ProviderCredentialsCodeType::CAA => "Certified Anesthesiologist Assistant",
            ProviderCredentialsCodeType::CRNA => "Certified Registered Nurse Anesthetist",
            ProviderCredentialsCodeType::Dentist => "Dentist or Oral Surgeon",
            ProviderCredentialsCodeType::Fellow => "Fellow (Anesthesiology)",
            ProviderCredentialsCodeType::Surgeon => "Surgeon",
            ProviderCredentialsCodeType::PA => "Physician Assistant",
            ProviderCredentialsCodeType::Podiatrist => "Podiatrist",
            ProviderCredentialsCodeType::RN => "Registered Nurse",
            ProviderCredentialsCodeType::Resident => "Resident (Anesthesia)",
            ProviderCredentialsCodeType::SRNA => "Student Registered Nurse Anesthetist",
        }
    }
}

impl ProviderCredentialsCodeType {
    /// Reads a member back from its literal, by its length and the characters that
    /// set it apart from the literals of the same length.
    spec fn decode(s: Seq<char>) -> Option<Self> {
        if s.len() == 23 && s[0] == 'A' {
            Some(ProviderCredentialsCodeType::AP)
        } else if s.len() == 16 && s[0] == 'A' {
            Some(ProviderCredentialsCodeType::Anesthesiologist)
        } else if s.len() == 36 && s[0] == 'C' {
            Some(ProviderCredentialsCodeType::CAA)
        } else if s.len() == 38 {
            Some(ProviderCredentialsCodeType::CRNA)
        } else if s.len() == 23 && s[0] == 'D' {
            Some(ProviderCredentialsCodeType::Dentist)
        } else if s.len() == 23 && s[0] == 'F' {
            Some(ProviderCredentialsCodeType::Fellow)
        } else if s.len() == 7 {
            Some(ProviderCredentialsCodeType::Surgeon)
        } else if s.len() == 19 {
            Some(ProviderCredentialsCodeType::PA)
        } else if s.len() == 10 {
            Some(ProviderCredentialsCodeType::Podiatrist)
        } else if s.len() == 16 && s[0] == 'R' {
            Some(ProviderCredentialsCodeType::RN)
        } else if s.len() == 21 {
            Some(ProviderCredentialsCodeType::Resident)
        } else if s.len() == 36 && s[0] == 'S' {
            Some(ProviderCredentialsCodeType::SRNA)
        } else {
            None
        }
    }

    /// `decode` reads every member back from its literal.
    proof fn lemma_decode(m: Self)
        ensures
            Self::decode(m.spec_value()) == Some(m),
    {
        reveal_strlit("Advanced Practice Nurse");
        reveal_strlit("Anesthesiologist");
        reveal_strlit("Certified Anesthesiologist Assistant");
        reveal_strlit("Certified Registered Nurse Anesthetist");
        reveal_strlit("Dentist or Oral Surgeon");
        reveal_strlit("Fellow (Anesthesiology)");
        reveal_strlit("Physician Assistant");
        reveal_strlit("Podiatrist");
        reveal_strlit("Registered Nurse");
        reveal_strlit("Resident (Anesthesia)");
        reveal_strlit("Student Registered Nurse Anesthetist");
        reveal_strlit("Surgeon");
    }

    /// No two members share a literal.
    pub proof fn lemma_literals_distinct(a: Self, b: Self)
        ensures
            a.spec_value() == b.spec_value() ==> a == b,
    {
        Self::lemma_decode(a);
        Self::lemma_decode(b);
    }
}

/// A medical specialty.
#[derive(Clone, Copy, Debug, Hash, PartialEq, Eq, Structural)]
pub enum MedicalSpecialtyCodeType {
    CardiacSurgery,
    CardiologyEp,
    CardiologyGeneral,
    CardiologyInterventional,
    Dental,
    Dermatology,
    Endocrinology,
    Gastroenterology,
    GeneralMedicine,
    GeneralSurgery,
    Gynecology,
    GyneOnc,
    InfectiousDisease,
    Neonatology,
    Nephrology,
    Neurology,
    Neurosurgery,
    NormalNewborn,
    Obstetrics,
    Oncology,
    Opthalmology,
    OrthoFoot,
    OrthoHandWrist,
    OrthoMajorJoint,
    OrthoOther,
    OrthoSportsMed,
    OrthoTrauma,
    Otolaryngology,
    Psychiatry,
    Rehab,
    Respiratory,
    Rheumatology,
    Spine,
    SubstanceAbuse,
    SurgicalOncology,
    ThoracicSurgery,
    Transplant,
    Trauma,
    Ungroupable,
    Urology,
    Vascular,
}

impl SchemaStringType for MedicalSpecialtyCodeType {
    open spec fn spec_value(&self) -> Seq<char> {
        match self {
            MedicalSpecialtyCodeType::CardiacSurgery => "Cardiac Surgery"@,
            MedicalSpecialtyCodeType::CardiologyEp => "Cardiology-EP"@,
            MedicalSpecialtyCodeType::CardiologyGeneral => "Cardiology-General"@,
            MedicalSpecialtyCodeType::CardiologyInterventional => "Cardiology-Interventional"@,
            MedicalSpecialtyCodeType::Dental => "Dental/oral"@,
            MedicalSpecialtyCodeType::Dermatology => "Dermatology"@,
            MedicalSpecialtyCodeType::Endocrinology => "Endocrinology"@,
            MedicalSpecialtyCodeType::Gastroenterology => "Gastroenterology"@,
            MedicalSpecialtyCodeType::GeneralMedicine => "General Medicine"@,
            MedicalSpecialtyCodeType::GeneralSurgery => "General Surgery"@,
            MedicalSpecialtyCodeType::Gynecology => "Gynecology"@,
            MedicalSpecialtyCodeType::GyneOnc => "Gyne-Onc"@,
            MedicalSpecialtyCodeType::InfectiousDisease => "Infectious Disease"@,
            MedicalSpecialtyCodeType::Neonatology => "Neonatology"@,
            MedicalSpecialtyCodeType::Nephrology => "Nephrology"@,
            MedicalSpecialtyCodeType::Neurology => "Neurology"@,
            MedicalSpecialtyCodeType::Neurosurgery => "Neurosurgery"@,
            MedicalSpecialtyCodeType::NormalNewborn => "Normal Newborn"@,
            MedicalSpecialtyCodeType::Obstetrics => "Obstetrics"@,
            MedicalSpecialtyCodeType::Oncology => "Oncology"@,
            MedicalSpecialtyCodeType::Opthalmology => "Opthalmology"@,
            MedicalSpecialtyCodeType::OrthoFoot => "Orthopedics-Foot"@,
            MedicalSpecialtyCodeType::OrthoHandWrist => "Orthopedics-Hand/Wrist"@,
            MedicalSpecialtyCodeType::OrthoMajorJoint => "Orthopedics-Major Joint"@,
            MedicalSpecialtyCodeType::OrthoOther => "Orthopedics-Other"@,
            MedicalSpecialtyCodeType::OrthoSportsMed => "Orthopedics-Sports Med"@,
            MedicalSpecialtyCodeType::OrthoTrauma => "Orthopedics-Trauma"@,
            MedicalSpecialtyCodeType::Otolaryngology => "Otolaryngology"@,
            MedicalSpecialtyCodeType::Psychiatry => "Psychiatry"@,
            MedicalSpecialtyCodeType::Rehab => "Rehabilitation"@,
            MedicalSpecialtyCodeType::Respiratory => "Respiratory"@,
            MedicalSpecialtyCodeType::Rheumatology => "Rheumatology"@,
            MedicalSpecialtyCodeType::Spine => "Spine"@,
            MedicalSpecialtyCodeType::SubstanceAbuse => "Substance Abuse"@,
            MedicalSpecialtyCodeType::SurgicalOncology => "Surgical Oncology"@,
            MedicalSpecialtyCodeType::ThoracicSurgery => "Thoracic Surgery"@,
            MedicalSpecialtyCodeType::Transplant => "Transplant"@,
            MedicalSpecialtyCodeType::Trauma => "Trauma"@,
            MedicalSpecialtyCodeType::Ungroupable => "Ungroupable"@,
            MedicalSpecialtyCodeType::Urology => "Urology"@,
            MedicalSpecialtyCodeType::Vascular => "Vascular"@,
        }
    }

    fn value(&self) -> (r: &str) {
        match self {
            MedicalSpecialtyCodeType::CardiacSurgery => "Cardiac Surgery",
            MedicalSpecialtyCodeType::CardiologyEp => "Cardiology-EP",
            MedicalSpecialtyCodeType::CardiologyGeneral => "Cardiology-General",
            MedicalSpecialtyCodeType::CardiologyInterventional => "Cardiology-Interventional",
            MedicalSpecialtyCodeType::Dental => "Dental/oral",
            MedicalSpecialtyCodeType::Dermatology => "Dermatology",
            MedicalSpecialtyCodeType::Endocrinology => "Endocrinology",
            MedicalSpecialtyCodeType::Gastroenterology => "Gastroenterology",
            MedicalSpecialtyCodeType::GeneralMedicine => "General Medicine",
            MedicalSpecialtyCodeType::GeneralSurgery => "General Surgery",
            MedicalSpecialtyCodeType::Gynecology => "Gynecology",
            MedicalSpecialtyCodeType::GyneOnc => "Gyne-Onc",
            MedicalSpecialtyCodeType::InfectiousDisease => "Infectious Disease",
            MedicalSpecialtyCodeType::Neonatology => "Neonatology",
            MedicalSpecialtyCodeType::Nephrology => "Nephrology",
            MedicalSpecialtyCodeType::Neurology => "Neurology",
            MedicalSpecialtyCodeType::Neurosurgery => "Neurosurgery",
            MedicalSpecialtyCodeType::NormalNewborn => "Normal Newborn",
            MedicalSpecialtyCodeType::Obstetrics => "Obstetrics",
            MedicalSpecialtyCodeType::Oncology => "Oncology",
            MedicalSpecialtyCodeType::Opthalmology => "Opthalmology",
            MedicalSpecialtyCodeType::OrthoFoot => "Orthopedics-Foot",
            MedicalSpecialtyCodeType::OrthoHandWrist => "Orthopedics-Hand/Wrist",
            MedicalSpecialtyCodeType::OrthoMajorJoint => "Orthopedics-Major Joint",
            MedicalSpecialtyCodeType::OrthoOther => "Orthopedics-Other",
            MedicalSpecialtyCodeType::OrthoSportsMed => "Orthopedics-Sports Med",
            MedicalSpecialtyCodeType::OrthoTrauma => "Orthopedics-Trauma",
            MedicalSpecialtyCodeType::Otolaryngology => "Otolaryngology",
            MedicalSpecialtyCodeType::Psychiatry => "Psychiatry",
            MedicalSpecialtyCodeType::Rehab => "Rehabilitation",
            MedicalSpecialtyCodeType::Respiratory => "Respiratory",
            MedicalSpecialtyCodeType::Rheumatology => "Rheumatology",
            MedicalSpecialtyCodeType::Spine => "Spine",
            MedicalSpecialtyCodeType::SubstanceAbuse => "Substance Abuse",
            MedicalSpecialtyCodeType::SurgicalOncology => "Surgical Oncology",
            MedicalSpecialtyCodeType::ThoracicSurgery => "Thoracic Surgery",
            MedicalSpecialtyCodeType::Transplant => "Transplant",
            MedicalSpecialtyCodeType::Trauma => "Trauma",
            MedicalSpecialtyCodeType::Ungroupable => "Ungroupable",
            MedicalSpecialtyCodeType::Urology => "Urology",
            MedicalSpecialtyCodeType::Vascular => "Vascular",
        }
    }
}

impl MedicalSpecialtyCodeType {
    /// Reads a member back from its literal, by its length and the characters that
    /// set it apart from the literals of the same length.
    spec fn decode(s: Seq<char>) -> Option<Self> {
        if s.len() == 15 && s[0] == 'C' {
            Some(MedicalSpecialtyCodeType::CardiacSurgery)
        } else if s.len() == 13 && s[0] == 'C' {
            Some(MedicalSpecialtyCodeType::CardiologyEp)
        } else if s.len() == 18 && s[0] == 'C' {
            Some(MedicalSpecialtyCodeType::CardiologyGeneral)
        } else if s.len() == 25 {
            Some(MedicalSpecialtyCodeType::CardiologyInterventional)
        } else if s.len() == 11 && s[2] == 'n' {
            Some(MedicalSpecialtyCodeType::Dental)
        } else if s.len() == 11 && s[2] == 'r' {
            Some(MedicalSpecialtyCodeType::Dermatology)
        } else if s.len() == 13 && s[0] == 'E' {
            Some(MedicalSpecialtyCodeType::Endocrinology)
        } else if s.len() == 16 && s[1] == 'a' {
            Some(MedicalSpecialtyCodeType::Gastroenterology)
        } else if s.len() == 16 && s[1] == 'e' {
            Some(MedicalSpecialtyCodeType::GeneralMedicine)
        } else if s.len() == 15 && s[0] == 'G' {
            Some(MedicalSpecialtyCodeType::GeneralSurgery)
        } else if s.len() == 10 && s[0] == 'G' {
            Some(MedicalSpecialtyCodeType::Gynecology)
        } else if s.len() == 8 && s[0] == 'G' {
            Some(MedicalSpecialtyCodeType::GyneOnc)
        } else if s.len() == 18 && s[0] == 'I' {
            Some(MedicalSpecialtyCodeType::InfectiousDisease)
        } else if s.len() == 11 && s[2] == 'o' {
            Some(MedicalSpecialtyCodeType::Neonatology)
        } else if s.len() == 10 && s[0] == 'N' {
            Some(MedicalSpecialtyCodeType::Nephrology)
        } else if s.len() == 9 {
            Some(MedicalSpecialtyCodeType::Neurology)
        } else if s.len() == 12 && s[0] == 'N' {
            Some(MedicalSpecialtyCodeType::Neurosurgery)
        } else if s.len() == 14 && s[0] == 'N' {
            Some(MedicalSpecialtyCodeType::NormalNewborn)
        } else if s.len() == 10 && s[0] == 'O' {
            Some(MedicalSpecialtyCodeType::Obstetrics)
        } else if s.len() == 8 && s[0] == 'O' {
            Some(MedicalSpecialtyCodeType::Oncology)
        } else if s.len() == 12 && s[0] == 'O' {
            Some(MedicalSpecialtyCodeType::Opthalmology)
        } else if s.len() == 16 && s[1] == 'r' {
            Some(MedicalSpecialtyCodeType::OrthoFoot)
        } else if s.len() == 22 && s[12] == 'H' {
            Some(MedicalSpecialtyCodeType::OrthoHandWrist)
        } else if s.len() == 23 {
            Some(MedicalSpecialtyCodeType::OrthoMajorJoint)
        } else if s.len() == 17 && s[0] == 'O' {
            Some(MedicalSpecialtyCodeType::OrthoOther)
        } else if s.len() == 22 && s[12] == 'S' {
            Some(MedicalSpecialtyCodeType::OrthoSportsMed)
        } else if s.len() == 18 && s[0] == 'O' {
            Some(MedicalSpecialtyCodeType::OrthoTrauma)
        } else if s.len() == 14 && s[0] == 'O' {
            Some(MedicalSpecialtyCodeType::Otolaryngology)
        } else if s.len() == 10 && s[0] == 'P' {
            Some(MedicalSpecialtyCodeType::Psychiatry)
        } else if s.len() == 14 && s[0] == 'R' {
            Some(MedicalSpecialtyCodeType::Rehab)
        } else if s.len() == 11 && s[2] == 's' {
            Some(MedicalSpecialtyCodeType::Respiratory)
        } else if s.len() == 12 && s[0] == 'R' {
            Some(MedicalSpecialtyCodeType::Rheumatology)
        } else if s.len() == 5 {
            Some(MedicalSpecialtyCodeType::Spine)
        } else if s.len() == 15 && s[0] == 'S' {
            Some(MedicalSpecialtyCodeType::SubstanceAbuse)
        } else if s.len() == 17 && s[0] == 'S' {
            Some(MedicalSpecialtyCodeType::SurgicalOncology)
        } else if s.len() == 16 && s[1] == 'h' {
            Some(MedicalSpecialtyCodeType::ThoracicSurgery)
        } else if s.len() == 10 && s[0] == 'T' {
            Some(MedicalSpecialtyCodeType::Transplant)
        } else if s.len() == 6 {
            Some(MedicalSpecialtyCodeType::Trauma)
        } else if s.len() == 11 && s[2] == 'g' {
            Some(MedicalSpecialtyCodeType::Ungroupable)
        } else if s.len() == 7 {
            Some(MedicalSpecialtyCodeType::Urology)
        } else if s.len() == 8 && s[0] == 'V' {
            Some(MedicalSpecialtyCodeType::Vascular)
        } else {
            None
        }
    }

    /// `decode` reads every member back from its literal.
    proof fn lemma_decode(m: Self)
        ensures
            Self::decode(m.spec_value()) == Some(m),
    {
        reveal_strlit("Cardiac Surgery");
        reveal_strlit("Cardiology-EP");
        reveal_strlit("Cardiology-General");
        reveal_strlit("Cardiology-Interventional");
        reveal_strlit("Dental/oral");
        reveal_strlit("Dermatology");
        reveal_strlit("Endocrinology");
        reveal_strlit("Gastroenterology");
        reveal_strlit("General Medicine");
        reveal_strlit("General Surgery");
        reveal_strlit("Gyne-Onc");
        reveal_strlit("Gynecology");
        reveal_strlit("Infectious Disease");
        reveal_strlit("Neonatology");
        reveal_strlit("Nephrology");
        reveal_strlit("Neurology");
        reveal_strlit("Neurosurgery");
        reveal_strlit("Normal Newborn");
        reveal_strlit("Obstetrics");
        reveal_strlit("Oncology");
        reveal_strlit("Opthalmology");
        reveal_strlit("Orthopedics-Foot");
        reveal_strlit("Orthopedics-Hand/Wrist");
        reveal_strlit("Orthopedics-Major Joint");
        reveal_strlit("Orthopedics-Other");
        reveal_strlit("Orthopedics-Sports Med");
        reveal_strlit("Orthopedics-Trauma");
        reveal_strlit("Otolaryngology");
        reveal_strlit("Psychiatry");
        reveal_strlit("Rehabilitation");
        reveal_strlit("Respiratory");
        reveal_strlit("Rheumatology");
        reveal_strlit("Spine");
        reveal_strlit("Substance Abuse");
        reveal_strlit("Surgical Oncology");
        reveal_strlit("Thoracic Surgery");
        reveal_strlit("Transplant");
        reveal_strlit("Trauma");
        reveal_strlit("Ungroupable");
        reveal_strlit("Urology");
        reveal_strlit("Vascular");
    }

    /// No two members share a literal.
    pub proof fn lemma_literals_distinct(a: Self, b: Self)
        ensures
            a.spec_value() == b.spec_value() ==> a == b,
    {
        Self::lemma_decode(a);
        Self::lemma_decode(b);
    }
}

/// The category of anesthesia given.
#[derive(Clone, Copy, Debug, Hash, PartialEq, Eq, Structural)]
pub enum AnesthesiaCategoryCodeType {
    GeneralAnesthesia,
    MonitoredAnesthesiaCare,
    Neuraxial,
    PeripheralNerveBlock,
    NoAnesthesia,
    Unknown,
}

impl SchemaStringType for AnesthesiaCategoryCodeType {
    open spec fn spec_value(&self) -> Seq<char> {
        match self {
            AnesthesiaCategoryCodeType::GeneralAnesthesia => "General Anesthesia"@,
            AnesthesiaCategoryCodeType::MonitoredAnesthesiaCare => "Monitored Anesthesia Care"@,
            AnesthesiaCategoryCodeType::Neuraxial => "Neuraxial"@,
            AnesthesiaCategoryCodeType::PeripheralNerveBlock => "Peripheral Nerve Block"@,
            AnesthesiaCategoryCodeType::NoAnesthesia => "No Anesthesia Provided"@,
            AnesthesiaCategoryCodeType::Unknown => "Unknown"@,
        }
    }

    fn value(&self) -> (r: &str) {
        match self {
            AnesthesiaCategoryCodeType::GeneralAnesthesia => "General Anesthesia",
            AnesthesiaCategoryCodeType::MonitoredAnesthesiaCare => "Monitored Anesthesia Care",
            AnesthesiaCategoryCodeType::Neuraxial => "Neuraxial",
            AnesthesiaCategoryCodeType::PeripheralNerveBlock => "Peripheral Nerve Block",
            AnesthesiaCategoryCodeType::NoAnesthesia => "No Anesthesia Provided",
            AnesthesiaCategoryCodeType::Unknown => "Unknown",
        }
    }
}

impl AnesthesiaCategoryCodeType {
    /// Reads a member back from its literal, by its length and the characters that
    /// set it apart from the literals of the same length.
    spec fn decode(s: Seq<char>) -> Option<Self> {
        if s.len() == 18 {
            Some(AnesthesiaCategoryCodeType::GeneralAnesthesia)
        } else if s.len() == 25 {
            Some(AnesthesiaCategoryCodeType::MonitoredAnesthesiaCare)
        } else if s.len() == 9 {
            Some(AnesthesiaCategoryCodeType::Neuraxial)
        } else if s.len() == 22 && s[0] == 'P' {
            Some(AnesthesiaCategoryCodeType::PeripheralNerveBlock)
        } else if s.len() == 22 && s[0] == 'N' {
            Some(AnesthesiaCategoryCodeType::NoAnesthesia)
        } else if s.len() == 7 {
            Some(AnesthesiaCategoryCodeType::Unknown)
        } else {
            None
        }
    }

    /// `decode` reads every member back from its literal.
    proof fn lemma_decode(m: Self)
        ensures
            Self::decode(m.spec_value()) == Some(m),
    {
        reveal_strlit("General Anesthesia");
        reveal_strlit("Monitored Anesthesia Care");
        reveal_strlit("Neuraxial");
        reveal_strlit("No Anesthesia Provided");
        reveal_strlit("Peripheral Nerve Block");
        reveal_strlit("Unknown");
    }

    /// No two members share a literal.
    pub proof fn lemma_literals_distinct(a: Self, b: Self)
        ensures
            a.spec_value() == b.spec_value() ==> a == b,
    {
        Self::lemma_decode(a);
        Self::lemma_decode(b);
    }
}

/// The subcategory of anesthesia given.
#[derive(Clone, Copy, Debug, Hash, PartialEq, Eq, Structural)]
pub enum AnesthesiaSubCategoryCodeType {
    Combined,
    Epidural,
    Spinal,
    InhalationalGeneral,
    TotalIntravenous,
}

impl SchemaStringType for AnesthesiaSubCategoryCodeType {
    open spec fn spec_value(&self) -> Seq<char> {
        match self {
            AnesthesiaSubCategoryCodeType::Combined => "Combined Spinal and Epidural"@,
            AnesthesiaSubCategoryCodeType::Epidural => "Epidural"@,
            AnesthesiaSubCategoryCodeType::Spinal => "Spinal"@,
            AnesthesiaSubCategoryCodeType::InhalationalGeneral => "Inhalational General Anesthesia"@,
            AnesthesiaSubCategoryCodeType::TotalIntravenous => "Total Intravenous Anesthesia"@,
        }
    }

    fn value(&self) -> (r: &str) {
        match self {
            AnesthesiaSubCategoryCodeType::Combined => "Combined Spinal and Epidural",
            AnesthesiaSubCategoryCodeType::Epidural => "Epidural",
            AnesthesiaSubCategoryCodeType::Spinal => "Spinal",
            AnesthesiaSubCategoryCodeType::InhalationalGeneral => "Inhalational General Anesthesia",
            AnesthesiaSubCategoryCodeType::TotalIntravenous => "Total Intravenous Anesthesia",
        }
    }
}

impl AnesthesiaSubCategoryCodeType {
    /// Reads a member back from its literal, by its length and the characters that
    /// set it apart from the literals of the same length.
    spec fn decode(s: Seq<char>) -> Option<Self> {
        if s.len() == 28 && s[0] == 'C' {
            Some(AnesthesiaSubCategoryCodeType::Combined)
        } else if s.len() == 8 {
            Some(AnesthesiaSubCategoryCodeType::Epidural)
        } else if s.len() == 6 {
            Some(AnesthesiaSubCategoryCodeType::Spinal)
        } else if s.len() == 31 {
            Some(AnesthesiaSubCategoryCodeType::InhalationalGeneral)
        } else if s.len() == 28 && s[0] == 'T' {
            Some(AnesthesiaSubCategoryCodeType::TotalIntravenous)
        } else {
            None
        }
    }

    /// `decode` reads every member back from its literal.
    proof fn lemma_decode(m: Self)
        ensures
            Self::decode(m.spec_value()) == Some(m),
    {
        reveal_strlit("Combined Spinal and Epidural");
        reveal_strlit("Epidural");
        reveal_strlit("Inhalational General Anesthesia");
        reveal_strlit("Spinal");
        reveal_strlit("Total Intravenous Anesthesia");
    }

    /// No two members share a literal.
    pub proof fn lemma_literals_distinct(a: Self, b: Self)
        ensures
            a.spec_value() == b.spec_value() ==> a == b,
    {
        Self::lemma_decode(a);
        Self::lemma_decode(b);
    }
}

/// An ASA physical status class, with `E` for an emergency.
#[derive(Clone, Copy, Debug, Hash, PartialEq, Eq, Structural)]
pub enum ASAClassCodeType {
    I,
    IE,
    II,
    IIE,
    III,
    IIIE,
    IV,
    IVE,
    V,
    VE,
    VI,
    VIE,
    Unknown,
}

impl SchemaStringType for ASAClassCodeType {
    open spec fn spec_value(&self) -> Seq<char> {
        match self {
            ASAClassCodeType::I => "I"@,
            ASAClassCodeType::IE => "IE"@,
            ASAClassCodeType::II => "II"@,
            ASAClassCodeType::IIE => "IIE"@,
            ASAClassCodeType::III => "III"@,
            ASAClassCodeType::IIIE => "IIIE"@,
            ASAClassCodeType::IV => "IV"@,
            ASAClassCodeType::IVE => "IVE"@,
            ASAClassCodeType::V => "V"@,
            ASAClassCodeType::VE => "VE"@,
            ASAClassCodeType::VI => "VI"@,
            ASAClassCodeType::VIE => "VIE"@,
            ASAClassCodeType::Unknown => "Unknown"@,
        }
    }

    fn value(&self) -> (r: &str) {
        match self {
            ASAClassCodeType::I => "I",
            ASAClassCodeType::IE => "IE",
            ASAClassCodeType::II => "II",
            ASAClassCodeType::IIE => "IIE",
            ASAClassCodeType::III => "III",
            ASAClassCodeType::IIIE => "IIIE",
            ASAClassCodeType::IV => "IV",
            ASAClassCodeType::IVE => "IVE",
            ASAClassCodeType::V => "V",
            ASAClassCodeType::VE => "VE",
            ASAClassCodeType::VI => "VI",
            ASAClassCodeType::VIE => "VIE",
            ASAClassCodeType::Unknown => "Unknown",
        }
    }
}

impl ASAClassCodeType {
    /// Reads a member back from its literal, by its length and the characters that
    /// set it apart from the literals of the same length.
    spec fn decode(s: Seq<char>) -> Option<Self> {
        if s.len() == 1 && s[0] == 'I' {
            Some(ASAClassCodeType::I)
        } else if s.len() == 2 && s[0] == 'I' && s[1] == 'E' {
            Some(ASAClassCodeType::IE)
        } else if s.len() == 2 && s[0] == 'I' && s[1] == 'I' {
            Some(ASAClassCodeType::II)
        } else if s.len() == 3 && s[0] == 'I' && s[1] == 'I' && s[2] == 'E' {
            Some(ASAClassCodeType::IIE)
        } else if s.len() == 3 && s[0] == 'I' && s[1] == 'I' && s[2] == 'I' {
            Some(ASAClassCodeType::III)
        } else if s.len() == 4 {
            Some(ASAClassCodeType::IIIE)
        } else if s.len() == 2 && s[0] == 'I' && s[1] == 'V' {
            Some(ASAClassCodeType::IV)
        } else if s.len() == 3 && s[0] == 'I' && s[1] == 'V' && s[2] == 'E' {
            Some(ASAClassCodeType::IVE)
        } else if s.len() == 1 && s[0] == 'V' {
            Some(ASAClassCodeType::V)
        } else if s.len() == 2 && s[0] == 'V' && s[1] == 'E' {
            Some(ASAClassCodeType::VE)
        } else if s.len() == 2 && s[0] == 'V' && s[1] == 'I' {
            Some(ASAClassCodeType::VI)
        } else if s.len() == 3 && s[0] == 'V' && s[1] == 'I' && s[2] == 'E' {
            Some(ASAClassCodeType::VIE)
        } else if s.len() == 7 {
            Some(ASAClassCodeType::Unknown)
        } else {
            None
        }
    }

    /// `decode` reads every member back from its literal.
    proof fn lemma_decode(m: Self)
        ensures
            Self::decode(m.spec_value()) == Some(m),
    {
        reveal_strlit("I");
        reveal_strlit("IE");
        reveal_strlit("II");
        reveal_strlit("IIE");
        reveal_strlit("III");
        reveal_strlit("IIIE");
        reveal_strlit("IV");
        reveal_strlit("IVE");
        reveal_strlit("Unknown");
        reveal_strlit("V");
        reveal_strlit("VE");
        reveal_strlit("VI");
        reveal_strlit("VIE");
    }

    /// No two members share a literal.
    pub proof fn lemma_literals_distinct(a: Self, b: Self)
        ensures
            a.spec_value() == b.spec_value() ==> a == b,
    {
        Self::lemma_decode(a);
        Self::lemma_decode(b);
    }
}

/// The patient's state before anesthesia.
#[derive(Clone, Copy, Debug, Hash, PartialEq, Eq, Structural)]
pub enum PreAnesthStatusCodeType {
    Awake,
    Calm,
    Asleep,
    Confused,
    Unresponsive,
    Apprehensive,
    Uncooperative,
    Other,
    Unknown,
}

impl SchemaStringType for PreAnesthStatusCodeType {
    open spec fn spec_value(&self) -> Seq<char> {
        match self {
            PreAnesthStatusCodeType::Awake => "Awake"@,
            PreAnesthStatusCodeType::Calm => "Calm"@,
            PreAnesthStatusCodeType::Asleep => "Asleep"@,
            PreAnesthStatusCodeType::Confused => "Confused"@,
            PreAnesthStatusCodeType::Unresponsive => "Unresponsive"@,
            PreAnesthStatusCodeType::Apprehensive => "Apprehensive"@,
            PreAnesthStatusCodeType::Uncooperative => "Uncooperative"@,
            PreAnesthStatusCodeType::Other => "Other"@,
            PreAnesthStatusCodeType::Unknown => "Unknown"@,
        }
    }

    fn value(&self) -> (r: &str) {
        match self {
            PreAnesthStatusCodeType::Awake => "Awake",
            PreAnesthStatusCodeType::Calm => "Calm",
            PreAnesthStatusCodeType::Asleep => "Asleep",
            PreAnesthStatusCodeType::Confused => "Confused",
            PreAnesthStatusCodeType::Unresponsive => "Unresponsive",
            PreAnesthStatusCodeType::Apprehensive => "Apprehensive",
            PreAnesthStatusCodeType::Uncooperative => "Uncooperative",
            PreAnesthStatusCodeType::Other => "Other",
            PreAnesthStatusCodeType::Unknown => "Unknown",
        }
    }
}

impl PreAnesthStatusCodeType {
    /// Reads a member back from its literal, by its length and the characters that
    /// set it apart from the literals of the same length.
    spec fn decode(s: Seq<char>) -> Option<Self> {
        if s.len() == 5 && s[0] == 'A' {
            Some(PreAnesthStatusCodeType::Awake)
        } else if s.len() == 4 {
            Some(PreAnesthStatusCodeType::Calm)
        } else if s.len() == 6 {
            Some(PreAnesthStatusCodeType::Asleep)
        } else if s.len() == 8 {
            Some(PreAnesthStatusCodeType::Confused)
        } else if s.len() == 12 && s[0] == 'U' {
            Some(PreAnesthStatusCodeType::Unresponsive)
        } else if s.len() == 12 && s[0] == 'A' {
            Some(PreAnesthStatusCodeType::Apprehensive)
        } else if s.len() == 13 {
            Some(PreAnesthStatusCodeType::Uncooperative)
        } else if s.len() == 5 && s[0] == 'O' {
            Some(PreAnesthStatusCodeType::Other)
        } else if s.len() == 7 {
            Some(PreAnesthStatusCodeType::Unknown)
        } else {
            None
        }
    }

    /// `decode` reads every member back from its literal.
    proof fn lemma_decode(m: Self)
        ensures
            Self::decode(m.spec_value()) == Some(m),
    {
        reveal_strlit("Apprehensive");
        reveal_strlit("Asleep");
        reveal_strlit("Awake");
        reveal_strlit("Calm");
        reveal_strlit("Confused");
        reveal_strlit("Other");
        reveal_strlit("Uncooperative");
        reveal_strlit("Unknown");
        reveal_strlit("Unresponsive");
    }

    /// No two members share a literal.
    pub proof fn lemma_literals_distinct(a: Self, b: Self)
        ensures
            a.spec_value() == b.spec_value() ==> a == b,
    {
        Self::lemma_decode(a);
        Self::lemma_decode(b);
    }
}

/// The ICD revision of a code.
#[derive(Clone, Copy, Debug, Hash, PartialEq, Eq, Structural)]
pub enum ICDVersionType {
    Nine,
    Ten,
}

impl SchemaStringType for ICDVersionType {
    open spec fn spec_value(&self) -> Seq<char> {
        match self {
            ICDVersionType::Nine => "9"@,
            ICDVersionType::Ten => "10"@,
        }
    }

    fn value(&self) -> (r: &str) {
        match self {
            ICDVersionType::Nine => "9",
            ICDVersionType::Ten => "10",
        }
    }
}

impl ICDVersionType {
    /// Reads a member back from its literal, by its length and the characters that
    /// set it apart from the literals of the same length.
    spec fn decode(s: Seq<char>) -> Option<Self> {
        if s.len() == 1 {
            Some(ICDVersionType::Nine)
        } else if s.len() == 2 {
            Some(ICDVersionType::Ten)
        } else {
            None
        }
    }

    /// `decode` reads every member back from its literal.
    proof fn lemma_decode(m: Self)
        ensures
            Self::decode(m.spec_value()) == Some(m),
    {
        reveal_strlit("10");
        reveal_strlit("9");
    }

    /// No two members share a literal.
    pub proof fn lemma_literals_distinct(a: Self, b: Self)
        ensures
            a.spec_value() == b.spec_value() ==> a == b,
    {
        Self::lemma_decode(a);
        Self::lemma_decode(b);
    }
}

/// The patient's discharge after the procedure.
#[derive(Clone, Copy, Debug, Hash, PartialEq, Eq, Structural)]
pub enum PostOpDischargeCodeType {
    Home,
    ShortTermGeneralHospital,
    SkilledNursingFacility,
    IntermediateCareFacility,
    OtherInstitution,
    HomeUnderOrganizedCare,
    LeftAgainstMedicalAdvice,
    HomeIVProvider,
    AdmittedAsInpatient,
    Expired,
    StillPatient,
    ExpiredAtHome,
    ExpiredAtMedicalFacility,
    ExpiredAtUnknown,
    Other,
    Unknown,
}

impl SchemaStringType for PostOpDischargeCodeType {
    open spec fn spec_value(&self) -> Seq<char> {
        match self {
            PostOpDischargeCodeType::Home => "Home or self care (routine discharge)"@,
            PostOpDischargeCodeType::ShortTermGeneralHospital => "Short term general hospital for inpatient care"@,
            PostOpDischargeCodeType::SkilledNursingFacility => "Skilled nursing facility (SNF)"@,
            PostOpDischargeCodeType::IntermediateCareFacility => "Intermediate care facility (ICF)"@,
            PostOpDischargeCodeType::OtherInstitution => "Another type of institution"@,
            PostOpDischargeCodeType::HomeUnderOrganizedCare => "Home under care of organized home health service organization"@,
            PostOpDischargeCodeType::LeftAgainstMedicalAdvice => "Left against medical advice or discontinued care"@,
            PostOpDischargeCodeType::HomeIVProvider => "Home under care of Home IV provider"@,
            PostOpDischargeCodeType::AdmittedAsInpatient => "Admitted as an inpatient to this hospital"@,
            PostOpDischargeCodeType::Expired => "Expired (i.e. dead)"@,
            PostOpDischargeCodeType::StillPatient => "Still patient or expected to return for outpatient services (i.e. still a patient)"@,
            PostOpDischargeCodeType::ExpiredAtHome => "Expired (i.e. died) at home"@,
            PostOpDischargeCodeType::ExpiredAtMedicalFacility => "Expired (i.e. died) in a medical facility; e.g., hospital, SNF, ICF, or free standing hospice"@,
            PostOpDischargeCodeType::ExpiredAtUnknown => "Expired (i.e. died) - place unknown"@,
            PostOpDischargeCodeType::Other => "Other"@,
            PostOpDischargeCodeType::Unknown => "Unknown"@,
        }
    }

    fn value(&self) -> (r: &str) {
        match self {
            PostOpDischargeCodeType::Home => "Home or self care (routine discharge)",
            PostOpDischargeCodeType::ShortTermGeneralHospital => "Short term general hospital for inpatient care",
            PostOpDischargeCodeType::SkilledNursingFacility => "Skilled nursing facility (SNF)",
            PostOpDischargeCodeType::IntermediateCareFacility => "Intermediate care facility (ICF)",
            PostOpDischargeCodeType::OtherInstitution => "Another type of institution",
            PostOpDischargeCodeType::HomeUnderOrganizedCare => "Home under care of organized home health service organization",
            PostOpDischargeCodeType::LeftAgainstMedicalAdvice => "Left against medical advice or discontinued care",
            PostOpDischargeCodeType::HomeIVProvider => "Home under care of Home IV provider",
            PostOpDischargeCodeType::AdmittedAsInpatient => "Admitted as an inpatient to this hospital",
            PostOpDischargeCodeType::Expired => "Expired (i.e. dead)",
            PostOpDischargeCodeType::StillPatient => "Still patient or expected to return for outpatient services (i.e. still a patient)",
            PostOpDischargeCodeType::ExpiredAtHome => "Expired (i.e. died) at home",
            PostOpDischargeCodeType::ExpiredAtMedicalFacility => "Expired (i.e. died) in a medical facility; e.g., hospital, SNF, ICF, or free standing hospice",
            PostOpDischargeCodeType::ExpiredAtUnknown => "Expired (i.e. died) - place unknown",
            PostOpDischargeCodeType::Other => "Other",
            PostOpDischargeCodeType::Unknown => "Unknown",
        }
    }
}

impl PostOpDischargeCodeType {
    /// Reads a member back from its literal, by its length and the characters that
    /// set it apart from the literals of the same length.
    spec fn decode(s: Seq<char>) -> Option<Self> {
        if s.len() == 37 {
            Some(PostOpDischargeCodeType::Home)
        } else if s.len() == 46 {
            Some(PostOpDischargeCodeType::ShortTermGeneralHospital)
        } else if s.len() == 30 {
            Some(PostOpDischargeCodeType::SkilledNursingFacility)
        } else if s.len() == 32 {
            Some(PostOpDischargeCodeType::IntermediateCareFacility)
        } else if s.len() == 27 && s[0] == 'A' {
            Some(PostOpDischargeCodeType::OtherInstitution)
        } else if s.len() == 61 {
            Some(PostOpDischargeCodeType::HomeUnderOrganizedCare)
        } else if s.len() == 48 {
            Some(PostOpDischargeCodeType::LeftAgainstMedicalAdvice)
        } else if s.len() == 35 && s[0] == 'H' {
            Some(PostOpDischargeCodeType::HomeIVProvider)
        } else if s.len() == 41 {
            Some(PostOpDischargeCodeType::AdmittedAsInpatient)
        } else if s.len() == 19 {
            Some(PostOpDischargeCodeType::Expired)
        } else if s.len() == 82 {
            Some(PostOpDischargeCodeType::StillPatient)
        } else if s.len() == 27 && s[0] == 'E' {
            Some(PostOpDischargeCodeType::ExpiredAtHome)
        } else if s.len() == 93 {
            Some(PostOpDischargeCodeType::ExpiredAtMedicalFacility)
        } else if s.len() == 35 && s[0] == 'E' {
            Some(PostOpDischargeCodeType::ExpiredAtUnknown)
        } else if s.len() == 5 {
            Some(PostOpDischargeCodeType::Other)
        } else if s.len() == 7 {
            Some(PostOpDischargeCodeType::Unknown)
        } else {
            None
        }
    }

    /// `decode` reads every member back from its literal.
    proof fn lemma_decode(m: Self)
        ensures
            Self::decode(m.spec_value()) == Some(m),
    {
        reveal_strlit("Admitted as an inpatient to this hospital");
        reveal_strlit("Another type of institution");
        reveal_strlit("Expired (i.e. dead)");
        reveal_strlit("Expired (i.e. died) - place unknown");
        reveal_strlit("Expired (i.e. died) at home");
        reveal_strlit("Expired (i.e. died) in a medical facility; e.g., hospital, SNF, ICF, or free standing hospice");
        reveal_strlit("Home or self care (routine discharge)");
        reveal_strlit("Home under care of Home IV provider");
        reveal_strlit("Home under care of organized home health service organization");
        reveal_strlit("Intermediate care facility (ICF)");
        reveal_strlit("Left against medical advice or discontinued care");
        reveal_strlit("Other");
        reveal_strlit("Short term general hospital for inpatient care");
        reveal_strlit("Skilled nursing facility (SNF)");
        reveal_strlit("Still patient or expected to return for outpatient services (i.e. still a patient)");
        reveal_strlit("Unknown");
    }

    /// No two members share a literal.
    pub proof fn lemma_literals_distinct(a: Self, b: Self)
        ensures
            a.spec_value() == b.spec_value() ==> a == b,
    {
        Self::lemma_decode(a);
        Self::lemma_decode(b);
    }
}

/// A method of payment.
#[derive(Clone, Copy, Debug, Hash, PartialEq, Eq, Structural)]
pub enum PaymentMethodCodeType {
    Charity,
    Commercial,
    GovernmentMedicaid,
    GovernmentMedicareA,
    GovernmentMedicareB,
    GovernmentMedicareC,
    GovernmentMilitaryVeteran,
    GovernmentOther,
    SelfPay,
    WorkersCompensation,
    Other,
    Unknown,
}

impl SchemaStringType for PaymentMethodCodeType {
    open spec fn spec_value(&self) -> Seq<char> {
        match self {
            PaymentMethodCodeType::Charity => "Charity"@,
            PaymentMethodCodeType::Commercial => "Commercial"@,
            PaymentMethodCodeType::GovernmentMedicaid => "Government: Medicaid"@,
            PaymentMethodCodeType::GovernmentMedicareA => "Government: Medicare Fee for Service - Part A"@,
            PaymentMethodCodeType::GovernmentMedicareB => "Government: Medicare Fee for Service - Part B"@,
            PaymentMethodCodeType::GovernmentMedicareC => "Government: Medicare Fee for Service - Part C"@,
            PaymentMethodCodeType::GovernmentMilitaryVeteran => "Government: Military/Veteran"@,
            PaymentMethodCodeType::GovernmentOther => "Government: Other"@,
            PaymentMethodCodeType::SelfPay => "Self-Pay"@,
            PaymentMethodCodeType::WorkersCompensation => "Worker's Compensation"@,
            PaymentMethodCodeType::Other => "Other"@,
            PaymentMethodCodeType::Unknown => "Unknown"@,
        }
    }

    fn value(&self) -> (r: &str) {
        match self {
            PaymentMethodCodeType::Charity => "Charity",
            PaymentMethodCodeType::Commercial => "Commercial",
            PaymentMethodCodeType::GovernmentMedicaid => "Government: Medicaid",
            PaymentMethodCodeType::GovernmentMedicareA => "Government: Medicare Fee for Service - Part A",
            PaymentMethodCodeType::GovernmentMedicareB => "Government: Medicare Fee for Service - Part B",
            PaymentMethodCodeType::GovernmentMedicareC => "Government: Medicare Fee for Service - Part C",
            PaymentMethodCodeType::GovernmentMilitaryVeteran => "Government: Military/Veteran",
            PaymentMethodCodeType::GovernmentOther => "Government: Other",
            PaymentMethodCodeType::SelfPay => "Self-Pay",
            PaymentMethodCodeType::WorkersCompensation => "Worker's Compensation",
            PaymentMethodCodeType::Other => "Other",
            PaymentMethodCodeType::Unknown => "Unknown",
        }
    }
}

impl PaymentMethodCodeType {
    /// Reads a member back from its literal, by its length and the characters that
    /// set it apart from the literals of the same length.
    spec fn decode(s: Seq<char>) -> Option<Self> {
        if s.len() == 7 && s[0] == 'C' {
            Some(PaymentMethodCodeType::Charity)
        } else if s.len() == 10 {
            Some(PaymentMethodCodeType::Commercial)
        } else if s.len() == 20 {
            Some(PaymentMethodCodeType::GovernmentMedicaid)
        } else if s.len() == 45 && s[44] == 'A' {
            Some(PaymentMethodCodeType::GovernmentMedicareA)
        } else if s.len() == 45 && s[44] == 'B' {
            Some(PaymentMethodCodeType::GovernmentMedicareB)
        } else if s.len() == 45 && s[44] == 'C' {
            Some(PaymentMethodCodeType::GovernmentMedicareC)
        } else if s.len() == 28 {
            Some(PaymentMethodCodeType::GovernmentMilitaryVeteran)
        } else if s.len() == 17 {
            Some(PaymentMethodCodeType::GovernmentOther)
        } else if s.len() == 8 {
            Some(PaymentMethodCodeType::SelfPay)
        } else if s.len() == 21 {
            Some(PaymentMethodCodeType::WorkersCompensation)
        } else if s.len() == 5 {
            Some(PaymentMethodCodeType::Other)
        } else if s.len() == 7 && s[0] == 'U' {
            Some(PaymentMethodCodeType::Unknown)
        } else {
            None
        }
    }

    /// `decode` reads every member back from its literal.
    proof fn lemma_decode(m: Self)
        ensures
            Self::decode(m.spec_value()) == Some(m),
    {
        reveal_strlit("Charity");
        reveal_strlit("Commercial");
        reveal_strlit("Government: Medicaid");
        reveal_strlit("Government: Medicare Fee for Service - Part A");
        reveal_strlit("Government: Medicare Fee for Service - Part B");
        reveal_strlit("Government: Medicare Fee for Service - Part C");
        reveal_strlit("Government: Military/Veteran");
        reveal_strlit("Government: Other");
        reveal_strlit("Other");
        reveal_strlit("Self-Pay");
        reveal_strlit("Unknown");
        reveal_strlit("Worker's Compensation");
    }

    /// No two members share a literal.
    pub proof fn lemma_literals_distinct(a: Self, b: Self)
        ensures
            a.spec_value() == b.spec_value() ==> a == b,
    {
        Self::lemma_decode(a);
        Self::lemma_decode(b);
    }
}

/// The category of an intra-case event.
#[derive(Clone, Copy, Debug, Hash, PartialEq, Eq, Structural)]
pub enum ICCategoryCodeType {
    MedicalDeviceEquipment,
    Medication,
    InfrastructureSystem,
    AssessmentDocumentation,
    RespiratoryAirway,
    Cardiovascular,
    ProcedureRelated,
    Other,
    Unknown,
}

impl SchemaStringType for ICCategoryCodeType {
    open spec fn spec_value(&self) -> Seq<char> {
        match self {
            ICCategoryCodeType::MedicalDeviceEquipment => "MEDICAL DEVICE/EQUIPMENT"@,
            ICCategoryCodeType::Medication => "MEDICATION"@,
            ICCategoryCodeType::InfrastructureSystem => "INFRASTRUCTURE/SYSTEM"@,
            ICCategoryCodeType::AssessmentDocumentation => "ASSESSMENT/DOCUMENTATION"@,
            ICCategoryCodeType::RespiratoryAirway => "RESPIRATORY/AIRWAY"@,
            ICCategoryCodeType::Cardiovascular => "CARDIOVASCULAR"@,
            ICCategoryCodeType::ProcedureRelated => "PROCEDURE RELATED"@,
            ICCategoryCodeType::Other => "OTHER"@,
            ICCategoryCodeType::Unknown => "UNKNOWN"@,
        }
    }

    fn value(&self) -> (r: &str) {
        match self {
            ICCategoryCodeType::MedicalDeviceEquipment => "MEDICAL DEVICE/EQUIPMENT",
            ICCategoryCodeType::Medication => "MEDICATION",
            ICCategoryCodeType::InfrastructureSystem => "INFRASTRUCTURE/SYSTEM",
            ICCategoryCodeType::AssessmentDocumentation => "ASSESSMENT/DOCUMENTATION",
            ICCategoryCodeType::RespiratoryAirway => "RESPIRATORY/AIRWAY",
            ICCategoryCodeType::Cardiovascular => "CARDIOVASCULAR",
            ICCategoryCodeType::ProcedureRelated => "PROCEDURE RELATED",
            ICCategoryCodeType::Other => "OTHER",
            ICCategoryCodeType::Unknown => "UNKNOWN",
        }
    }
}

impl ICCategoryCodeType {
    /// Reads a member back from its literal, by its length and the characters that
    /// set it apart from the literals of the same length.
    spec fn decode(s: Seq<char>) -> Option<Self> {
        if s.len() == 24 && s[0] == 'M' {
            Some(ICCategoryCodeType::MedicalDeviceEquipment)
        } else if s.len() == 10 {
            Some(ICCategoryCodeType::Medication)
        } else if s.len() == 21 {
            Some(ICCategoryCodeType::InfrastructureSystem)
        } else if s.len() == 24 && s[0] == 'A' {
            Some(ICCategoryCodeType::AssessmentDocumentation)
        } else if s.len() == 18 {
            Some(ICCategoryCodeType::RespiratoryAirway)
        } else if s.len() == 14 {
            Some(ICCategoryCodeType::Cardiovascular)
        } else if s.len() == 17 {
            Some(ICCategoryCodeType::ProcedureRelated)
        } else if s.len() == 5 {
            Some(ICCategoryCodeType::Other)
        } else if s.len() == 7 {
            Some(ICCategoryCodeType::Unknown)
        } else {
            None
        }
    }

    /// `decode` reads every member back from its literal.
    proof fn lemma_decode(m: Self)
        ensures
            Self::decode(m.spec_value()) == Some(m),
    {
        reveal_strlit("ASSESSMENT/DOCUMENTATION");
        reveal_strlit("CARDIOVASCULAR");
        reveal_strlit("INFRASTRUCTURE/SYSTEM");
        reveal_strlit("MEDICAL DEVICE/EQUIPMENT");
        reveal_strlit("MEDICATION");
        reveal_strlit("OTHER");
        reveal_strlit("PROCEDURE RELATED");
        reveal_strlit("RESPIRATORY/AIRWAY");
        reveal_strlit("UNKNOWN");
    }

    /// No two members share a literal.
    pub proof fn lemma_literals_distinct(a: Self, b: Self)
        ensures
            a.spec_value() == b.spec_value() ==> a == b,
    {
        Self::lemma_decode(a);
        Self::lemma_decode(b);
    }
}

/// A standardised outcome or complication.
#[derive(Clone, Copy, Debug, Hash, PartialEq, Eq, Structural)]
pub enum OutcomeIDType {
    Acidemia,
    AcuteKidneyInjury,
    AdverseDrugReaction,
    AirwayObstruction,
    AirwayTrauma,
    AmnioticFluidEmbolism,
    Anaphylaxis,
    Arrhythmia,
    Aspiration,
    Awareness,
    Bradycardia,
    BurnInjury,
    CannotVentilate,
    CardiacArrest,
    CaseCancelledAfterAnesthesiaInductionTime,
    CaseCancelledBeforeAnesthesiaInductionTime,
    CaseCancelledBeforeAnesthesiaStartTime,
    CaseDelay,
    CentralLinePlacementInjury,
    CentralLineAssociatedBloodstreamInfection,
    CerebrovascularAccident,
    Coagulopathy,
    Coma,
    CornealInjury,
    Death,
    DeepVeinThrombosis,
    DelayedEmergence,
    Delirium,
    DifficultIntubation,
    DifficultMaskVentilation,
    ElectrolyteAbnormality,
    EmergenceDelirium,
    EquipmentDeviceFailureOrMalfunction,
    FailedIntubation,
    Fall,
    FatEmbolism,
    HemodynamicInstability,
    HighSpinalOrEpidural,
    Hypercapnia,
    Hyperglycemia,
    HypertensiveEpisode,
    Hyperthermia,
    Hypoglycemia,
    HypotensiveEpisode,
    Hypoxemia,
    InadequatePainControl,
    InadequateReversalOfNeuromuscularBlock,
    InfectionFollowingEpiduralOrSpinalAnesthesia,
    InfectionFollowingPeripheralNerveBlock,
    Itching,
    IVInfiltration,
    KidneyFailure,
    LocalAnestheticSystemicToxicity,
    MalignantHyperthermia,
    MedicationError,
    MultipleOrganFailure,
    MyocardiaIschemia,
    MyocardialInfarction,
    ORFire,
    PerioperativeVisualLoss,
    PeripheralNeurologicDeficitAfterRegionalAnesthesia,
    Pneumonia,
    Pneumothorax,
    PositioningInjury,
    PostDischargeNauseaAndVomiting,
    PostDuralPunctureHeadache,
    PostOperativeCognitiveDysfunction,
    PostOperativeNauseaAndVomiting,
    ProlongedNeuromuscularBlock,
    PulmonaryEdema,
    PulmonaryEmbolus,
    RespiratoryArrest,
    RespiratoryFailure,
    Seizure,
    Sepsis,
    Shivering,
    SkinOrMucousMembraneInjury,
    SpinalCordInjury,
    SpinalHematomaFollowingSpinalOrEpiduralAnesthesia,
    SurgicalSiteInfection,
    TransfusionReaction,
    Ulcer,
    UnanticipatedTransfusion,
    UnplannedConversionToGeneralAnesthesia,
    UnplannedDuralPuncture,
    UnplannedEndobronchialIntubation,
    UnplannedEsophagealIntubation,
    UnplannedHospitalAdmission,
    UnplannedHypothermia,
    UnplannedICUAdmission,
    UnplannedPostoperativeVentilation,
    UnplannedReintubation,
    UnplannedReoperation,
    UnplannedTrachealExtubation,
    VascularInjury,
    VenousAirEmbolism,
    VentilationForMoreThan24HoursPostProcedure,
    WrongPatient,
    WrongProcedure,
    WrongSiteRegionalAnesthesia,
    WrongSiteSurgery,
}

impl SchemaIntType for OutcomeIDType {
    open spec fn spec_value(&self) -> u64 {
        match self {
            OutcomeIDType::Acidemia => 1,
            OutcomeIDType::AcuteKidneyInjury => 2,
            OutcomeIDType::AdverseDrugReaction => 3,
            OutcomeIDType::AirwayObstruction => 4,
            OutcomeIDType::AirwayTrauma => 5,
            OutcomeIDType::AmnioticFluidEmbolism => 6,
            OutcomeIDType::Anaphylaxis => 7,
            OutcomeIDType::Arrhythmia => 8,
            OutcomeIDType::Aspiration => 9,
            OutcomeIDType::Awareness => 10,
            OutcomeIDType::Bradycardia => 11,
            OutcomeIDType::BurnInjury => 12,
            OutcomeIDType::CannotVentilate => 13,
            OutcomeIDType::CardiacArrest => 14,
            OutcomeIDType::CaseCancelledAfterAnesthesiaInductionTime => 15,
            OutcomeIDType::CaseCancelledBeforeAnesthesiaInductionTime => 16,
            OutcomeIDType::CaseCancelledBeforeAnesthesiaStartTime => 17,
            OutcomeIDType::CaseDelay => 18,
            OutcomeIDType::CentralLinePlacementInjury => 19,
            OutcomeIDType::CentralLineAssociatedBloodstreamInfection => 20,
            OutcomeIDType::CerebrovascularAccident => 21,
            OutcomeIDType::Coagulopathy => 22,
            OutcomeIDType::Coma => 23,
            OutcomeIDType::CornealInjury => 24,
            OutcomeIDType::Death => 25,
            OutcomeIDType::DeepVeinThrombosis => 26,
            OutcomeIDType::DelayedEmergence => 27,
            OutcomeIDType::Delirium => 28,
            OutcomeIDType::DifficultIntubation => 29,
            OutcomeIDType::DifficultMaskVentilation => 30,
            OutcomeIDType::ElectrolyteAbnormality => 31,
            OutcomeIDType::EmergenceDelirium => 32,
            OutcomeIDType::EquipmentDeviceFailureOrMalfunction => 33,
            OutcomeIDType::FailedIntubation => 34,
            OutcomeIDType::Fall => 35,
            OutcomeIDType::FatEmbolism => 36,
            OutcomeIDType::HemodynamicInstability => 37,
            OutcomeIDType::HighSpinalOrEpidural => 38,
            OutcomeIDType::Hypercapnia => 39,
            OutcomeIDType::Hyperglycemia => 40,
            OutcomeIDType::HypertensiveEpisode => 41,
            OutcomeIDType::Hyperthermia => 42,
            OutcomeIDType::Hypoglycemia => 43,
            OutcomeIDType::HypotensiveEpisode => 44,
            OutcomeIDType::Hypoxemia => 45,
            OutcomeIDType::InadequatePainControl => 46,
            OutcomeIDType::InadequateReversalOfNeuromuscularBlock => 47,
            OutcomeIDType::InfectionFollowingEpiduralOrSpinalAnesthesia => 48,
            OutcomeIDType::InfectionFollowingPeripheralNerveBlock => 49,
            OutcomeIDType::Itching => 50,
            OutcomeIDType::IVInfiltration => 51,
            OutcomeIDType::KidneyFailure => 52,
            OutcomeIDType::LocalAnestheticSystemicToxicity => 53,
            OutcomeIDType::MalignantHyperthermia => 54,
            OutcomeIDType::MedicationError => 55,
            OutcomeIDType::MultipleOrganFailure => 56,
            OutcomeIDType::MyocardiaIschemia => 57,
            OutcomeIDType::MyocardialInfarction => 58,
            OutcomeIDType::ORFire => 59,
            OutcomeIDType::PerioperativeVisualLoss => 60,
            OutcomeIDType::PeripheralNeurologicDeficitAfterRegionalAnesthesia => 61,
            OutcomeIDType::Pneumonia => 62,
            OutcomeIDType::Pneumothorax => 63,
            OutcomeIDType::PositioningInjury => 64,
            OutcomeIDType::PostDischargeNauseaAndVomiting => 65,
            OutcomeIDType::PostDuralPunctureHeadache => 66,
            OutcomeIDType::PostOperativeCognitiveDysfunction => 67,
            OutcomeIDType::PostOperativeNauseaAndVomiting => 68,
            OutcomeIDType::ProlongedNeuromuscularBlock => 69,
            OutcomeIDType::PulmonaryEdema => 70,
            OutcomeIDType::PulmonaryEmbolus => 71,
            OutcomeIDType::RespiratoryArrest => 72,
            OutcomeIDType::RespiratoryFailure => 73,
            OutcomeIDType::Seizure => 74,
            OutcomeIDType::Sepsis => 75,
            OutcomeIDType::Shivering => 76,
            OutcomeIDType::SkinOrMucousMembraneInjury => 77,
            OutcomeIDType::SpinalCordInjury => 78,
            OutcomeIDType::SpinalHematomaFollowingSpinalOrEpiduralAnesthesia => 79,
            OutcomeIDType::SurgicalSiteInfection => 80,
            OutcomeIDType::TransfusionReaction => 81,
            OutcomeIDType::Ulcer => 82,
            OutcomeIDType::UnanticipatedTransfusion => 83,
            OutcomeIDType::UnplannedConversionToGeneralAnesthesia => 84,
            OutcomeIDType::UnplannedDuralPuncture => 85,
            OutcomeIDType::UnplannedEndobronchialIntubation => 86,
            OutcomeIDType::UnplannedEsophagealIntubation => 87,
            OutcomeIDType::UnplannedHospitalAdmission => 88,
            OutcomeIDType::UnplannedHypothermia => 89,
            OutcomeIDType::UnplannedICUAdmission => 90,
            OutcomeIDType::UnplannedPostoperativeVentilation => 91,
            OutcomeIDType::UnplannedReintubation => 92,
            OutcomeIDType::UnplannedReoperation => 93,
            OutcomeIDType::UnplannedTrachealExtubation => 94,
            OutcomeIDType::VascularInjury => 95,
            OutcomeIDType::VenousAirEmbolism => 96,
            OutcomeIDType::VentilationForMoreThan24HoursPostProcedure => 97,
            OutcomeIDType::WrongPatient => 98,
            OutcomeIDType::WrongProcedure => 99,
            OutcomeIDType::WrongSiteRegionalAnesthesia => 100,
            OutcomeIDType::WrongSiteSurgery => 101,
        }
    }

    fn value(&self) -> (r: u64) {
        match self {
            OutcomeIDType::Acidemia => 1,
            OutcomeIDType::AcuteKidneyInjury => 2,
            OutcomeIDType::AdverseDrugReaction => 3,
            OutcomeIDType::AirwayObstruction => 4,
            OutcomeIDType::AirwayTrauma => 5,
            OutcomeIDType::AmnioticFluidEmbolism => 6,
            OutcomeIDType::Anaphylaxis => 7,
            OutcomeIDType::Arrhythmia => 8,
            OutcomeIDType::Aspiration => 9,
            OutcomeIDType::Awareness => 10,
            OutcomeIDType::Bradycardia => 11,
            OutcomeIDType::BurnInjury => 12,
            OutcomeIDType::CannotVentilate => 13,
            OutcomeIDType::CardiacArrest => 14,
            OutcomeIDType::CaseCancelledAfterAnesthesiaInductionTime => 15,
            OutcomeIDType::CaseCancelledBeforeAnesthesiaInductionTime => 16,
            OutcomeIDType::CaseCancelledBeforeAnesthesiaStartTime => 17,
            OutcomeIDType::CaseDelay => 18,
            OutcomeIDType::CentralLinePlacementInjury => 19,
            OutcomeIDType::CentralLineAssociatedBloodstreamInfection => 20,
            OutcomeIDType::CerebrovascularAccident => 21,
            OutcomeIDType::Coagulopathy => 22,
            OutcomeIDType::Coma => 23,
            OutcomeIDType::CornealInjury => 24,
            OutcomeIDType::Death => 25,
            OutcomeIDType::DeepVeinThrombosis => 26,
            OutcomeIDType::DelayedEmergence => 27,
            OutcomeIDType::Delirium => 28,
            OutcomeIDType::DifficultIntubation => 29,
            OutcomeIDType::DifficultMaskVentilation => 30,
            OutcomeIDType::ElectrolyteAbnormality => 31,
            OutcomeIDType::EmergenceDelirium => 32,
            OutcomeIDType::EquipmentDeviceFailureOrMalfunction => 33,
            OutcomeIDType::FailedIntubation => 34,
            OutcomeIDType::Fall => 35,
            OutcomeIDType::FatEmbolism => 36,
            OutcomeIDType::HemodynamicInstability => 37,
            OutcomeIDType::HighSpinalOrEpidural => 38,
            OutcomeIDType::Hypercapnia => 39,
            OutcomeIDType::Hyperglycemia => 40,
            OutcomeIDType::HypertensiveEpisode => 41,
            OutcomeIDType::Hyperthermia => 42,
            OutcomeIDType::Hypoglycemia => 43,
            OutcomeIDType::HypotensiveEpisode => 44,
            OutcomeIDType::Hypoxemia => 45,
            OutcomeIDType::InadequatePainControl => 46,
            OutcomeIDType::InadequateReversalOfNeuromuscularBlock => 47,
            OutcomeIDType::InfectionFollowingEpiduralOrSpinalAnesthesia => 48,
            OutcomeIDType::InfectionFollowingPeripheralNerveBlock => 49,
            OutcomeIDType::Itching => 50,
            OutcomeIDType::IVInfiltration => 51,
            OutcomeIDType::KidneyFailure => 52,
            OutcomeIDType::LocalAnestheticSystemicToxicity => 53,
            OutcomeIDType::MalignantHyperthermia => 54,
            OutcomeIDType::MedicationError => 55,
            OutcomeIDType::MultipleOrganFailure => 56,
            OutcomeIDType::MyocardiaIschemia => 57,
            OutcomeIDType::MyocardialInfarction => 58,
            OutcomeIDType::ORFire => 59,
            OutcomeIDType::PerioperativeVisualLoss => 60,
            OutcomeIDType::PeripheralNeurologicDeficitAfterRegionalAnesthesia => 61,
            OutcomeIDType::Pneumonia => 62,
            OutcomeIDType::Pneumothorax => 63,
            OutcomeIDType::PositioningInjury => 64,
            OutcomeIDType::PostDischargeNauseaAndVomiting => 65,
            OutcomeIDType::PostDuralPunctureHeadache => 66,
            OutcomeIDType::PostOperativeCognitiveDysfunction => 67,
            OutcomeIDType::PostOperativeNauseaAndVomiting => 68,
            OutcomeIDType::ProlongedNeuromuscularBlock => 69,
            OutcomeIDType::PulmonaryEdema => 70,
            OutcomeIDType::PulmonaryEmbolus => 71,
            OutcomeIDType::RespiratoryArrest => 72,
            OutcomeIDType::RespiratoryFailure => 73,
            OutcomeIDType::Seizure => 74,
            OutcomeIDType::Sepsis => 75,
            OutcomeIDType::Shivering => 76,
            OutcomeIDType::SkinOrMucousMembraneInjury => 77,
            OutcomeIDType::SpinalCordInjury => 78,
            OutcomeIDType::SpinalHematomaFollowingSpinalOrEpiduralAnesthesia => 79,
            OutcomeIDType::SurgicalSiteInfection => 80,
            OutcomeIDType::TransfusionReaction => 81,
            OutcomeIDType::Ulcer => 82,
            OutcomeIDType::UnanticipatedTransfusion => 83,
            OutcomeIDType::UnplannedConversionToGeneralAnesthesia => 84,
            OutcomeIDType::UnplannedDuralPuncture => 85,
            OutcomeIDType::UnplannedEndobronchialIntubation => 86,
            OutcomeIDType::UnplannedEsophagealIntubation => 87,
            OutcomeIDType::UnplannedHospitalAdmission => 88,
            OutcomeIDType::UnplannedHypothermia => 89,
            OutcomeIDType::UnplannedICUAdmission => 90,
            OutcomeIDType::UnplannedPostoperativeVentilation => 91,
            OutcomeIDType::UnplannedReintubation => 92,
            OutcomeIDType::UnplannedReoperation => 93,
            OutcomeIDType::UnplannedTrachealExtubation => 94,
            OutcomeIDType::VascularInjury => 95,
            OutcomeIDType::VenousAirEmbolism => 96,
            OutcomeIDType::VentilationForMoreThan24HoursPostProcedure => 97,
            OutcomeIDType::WrongPatient => 98,
            OutcomeIDType::WrongProcedure => 99,
            OutcomeIDType::WrongSiteRegionalAnesthesia => 100,
            OutcomeIDType::WrongSiteSurgery => 101,
        }
    }
}

impl OutcomeIDType {
    spec fn decode(n: u64) -> Option<Self> {
        if n == 1 {
            Some(OutcomeIDType::Acidemia)
        } else if n == 2 {
            Some(OutcomeIDType::AcuteKidneyInjury)
        } else if n == 3 {
            Some(OutcomeIDType::AdverseDrugReaction)
        } else if n == 4 {
            Some(OutcomeIDType::AirwayObstruction)
        } else if n == 5 {
            Some(OutcomeIDType::AirwayTrauma)
        } else if n == 6 {
            Some(OutcomeIDType::AmnioticFluidEmbolism)
        } else if n == 7 {
            Some(OutcomeIDType::Anaphylaxis)
        } else if n == 8 {
            Some(OutcomeIDType::Arrhythmia)
        } else if n == 9 {
            Some(OutcomeIDType::Aspiration)
        } else if n == 10 {
            Some(OutcomeIDType::Awareness)
        } else if n == 11 {
            Some(OutcomeIDType::Bradycardia)
        } else if n == 12 {
            Some(OutcomeIDType::BurnInjury)
        } else if n == 13 {
            Some(OutcomeIDType::CannotVentilate)
        } else if n == 14 {
            Some(OutcomeIDType::CardiacArrest)
        } else if n == 15 {
            Some(OutcomeIDType::CaseCancelledAfterAnesthesiaInductionTime)
        } else if n == 16 {
            Some(OutcomeIDType::CaseCancelledBeforeAnesthesiaInductionTime)
        } else if n == 17 {
            Some(OutcomeIDType::CaseCancelledBeforeAnesthesiaStartTime)
        } else if n == 18 {
            Some(OutcomeIDType::CaseDelay)
        } else if n == 19 {
            Some(OutcomeIDType::CentralLinePlacementInjury)
        } else if n == 20 {
            Some(OutcomeIDType::CentralLineAssociatedBloodstreamInfection)
        } else if n == 21 {
            Some(OutcomeIDType::CerebrovascularAccident)
        } else if n == 22 {
            Some(OutcomeIDType::Coagulopathy)
        } else if n == 23 {
            Some(OutcomeIDType::Coma)
        } else if n == 24 {
            Some(OutcomeIDType::CornealInjury)
        } else if n == 25 {
            Some(OutcomeIDType::Death)
        } else if n == 26 {
            Some(OutcomeIDType::DeepVeinThrombosis)
        } else if n == 27 {
            Some(OutcomeIDType::DelayedEmergence)
        } else if n == 28 {
            Some(OutcomeIDType::Delirium)
        } else if n == 29 {
            Some(OutcomeIDType::DifficultIntubation)
        } else if n == 30 {
            Some(OutcomeIDType::DifficultMaskVentilation)
        } else if n == 31 {
            Some(OutcomeIDType::ElectrolyteAbnormality)
        } else if n == 32 {
            Some(OutcomeIDType::EmergenceDelirium)
        } else if n == 33 {
            Some(OutcomeIDType::EquipmentDeviceFailureOrMalfunction)
        } else if n == 34 {
            Some(OutcomeIDType::FailedIntubation)
        } else if n == 35 {
            Some(OutcomeIDType::Fall)
        } else if n == 36 {
            Some(OutcomeIDType::FatEmbolism)
        } else if n == 37 {
            Some(OutcomeIDType::HemodynamicInstability)
        } else if n == 38 {
            Some(OutcomeIDType::HighSpinalOrEpidural)
        } else if n == 39 {
            Some(OutcomeIDType::Hypercapnia)
        } else if n == 40 {
            Some(OutcomeIDType::Hyperglycemia)
        } else if n == 41 {
            Some(OutcomeIDType::HypertensiveEpisode)
        } else if n == 42 {
            Some(OutcomeIDType::Hyperthermia)
        } else if n == 43 {
            Some(OutcomeIDType::Hypoglycemia)
        } else if n == 44 {
            Some(OutcomeIDType::HypotensiveEpisode)
        } else if n == 45 {
            Some(OutcomeIDType::Hypoxemia)
        } else if n == 46 {
            Some(OutcomeIDType::InadequatePainControl)
        } else if n == 47 {
            Some(OutcomeIDType::InadequateReversalOfNeuromuscularBlock)
        } else if n == 48 {
            Some(OutcomeIDType::InfectionFollowingEpiduralOrSpinalAnesthesia)
        } else if n == 49 {
            Some(OutcomeIDType::InfectionFollowingPeripheralNerveBlock)
        } else if n == 50 {
            Some(OutcomeIDType::Itching)
        } else if n == 51 {
            Some(OutcomeIDType::IVInfiltration)
        } else if n == 52 {
            Some(OutcomeIDType::KidneyFailure)
        } else if n == 53 {
            Some(OutcomeIDType::LocalAnestheticSystemicToxicity)
        } else if n == 54 {
            Some(OutcomeIDType::MalignantHyperthermia)
        } else if n == 55 {
            Some(OutcomeIDType::MedicationError)
        } else if n == 56 {
            Some(OutcomeIDType::MultipleOrganFailure)
        } else if n == 57 {
            Some(OutcomeIDType::MyocardiaIschemia)
        } else if n == 58 {
            Some(OutcomeIDType::MyocardialInfarction)
        } else if n == 59 {
            Some(OutcomeIDType::ORFire)
        } else if n == 60 {
            Some(OutcomeIDType::PerioperativeVisualLoss)
        } else if n == 61 {
            Some(OutcomeIDType::PeripheralNeurologicDeficitAfterRegionalAnesthesia)
        } else if n == 62 {
            Some(OutcomeIDType::Pneumonia)
        } else if n == 63 {
            Some(OutcomeIDType::Pneumothorax)
        } else if n == 64 {
            Some(OutcomeIDType::PositioningInjury)
        } else if n == 65 {
            Some(OutcomeIDType::PostDischargeNauseaAndVomiting)
        } else if n == 66 {
            Some(OutcomeIDType::PostDuralPunctureHeadache)
        } else if n == 67 {
            Some(OutcomeIDType::PostOperativeCognitiveDysfunction)
        } else if n == 68 {
            Some(OutcomeIDType::PostOperativeNauseaAndVomiting)
        } else if n == 69 {
            Some(OutcomeIDType::ProlongedNeuromuscularBlock)
        } else if n == 70 {
            Some(OutcomeIDType::PulmonaryEdema)
        } else if n == 71 {
            Some(OutcomeIDType::PulmonaryEmbolus)
        } else if n == 72 {
            Some(OutcomeIDType::RespiratoryArrest)
        } else if n == 73 {
            Some(OutcomeIDType::RespiratoryFailure)
        } else if n == 74 {
            Some(OutcomeIDType::Seizure)
        } else if n == 75 {
            Some(OutcomeIDType::Sepsis)
        } else if n == 76 {
            Some(OutcomeIDType::Shivering)
        } else if n == 77 {
            Some(OutcomeIDType::SkinOrMucousMembraneInjury)
        } else if n == 78 {
            Some(OutcomeIDType::SpinalCordInjury)
        } else if n == 79 {
            Some(OutcomeIDType::SpinalHematomaFollowingSpinalOrEpiduralAnesthesia)
        } else if n == 80 {
            Some(OutcomeIDType::SurgicalSiteInfection)
        } else if n == 81 {
            Some(OutcomeIDType::TransfusionReaction)
        } else if n == 82 {
            Some(OutcomeIDType::Ulcer)
        } else if n == 83 {
            Some(OutcomeIDType::UnanticipatedTransfusion)
        } else if n == 84 {
            Some(OutcomeIDType::UnplannedConversionToGeneralAnesthesia)
        } else if n == 85 {
            Some(OutcomeIDType::UnplannedDuralPuncture)
        } else if n == 86 {
            Some(OutcomeIDType::UnplannedEndobronchialIntubation)
        } else if n == 87 {
            Some(OutcomeIDType::UnplannedEsophagealIntubation)
        } else if n == 88 {
            Some(OutcomeIDType::UnplannedHospitalAdmission)
        } else if n == 89 {
            Some(OutcomeIDType::UnplannedHypothermia)
        } else if n == 90 {
            Some(OutcomeIDType::UnplannedICUAdmission)
        } else if n == 91 {
            Some(OutcomeIDType::UnplannedPostoperativeVentilation)
        } else if n == 92 {
            Some(OutcomeIDType::UnplannedReintubation)
        } else if n == 93 {
            Some(OutcomeIDType::UnplannedReoperation)
        } else if n == 94 {
            Some(OutcomeIDType::UnplannedTrachealExtubation)
        } else if n == 95 {
            Some(OutcomeIDType::VascularInjury)
        } else if n == 96 {
            Some(OutcomeIDType::VenousAirEmbolism)
        } else if n == 97 {
            Some(OutcomeIDType::VentilationForMoreThan24HoursPostProcedure)
        } else if n == 98 {
            Some(OutcomeIDType::WrongPatient)
        } else if n == 99 {
            Some(OutcomeIDType::WrongProcedure)
        } else if n == 100 {
            Some(OutcomeIDType::WrongSiteRegionalAnesthesia)
        } else if n == 101 {
            Some(OutcomeIDType::WrongSiteSurgery)
        } else {
            None
        }
    }

    /// `decode` reads every member back from its literal.
    proof fn lemma_decode(m: Self)
        ensures
            Self::decode(m.spec_value()) == Some(m),
    {
    }

    /// No two members share a literal.
    pub proof fn lemma_literals_distinct(a: Self, b: Self)
        ensures
            a.spec_value() == b.spec_value() ==> a == b,
    {
        Self::lemma_decode(a);
        Self::lemma_decode(b);
    }
}

/// The category of a lab result.
#[derive(Clone, Copy, Debug, Hash, PartialEq, Eq, Structural)]
pub enum LabDataCategoryCodeType {
    BloodBank,
    Chemistry,
    Cytology,
    Genetics,
    Hematology,
    Histology,
    Immunology,
    Microbiology,
    Other,
    Unknown,
}

impl SchemaStringType for LabDataCategoryCodeType {
    open spec fn spec_value(&self) -> Seq<char> {
        match self {
            LabDataCategoryCodeType::BloodBank => "Blood bank"@,
            LabDataCategoryCodeType::Chemistry => "Chemistry"@,
            LabDataCategoryCodeType::Cytology => "Cytology"@,
            LabDataCategoryCodeType::Genetics => "Genetics"@,
            LabDataCategoryCodeType::Hematology => "Hematology"@,
            LabDataCategoryCodeType::Histology => "Histology"@,
            LabDataCategoryCodeType::Immunology => "Immunology"@,
            LabDataCategoryCodeType::Microbiology => "Microbiology"@,
            LabDataCategoryCodeType::Other => "Other"@,
            LabDataCategoryCodeType::Unknown => "Unknown"@,
        }
    }

    fn value(&self) -> (r: &str) {
        match self {
            LabDataCategoryCodeType::BloodBank => "Blood bank",
            LabDataCategoryCodeType::Chemistry => "Chemistry",
            LabDataCategoryCodeType::Cytology => "Cytology",
            LabDataCategoryCodeType::Genetics => "Genetics",
            LabDataCategoryCodeType::Hematology => "Hematology",
            LabDataCategoryCodeType::Histology => "Histology",
            LabDataCategoryCodeType::Immunology => "Immunology",
            LabDataCategoryCodeType::Microbiology => "Microbiology",
            LabDataCategoryCodeType::Other => "Other",
            LabDataCategoryCodeType::Unknown => "Unknown",
        }
    }
}

impl LabDataCategoryCodeType {
    /// Reads a member back from its literal, by its length and the characters that
    /// set it apart from the literals of the same length.
    spec fn decode(s: Seq<char>) -> Option<Self> {
        if s.len() == 10 && s[0] == 'B' {
            Some(LabDataCategoryCodeType::BloodBank)
        } else if s.len() == 9 && s[0] == 'C' {
            Some(LabDataCategoryCodeType::Chemistry)
        } else if s.len() == 8 && s[0] == 'C' {
            Some(LabDataCategoryCodeType::Cytology)
        } else if s.len() == 8 && s[0] == 'G' {
            Some(LabDataCategoryCodeType::Genetics)
        } else if s.len() == 10 && s[0] == 'H' {
            Some(LabDataCategoryCodeType::Hematology)
        } else if s.len() == 9 && s[0] == 'H' {
            Some(LabDataCategoryCodeType::Histology)
        } else if s.len() == 10 && s[0] == 'I' {
            Some(LabDataCategoryCodeType::Immunology)
        } else if s.len() == 12 {
            Some(LabDataCategoryCodeType::Microbiology)
        } else if s.len() == 5 {
            Some(LabDataCategoryCodeType::Other)
        } else if s.len() == 7 {
            Some(LabDataCategoryCodeType::Unknown)
        } else {
            None
        }
    }

    /// `decode` reads every member back from its literal.
    proof fn lemma_decode(m: Self)
        ensures
            Self::decode(m.spec_value()) == Some(m),
    {
        reveal_strlit("Blood bank");
        reveal_strlit("Chemistry");
        reveal_strlit("Cytology");
        reveal_strlit("Genetics");
        reveal_strlit("Hematology");
        reveal_strlit("Histology");
        reveal_strlit("Immunology");
        reveal_strlit("Microbiology");
        reveal_strlit("Other");
        reveal_strlit("Unknown");
    }

    /// No two members share a literal.
    pub proof fn lemma_literals_distinct(a: Self, b: Self)
        ensures
            a.spec_value() == b.spec_value() ==> a == b,
    {
        Self::lemma_decode(a);
        Self::lemma_decode(b);
    }
}

/// How a monitored value was recorded.
#[derive(Clone, Copy, Debug, Hash, PartialEq, Eq, Structural)]
pub enum MonitoringSourceCodeType {
    Electronic,
    UserEntered,
    Other,
    Unknown,
}

impl SchemaStringType for MonitoringSourceCodeType {
    open spec fn spec_value(&self) -> Seq<char> {
        match self {
            MonitoringSourceCodeType::Electronic => "Electronic"@,
            MonitoringSourceCodeType::UserEntered => "User entered"@,
            MonitoringSourceCodeType::Other => "Other"@,
            MonitoringSourceCodeType::Unknown => "Unknown"@,
        }
    }

    fn value(&self) -> (r: &str) {
        match self {
            MonitoringSourceCodeType::Electronic => "Electronic",
            MonitoringSourceCodeType::UserEntered => "User entered",
            MonitoringSourceCodeType::Other => "Other",
            MonitoringSourceCodeType::Unknown => "Unknown",
        }
    }
}

impl MonitoringSourceCodeType {
    /// Reads a member back from its literal, by its length and the characters that
    /// set it apart from the literals of the same length.
    spec fn decode(s: Seq<char>) -> Option<Self> {
        if s.len() == 10 {
            Some(MonitoringSourceCodeType::Electronic)
        } else if s.len() == 12 {
            Some(MonitoringSourceCodeType::UserEntered)
        } else if s.len() == 5 {
            Some(MonitoringSourceCodeType::Other)
        } else if s.len() == 7 {
            Some(MonitoringSourceCodeType::Unknown)
        } else {
            None
        }
    }

    /// `decode` reads every member back from its literal.
    proof fn lemma_decode(m: Self)
        ensures
            Self::decode(m.spec_value()) == Some(m),
    {
        reveal_strlit("Electronic");
        reveal_strlit("Other");
        reveal_strlit("Unknown");
        reveal_strlit("User entered");
    }

    /// No two members share a literal.
    pub proof fn lemma_literals_distinct(a: Self, b: Self)
        ensures
            a.spec_value() == b.spec_value() ==> a == b,
    {
        Self::lemma_decode(a);
        Self::lemma_decode(b);
    }
}

/// When an outcome was observed.
#[derive(Clone, Copy, Debug, Hash, PartialEq, Eq, Structural)]
pub enum OutcomeTimeFrameCodeType {
    PreOp,
    IntraOp,
    Pacu,
    TwentyFourHour,
    FourtyEightHour,
    SevenDays,
    ThirtyDays,
    SixtyDays,
    NinetyDays,
    OneYear,
}

impl SchemaStringType for OutcomeTimeFrameCodeType {
    open spec fn spec_value(&self) -> Seq<char> {
        match self {
            OutcomeTimeFrameCodeType::PreOp => "PreOp"@,
            OutcomeTimeFrameCodeType::IntraOp => "IntraOp"@,
            OutcomeTimeFrameCodeType::Pacu => "PACU"@,
            OutcomeTimeFrameCodeType::TwentyFourHour => "24 Hour"@,
            OutcomeTimeFrameCodeType::FourtyEightHour => "48 Hour"@,
            OutcomeTimeFrameCodeType::SevenDays => "7 Days"@,
            OutcomeTimeFrameCodeType::ThirtyDays => "30 Days"@,
            OutcomeTimeFrameCodeType::SixtyDays => "60 Days"@,
            OutcomeTimeFrameCodeType::NinetyDays => "90 Days"@,
            OutcomeTimeFrameCodeType::OneYear => "1 Year"@,
        }
    }

    fn value(&self) -> (r: &str) {
        match self {
            OutcomeTimeFrameCodeType::PreOp => "PreOp",
            OutcomeTimeFrameCodeType::IntraOp => "IntraOp",
            OutcomeTimeFrameCodeType::Pacu => "PACU",
            OutcomeTimeFrameCodeType::TwentyFourHour => "24 Hour",
            OutcomeTimeFrameCodeType::FourtyEightHour => "48 Hour",
            OutcomeTimeFrameCodeType::SevenDays => "7 Days",
            OutcomeTimeFrameCodeType::ThirtyDays => "30 Days",
            OutcomeTimeFrameCodeType::SixtyDays => "60 Days",
            OutcomeTimeFrameCodeType::NinetyDays => "90 Days",
            OutcomeTimeFrameCodeType::OneYear => "1 Year",
        }
    }
}

impl OutcomeTimeFrameCodeType {
    /// Reads a member back from its literal, by its length and the characters that
    /// set it apart from the literals of the same length.
    spec fn decode(s: Seq<char>) -> Option<Self> {
        if s.len() == 5 {
            Some(OutcomeTimeFrameCodeType::PreOp)
        } else if s.len() == 7 && s[0] == 'I' {
            Some(OutcomeTimeFrameCodeType::IntraOp)
        } else if s.len() == 4 {
            Some(OutcomeTimeFrameCodeType::Pacu)
        } else if s.len() == 7 && s[0] == '2' {
            Some(OutcomeTimeFrameCodeType::TwentyFourHour)
        } else if s.len() == 7 && s[0] == '4' {
            Some(OutcomeTimeFrameCodeType::FourtyEightHour)
        } else if s.len() == 6 && s[0] == '7' {
            Some(OutcomeTimeFrameCodeType::SevenDays)
        } else if s.len() == 7 && s[0] == '3' {
            Some(OutcomeTimeFrameCodeType::ThirtyDays)
        } else if s.len() == 7 && s[0] == '6' {
            Some(OutcomeTimeFrameCodeType::SixtyDays)
        } else if s.len() == 7 && s[0] == '9' {
            Some(OutcomeTimeFrameCodeType::NinetyDays)
        } else if s.len() == 6 && s[0] == '1' {
            Some(OutcomeTimeFrameCodeType::OneYear)
        } else {
            None
        }
    }

    /// `decode` reads every member back from its literal.
    proof fn lemma_decode(m: Self)
        ensures
            Self::decode(m.spec_value()) == Some(m),
    {
        reveal_strlit("1 Year");
        reveal_strlit("24 Hour");
        reveal_strlit("30 Days");
        reveal_strlit("48 Hour");
        reveal_strlit("60 Days");
        reveal_strlit("7 Days");
        reveal_strlit("90 Days");
        reveal_strlit("IntraOp");
        reveal_strlit("PACU");
        reveal_strlit("PreOp");
    }

    /// No two members share a literal.
    pub proof fn lemma_literals_distinct(a: Self, b: Self)
        ensures
            a.spec_value() == b.spec_value() ==> a == b,
    {
        Self::lemma_decode(a);
        Self::lemma_decode(b);
    }
}

/// How severe an outcome was.
#[derive(Clone, Copy, Debug, Hash, PartialEq, Eq, Structural)]
pub enum OutcomeSeverityCodeType {
    NoHarm,
    MildHarm,
    ModerateHarm,
    SevereHarm,
    Death,
}

impl SchemaStringType for OutcomeSeverityCodeType {
    open spec fn spec_value(&self) -> Seq<char> {
        match self {
            OutcomeSeverityCodeType::NoHarm => "No Harm"@,
            OutcomeSeverityCodeType::MildHarm => "Mild Harm"@,
            OutcomeSeverityCodeType::ModerateHarm => "Moderate Harm"@,
            OutcomeSeverityCodeType::SevereHarm => "Severe Harm"@,
            OutcomeSeverityCodeType::Death => "Death"@,
        }
    }

    fn value(&self) -> (r: &str) {
        match self {
            OutcomeSeverityCodeType::NoHarm => "No Harm",
            OutcomeSeverityCodeType::MildHarm => "Mild Harm",
            OutcomeSeverityCodeType::ModerateHarm => "Moderate Harm",
            OutcomeSeverityCodeType::SevereHarm => "Severe Harm",
            OutcomeSeverityCodeType::Death => "Death",
        }
    }
}

impl OutcomeSeverityCodeType {
    /// Reads a member back from its literal, by its length and the characters that
    /// set it apart from the literals of the same length.
    spec fn decode(s: Seq<char>) -> Option<Self> {
        if s.len() == 7 {
            Some(OutcomeSeverityCodeType::NoHarm)
        } else if s.len() == 9 {
            Some(OutcomeSeverityCodeType::MildHarm)
        } else if s.len() == 13 {
            Some(OutcomeSeverityCodeType::ModerateHarm)
        } else if s.len() == 11 {
            Some(OutcomeSeverityCodeType::SevereHarm)
        } else if s.len() == 5 {
            Some(OutcomeSeverityCodeType::Death)
        } else {
            None
        }
    }

    /// `decode` reads every member back from its literal.
    proof fn lemma_decode(m: Self)
        ensures
            Self::decode(m.spec_value()) == Some(m),
    {
        reveal_strlit("Death");
        reveal_strlit("Mild Harm");
        reveal_strlit("Moderate Harm");
        reveal_strlit("No Harm");
        reveal_strlit("Severe Harm");
    }

    /// No two members share a literal.
    pub proof fn lemma_literals_distinct(a: Self, b: Self)
        ensures
            a.spec_value() == b.spec_value() ==> a == b,
    {
        Self::lemma_decode(a);
        Self::lemma_decode(b);
    }
}

/// Whether a total is an intake or an output.
#[derive(Clone, Copy, Debug, Hash, PartialEq, Eq, Structural)]
pub enum IntakeOutputDirectionCodeType {
    Input,
    Output,
    Other,
    Unknown,
}

impl SchemaStringType for IntakeOutputDirectionCodeType {
    open spec fn spec_value(&self) -> Seq<char> {
        match self {
            IntakeOutputDirectionCodeType::Input => "Input"@,
            IntakeOutputDirectionCodeType::Output => "Output"@,
            IntakeOutputDirectionCodeType::Other => "Other"@,
            IntakeOutputDirectionCodeType::Unknown => "Unknown"@,
        }
    }

    fn value(&self) -> (r: &str) {
        match self {
            IntakeOutputDirectionCodeType::Input => "Input",
            IntakeOutputDirectionCodeType::Output => "Output",
            IntakeOutputDirectionCodeType::Other => "Other",
            IntakeOutputDirectionCodeType::Unknown => "Unknown",
        }
    }
}

impl IntakeOutputDirectionCodeType {
    /// Reads a member back from its literal, by its length and the characters that
    /// set it apart from the literals of the same length.
    spec fn decode(s: Seq<char>) -> Option<Self> {
        if s.len() == 5 && s[0] == 'I' {
            Some(IntakeOutputDirectionCodeType::Input)
        } else if s.len() == 6 {
            Some(IntakeOutputDirectionCodeType::Output)
        } else if s.len() == 5 && s[0] == 'O' {
            Some(IntakeOutputDirectionCodeType::Other)
        } else if s.len() == 7 {
            Some(IntakeOutputDirectionCodeType::Unknown)
        } else {
            None
        }
    }

    /// `decode` reads every member back from its literal.
    proof fn lemma_decode(m: Self)
        ensures
            Self::decode(m.spec_value()) == Some(m),
    {
        reveal_strlit("Input");
        reveal_strlit("Other");
        reveal_strlit("Output");
        reveal_strlit("Unknown");
    }

    /// No two members share a literal.
    pub proof fn lemma_literals_distinct(a: Self, b: Self)
        ensures
            a.spec_value() == b.spec_value() ==> a == b,
    {
        Self::lemma_decode(a);
        Self::lemma_decode(b);
    }
}

/// The approach used for intubation.
#[derive(Clone, Copy, Debug, Hash, PartialEq, Eq, Structural)]
pub enum IntubationApproachCodeType {
    Endoctracheal,
    Nasogastric,
    Nasotracheal,
    Fiberoptic,
    Tracheostomy,
    SpeakingTracheostomy,
    Other,
    Unknown,
}

impl SchemaStringType for IntubationApproachCodeType {
    open spec fn spec_value(&self) -> Seq<char> {
        match self {
            IntubationApproachCodeType::Endoctracheal => "Endoctracheal"@,
            IntubationApproachCodeType::Nasogastric => "Nasogastric"@,
            IntubationApproachCodeType::Nasotracheal => "Nasotracheal"@,
            IntubationApproachCodeType::Fiberoptic => "Fiberoptic"@,
            IntubationApproachCodeType::Tracheostomy => "Tracheostomy"@,
            IntubationApproachCodeType::SpeakingTracheostomy => "Speaking tracheostomy"@,
            IntubationApproachCodeType::Other => "Other"@,
            IntubationApproachCodeType::Unknown => "Unknown"@,
        }
    }

    fn value(&self) -> (r: &str) {
        match self {
            IntubationApproachCodeType::Endoctracheal => "Endoctracheal",
            IntubationApproachCodeType::Nasogastric => "Nasogastric",
            IntubationApproachCodeType::Nasotracheal => "Nasotracheal",
            IntubationApproachCodeType::Fiberoptic => "Fiberoptic",
            IntubationApproachCodeType::Tracheostomy => "Tracheostomy",
            IntubationApproachCodeType::SpeakingTracheostomy => "Speaking tracheostomy",
            IntubationApproachCodeType::Other => "Other",
            IntubationApproachCodeType::Unknown => "Unknown",
        }
    }
}

impl IntubationApproachCodeType {
    /// Reads a member back from its literal, by its length and the characters that
    /// set it apart from the literals of the same length.
    spec fn decode(s: Seq<char>) -> Option<Self> {
        if s.len() == 13 {
            Some(IntubationApproachCodeType::Endoctracheal)
        } else if s.len() == 11 {
            Some(IntubationApproachCodeType::Nasogastric)
        } else if s.len() == 12 && s[0] == 'N' {
            Some(IntubationApproachCodeType::Nasotracheal)
        } else if s.len() == 10 {
            Some(IntubationApproachCodeType::Fiberoptic)
        } else if s.len() == 12 && s[0] == 'T' {
            Some(IntubationApproachCodeType::Tracheostomy)
        } else if s.len() == 21 {
            Some(IntubationApproachCodeType::SpeakingTracheostomy)
        } else if s.len() == 5 {
            Some(IntubationApproachCodeType::Other)
        } else if s.len() == 7 {
            Some(IntubationApproachCodeType::Unknown)
        } else {
            None
        }
    }

    /// `decode` reads every member back from its literal.
    proof fn lemma_decode(m: Self)
        ensures
            Self::decode(m.spec_value()) == Some(m),
    {
        reveal_strlit("Endoctracheal");
        reveal_strlit("Fiberoptic");
        reveal_strlit("Nasogastric");
        reveal_strlit("Nasotracheal");
        reveal_strlit("Other");
        reveal_strlit("Speaking tracheostomy");
        reveal_strlit("Tracheostomy");
        reveal_strlit("Unknown");
    }

    /// No two members share a literal.
    pub proof fn lemma_literals_distinct(a: Self, b: Self)
        ensures
            a.spec_value() == b.spec_value() ==> a == b,
    {
        Self::lemma_decode(a);
        Self::lemma_decode(b);
    }
}

/// The category of an anesthesia detail.
#[derive(Clone, Copy, Debug, Hash, PartialEq, Eq, Structural)]
pub enum AnesthesiaDetailsCategoryCodeType {
    Attempts,
    Position,
    NeedleType,
    NeedleLength,
    Other,
    Unknown,
}

impl SchemaStringType for AnesthesiaDetailsCategoryCodeType {
    open spec fn spec_value(&self) -> Seq<char> {
        match self {
            AnesthesiaDetailsCategoryCodeType::Attempts => "attempts"@,
            AnesthesiaDetailsCategoryCodeType::Position => "position"@,
            AnesthesiaDetailsCategoryCodeType::NeedleType => "needle type"@,
            AnesthesiaDetailsCategoryCodeType::NeedleLength => "needle length"@,
            AnesthesiaDetailsCategoryCodeType::Other => "Other"@,
            AnesthesiaDetailsCategoryCodeType::Unknown => "Unknown"@,
        }
    }

    fn value(&self) -> (r: &str) {
        match self {
            AnesthesiaDetailsCategoryCodeType::Attempts => "attempts",
            AnesthesiaDetailsCategoryCodeType::Position => "position",
            AnesthesiaDetailsCategoryCodeType::NeedleType => "needle type",
            AnesthesiaDetailsCategoryCodeType::NeedleLength => "needle length",
            AnesthesiaDetailsCategoryCodeType::Other => "Other",
            AnesthesiaDetailsCategoryCodeType::Unknown => "Unknown",
        }
    }
}

impl AnesthesiaDetailsCategoryCodeType {
    /// Reads a member back from its literal, by its length and the characters that
    /// set it apart from the literals of the same length.
    spec fn decode(s: Seq<char>) -> Option<Self> {
        if s.len() == 8 && s[0] == 'a' {
            Some(AnesthesiaDetailsCategoryCodeType::Attempts)
        } else if s.len() == 8 && s[0] == 'p' {
            Some(AnesthesiaDetailsCategoryCodeType::Position)
        } else if s.len() == 11 {
            Some(AnesthesiaDetailsCategoryCodeType::NeedleType)
        } else if s.len() == 13 {
            Some(AnesthesiaDetailsCategoryCodeType::NeedleLength)
        } else if s.len() == 5 {
            Some(AnesthesiaDetailsCategoryCodeType::Other)
        } else if s.len() == 7 {
            Some(AnesthesiaDetailsCategoryCodeType::Unknown)
        } else {
            None
        }
    }

    /// `decode` reads every member back from its literal.
    proof fn lemma_decode(m: Self)
        ensures
            Self::decode(m.spec_value()) == Some(m),
    {
        reveal_strlit("Other");
        reveal_strlit("Unknown");
        reveal_strlit("attempts");
        reveal_strlit("needle length");
        reveal_strlit("needle type");
        reveal_strlit("position");
    }

    /// No two members share a literal.
    pub proof fn lemma_literals_distinct(a: Self, b: Self)
        ensures
            a.spec_value() == b.spec_value() ==> a == b,
    {
        Self::lemma_decode(a);
        Self::lemma_decode(b);
    }
}

/// A quality-measure modifier; `NoModifier` is the empty code.
#[derive(Clone, Copy, Debug, Hash, PartialEq, Eq, Structural)]
pub enum QCDRModifierType {
    NoModifier,
    OneP,
    TwoP,
    ThreeP,
    EightP,
}

impl SchemaStringType for QCDRModifierType {
    open spec fn spec_value(&self) -> Seq<char> {
        match self {
            QCDRModifierType::NoModifier => ""@,
            QCDRModifierType::OneP => "1P"@,
            QCDRModifierType::TwoP => "2P"@,
            QCDRModifierType::ThreeP => "3P"@,
            QCDRModifierType::EightP => "8P"@,
        }
    }

    fn value(&self) -> (r: &str) {
        match self {
            QCDRModifierType::NoModifier => "",
            QCDRModifierType::OneP => "1P",
            QCDRModifierType::TwoP => "2P",
            QCDRModifierType::ThreeP => "3P",
            QCDRModifierType::EightP => "8P",
        }
    }
}

impl QCDRModifierType {
    /// Reads a member back from its literal, by its length and the characters that
    /// set it apart from the literals of the same length.
    spec fn decode(s: Seq<char>) -> Option<Self> {
        if s.len() == 0 {
            Some(QCDRModifierType::NoModifier)
        } else if s.len() == 2 && s[0] == '1' {
            Some(QCDRModifierType::OneP)
        } else if s.len() == 2 && s[0] == '2' {
            Some(QCDRModifierType::TwoP)
        } else if s.len() == 2 && s[0] == '3' {
            Some(QCDRModifierType::ThreeP)
        } else if s.len() == 2 && s[0] == '8' {
            Some(QCDRModifierType::EightP)
        } else {
            None
        }
    }

    /// `decode` reads every member back from its literal.
    proof fn lemma_decode(m: Self)
        ensures
            Self::decode(m.spec_value()) == Some(m),
    {
        reveal_strlit("");
        reveal_strlit("1P");
        reveal_strlit("2P");
        reveal_strlit("3P");
        reveal_strlit("8P");
    }

    /// No two members share a literal.
    pub proof fn lemma_literals_distinct(a: Self, b: Self)
        ensures
            a.spec_value() == b.spec_value() ==> a == b,
    {
        Self::lemma_decode(a);
        Self::lemma_decode(b);
    }
}

/// The version of the document schema.
#[derive(Clone, Copy, Debug, Hash, PartialEq, Eq, Structural)]
pub enum AQIXMLVersionType {
    Version2018V10,
    Version2018V10R,
}

impl SchemaStringType for AQIXMLVersionType {
    open spec fn spec_value(&self) -> Seq<char> {
        match self {
            AQIXMLVersionType::Version2018V10 => "2018V1.0"@,
            AQIXMLVersionType::Version2018V10R => "2018V1.0R"@,
        }
    }

    fn value(&self) -> (r: &str) {
        match self {
            AQIXMLVersionType::Version2018V10 => "2018V1.0",
            AQIXMLVersionType::Version2018V10R => "2018V1.0R",
        }
    }
}

impl AQIXMLVersionType {
    /// Reads a member back from its literal, by its length and the characters that
    /// set it apart from the literals of the same length.
    spec fn decode(s: Seq<char>) -> Option<Self> {
        if s.len() == 8 {
            Some(AQIXMLVersionType::Version2018V10)
        } else if s.len() == 9 {
            Some(AQIXMLVersionType::Version2018V10R)
        } else {
            None
        }
    }

    /// `decode` reads every member back from its literal.
    proof fn lemma_decode(m: Self)
        ensures
            Self::decode(m.spec_value()) == Some(m),
    {
        reveal_strlit("2018V1.0");
        reveal_strlit("2018V1.0R");
    }

    /// No two members share a literal.
    pub proof fn lemma_literals_distinct(a: Self, b: Self)
        ensures
            a.spec_value() == b.spec_value() ==> a == b,
    {
        Self::lemma_decode(a);
        Self::lemma_decode(b);
    }
}

} // verus!
