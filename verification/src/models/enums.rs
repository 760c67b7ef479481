//! Enumerations used by the query models and the records.

use vstd::prelude::*;
use vstd::std_specs::convert::FromSpecImpl;

verus! {

/// Crystal system classification.
#[derive(Debug, Clone, Copy, PartialEq, Eq, Structural)]
pub enum CrystalSystem {
    Isometric,
    Orthorhombic,
    Hexagonal,
    Trigonal,
    Tetragonal,
    Monoclinic,
    Triclinic,
    Amorphous,
    Icosahedral,
}

/// Cleavage type classification.
#[derive(Debug, Clone, Copy, PartialEq, Eq, Structural)]
pub enum CleavageType {
    NoneObserved,
    PoorIndistinct,
    ImperfectFair,
    DistinctGood,
    VeryGood,
    Perfect,
}

/// Transparency classification.
#[derive(Debug, Clone, Copy, PartialEq, Eq, Structural)]
pub enum Diapheny {
    Transparent,
    Translucent,
    Opaque,
}

/// Fracture type classification.
#[derive(Debug, Clone, Copy, PartialEq, Eq, Structural)]
pub enum FractureType {
    NoneObserved,
    IrregularUneven,
    Splintery,
    Hackly,
    Conchoidal,
    SubConchoidal,
    Fibrous,
    Micaceous,
    StepLike,
}

/// Lustre type classification.
#[derive(Debug, Clone, Copy, PartialEq, Eq, Structural)]
pub enum LustreType {
    Adamantine,
    SubAdamantine,
    Vitreous,
    SubVitreous,
    Resinous,
    Waxy,
    Greasy,
    Silky,
    Pearly,
    Metallic,
    SubMetallic,
    Dull,
    Earthy,
}

/// Tenacity classification.
#[derive(Debug, Clone, Copy, PartialEq, Eq, Structural)]
pub enum Tenacity {
    Brittle,
    VeryBrittle,
    Sectile,
    Waxy,
    Flexible,
    Elastic,
    Fragile,
    Malleable,
}

/// Optical type classification.
#[derive(Debug, Clone, Copy, PartialEq, Eq, Structural)]
pub enum OpticalType {
    Isotropic,
    Uniaxial,
    Biaxial,
}

/// Optical sign classification.
#[derive(Debug, Clone, Copy, PartialEq, Eq, Structural)]
pub enum OpticalSign {
    Positive,
    Negative,
    Both,
}

/// Optical pleochroism classification.
#[derive(Debug, Clone, Copy, PartialEq, Eq, Structural)]
pub enum OpticalPleochroism {
    NonPleochroic,
    NotVisible,
    Weak,
    Visible,
    Strong,
}

/// Optical tropic classification.
#[derive(Debug, Clone, Copy, PartialEq, Eq, Structural)]
pub enum OpticalTropic {
    Isotropic,
    Anisotropic,
}

/// Magnetism classification.
#[derive(Debug, Clone, Copy, PartialEq, Eq, Structural)]
pub enum Magnetism {
    NonMagnetic,
    Diamagnetic,
    Paramagnetic,
    Ferromagnetic,
    Antiferromagnetic,
    Ferrimagnetic,
}

/// IMA status for minerals.
#[derive(Debug, Clone, Copy, PartialEq, Eq, Structural)]
pub enum ImaStatus {
    Approved,
    Discredited,
    PendingPublication,
    Grandfathered,
    Questionable,
}

/// IMA notes for minerals.
#[derive(Debug, Clone, Copy, PartialEq, Eq, Structural)]
pub enum ImaNotes {
    Rejected,
    PendingApproval,
    Group,
    Redefined,
    Renamed,
    Intermediate,
    PublishedWithoutApproval,
    UnnamedValid,
    UnnamedInvalid,
    NamedAmphibole,
}

/// Entry type classification for geomaterials. The upstream code of a variant
/// is its position in this list, starting at zero.
#[derive(Debug, Clone, Copy, PartialEq, Eq, Structural)]
pub enum EntryType {
    Mineral,
    Synonym,
    Variety,
    Mixture,
    Series,
    GroupList,
    Polytype,
    Rock,
    Commodity,
}

impl EntryType {
    /// The entry type for an upstream code. Codes that name no entry type
    /// stand for a mineral.
    pub open spec fn of_code(code: u8) -> EntryType {
        match code {
            1 => EntryType::Synonym,
            2 => EntryType::Variety,
            3 => EntryType::Mixture,
            4 => EntryType::Series,
            5 => EntryType::GroupList,
            6 => EntryType::Polytype,
            7 => EntryType::Rock,
            8 => EntryType::Commodity,
            _ => EntryType::Mineral,
        }
    }

    /// The upstream code of an entry type.
    pub open spec fn code(self) -> u8 {
        match self {
            EntryType::Mineral => 0,
            EntryType::Synonym => 1,
            EntryType::Variety => 2,
            EntryType::Mixture => 3,
            EntryType::Series => 4,
            EntryType::GroupList => 5,
            EntryType::Polytype => 6,
            EntryType::Rock => 7,
            EntryType::Commodity => 8,
        }
    }

    /// Every entry type is found again from its code.
    pub proof fn lemma_code_round_trip(t: EntryType)
        ensures
            EntryType::of_code(t.code()) == t,
            t.code() <= 8,
    {
    }
}

impl From<u8> for EntryType {
    fn from(value: u8) -> (r: Self) {
        match value {
            0 => EntryType::Mineral,
            1 => EntryType::Synonym,
            2 => EntryType::Variety,
            3 => EntryType::Mixture,
            4 => EntryType::Series,
            5 => EntryType::GroupList,
            6 => EntryType::Polytype,
            7 => EntryType::Rock,
            8 => EntryType::Commodity,
            _ => EntryType::Mineral,
        }
    }
}

impl FromSpecImpl<u8> for EntryType {
    open spec fn obeys_from_spec() -> bool {
        true
    }

    open spec fn from_spec(value: u8) -> Self {
        EntryType::of_code(value)
    }
}

/// Ordering options for geomaterials queries. A variant ending in `Desc` sorts
/// in descending order; its token is the ascending token behind a `-`.
#[derive(Debug, Clone, Copy, PartialEq, Eq, Structural)]
pub enum GeomaterialsOrdering {
    Id,
    IdDesc,
    Name,
    NameDesc,
    UpdateTime,
    UpdateTimeDesc,
    ApprovalYear,
    ApprovalYearDesc,
    Weighting,
    WeightingDesc,
    LocalityEntries,
    LocalityEntriesDesc,
    Photos,
    PhotosDesc,
}

impl GeomaterialsOrdering {
    /// The upstream token of an ordering.
    pub open spec fn token(self) -> Seq<char> {
        match self {
            GeomaterialsOrdering::Id => "id"@,
            GeomaterialsOrdering::IdDesc => "-id"@,
            GeomaterialsOrdering::Name => "name"@,
            GeomaterialsOrdering::NameDesc => "-name"@,
            GeomaterialsOrdering::UpdateTime => "updttime"@,
            GeomaterialsOrdering::UpdateTimeDesc => "-updttime"@,
            GeomaterialsOrdering::ApprovalYear => "approval_year"@,
            GeomaterialsOrdering::ApprovalYearDesc => "-approval_year"@,
            GeomaterialsOrdering::Weighting => "weighting"@,
            GeomaterialsOrdering::WeightingDesc => "-weighting"@,
            GeomaterialsOrdering::LocalityEntries => "minstats__ms_locentries"@,
            GeomaterialsOrdering::LocalityEntriesDesc => "-minstats__ms_locentries"@,
            GeomaterialsOrdering::Photos => "minstats__ms_photos"@,
            GeomaterialsOrdering::PhotosDesc => "-minstats__ms_photos"@,
        }
    }

    /// The ordering that a token names, if any.
    pub open spec fn of_token(token: Seq<char>) -> Option<GeomaterialsOrdering> {
        if token == "id"@ {
            Some(GeomaterialsOrdering::Id)
        } else if token == "-id"@ {
            Some(GeomaterialsOrdering::IdDesc)
        } else if token == "name"@ {
            Some(GeomaterialsOrdering::Name)
        } else if token == "-name"@ {
            Some(GeomaterialsOrdering::NameDesc)
        } else if token == "updttime"@ {
            Some(GeomaterialsOrdering::UpdateTime)
        } else if token == "-updttime"@ {
            Some(GeomaterialsOrdering::UpdateTimeDesc)
        } else if token == "approval_year"@ {
            Some(GeomaterialsOrdering::ApprovalYear)
        } else if token == "-approval_year"@ {
            Some(GeomaterialsOrdering::ApprovalYearDesc)
        } else if token == "weighting"@ {
            Some(GeomaterialsOrdering::Weighting)
        } else if token == "-weighting"@ {
            Some(GeomaterialsOrdering::WeightingDesc)
        } else if token == "minstats__ms_locentries"@ {
            Some(GeomaterialsOrdering::LocalityEntries)
        } else if token == "-minstats__ms_locentries"@ {
            Some(GeomaterialsOrdering::LocalityEntriesDesc)
        } else if token == "minstats__ms_photos"@ {
            Some(GeomaterialsOrdering::Photos)
        } else if token == "-minstats__ms_photos"@ {
            Some(GeomaterialsOrdering::PhotosDesc)
        } else {
            None
        }
    }

    /// An ordering is found again from its token, so no two orderings share
    /// one.
    pub proof fn lemma_token_round_trip(ordering: GeomaterialsOrdering)
        ensures
            GeomaterialsOrdering::of_token(ordering.token()) == Some(ordering),
    {
        reveal_strlit("id");
        reveal_strlit("-id");
        reveal_strlit("name");
        reveal_strlit("-name");
        reveal_strlit("updttime");
        reveal_strlit("-updttime");
        reveal_strlit("approval_year");
        reveal_strlit("-approval_year");
        reveal_strlit("weighting");
        reveal_strlit("-weighting");
        reveal_strlit("minstats__ms_locentries");
        reveal_strlit("-minstats__ms_locentries");
        reveal_strlit("minstats__ms_photos");
        reveal_strlit("-minstats__ms_photos");
        // Tokens of different lengths differ.
        assert("id"@.len() == 2);
        assert("-id"@.len() == 3);
        assert("name"@.len() == 4);
        assert("-name"@.len() == 5);
        assert("updttime"@.len() == 8);
        assert("-updttime"@.len() == 9);
        assert("approval_year"@.len() == 13);
        assert("-approval_year"@.len() == 14);
        assert("weighting"@.len() == 9);
        assert("-weighting"@.len() == 10);
        assert("minstats__ms_locentries"@.len() == 23);
        assert("-minstats__ms_locentries"@.len() == 24);
        assert("minstats__ms_photos"@.len() == 19);
        assert("-minstats__ms_photos"@.len() == 20);
        // The only two tokens of one length differ in their first character.
        assert("-updttime"@[0] == '-' && "weighting"@[0] == 'w');
    }

    /// A token that names an ordering is that ordering's token, so no two
    /// tokens name the same ordering.
    pub proof fn lemma_of_token_inverse(token: Seq<char>)
        ensures
            GeomaterialsOrdering::of_token(token) matches Some(ordering) ==> ordering.token()
                == token,
    {
    }

    /// The upstream token of this ordering.
    pub fn as_str(&self) -> (token: &'static str)
        ensures
            token@ == self.token(),
    {
        match self {
            GeomaterialsOrdering::Id => "id",
            GeomaterialsOrdering::IdDesc => "-id",
            GeomaterialsOrdering::Name => "name",
            GeomaterialsOrdering::NameDesc => "-name",
            GeomaterialsOrdering::UpdateTime => "updttime",
            GeomaterialsOrdering::UpdateTimeDesc => "-updttime",
            GeomaterialsOrdering::ApprovalYear => "approval_year",
            GeomaterialsOrdering::ApprovalYearDesc => "-approval_year",
            GeomaterialsOrdering::Weighting => "weighting",
            GeomaterialsOrdering::WeightingDesc => "-weighting",
            GeomaterialsOrdering::LocalityEntries => "minstats__ms_locentries",
            GeomaterialsOrdering::LocalityEntriesDesc => "-minstats__ms_locentries",
            GeomaterialsOrdering::Photos => "minstats__ms_photos",
            GeomaterialsOrdering::PhotosDesc => "-minstats__ms_photos",
        }
    }

    /// The upstream token of this ordering, as an owned string.
    pub fn to_string(&self) -> (token: String)
        ensures
            token@ == self.token(),
    {
        self.as_str().to_owned()
    }

    /// Reads an upstream token. `None` when the text is no ordering token.
    pub fn from_token(token: &str) -> (ordering: Option<GeomaterialsOrdering>)
        ensures
            ordering == GeomaterialsOrdering::of_token(token@),
    {
        if *token == *"id" {
            Some(GeomaterialsOrdering::Id)
        } else if *token == *"-id" {
            Some(GeomaterialsOrdering::IdDesc)
        } else if *token == *"name" {
            Some(GeomaterialsOrdering::Name)
        } else if *token == *"-name" {
            Some(GeomaterialsOrdering::NameDesc)
        } else if *token == *"updttime" {
            Some(GeomaterialsOrdering::UpdateTime)
        } else if *token == *"-updttime" {
            Some(GeomaterialsOrdering::UpdateTimeDesc)
        } else if *token == *"approval_year" {
            Some(GeomaterialsOrdering::ApprovalYear)
        } else if *token == *"-approval_year" {
            Some(GeomaterialsOrdering::ApprovalYearDesc)
        } else if *token == *"weighting" {
            Some(GeomaterialsOrdering::Weighting)
        } else if *token == *"-weighting" {
            Some(GeomaterialsOrdering::WeightingDesc)
        } else if *token == *"minstats__ms_locentries" {
            Some(GeomaterialsOrdering::LocalityEntries)
        } else if *token == *"-minstats__ms_locentries" {
            Some(GeomaterialsOrdering::LocalityEntriesDesc)
        } else if *token == *"minstats__ms_photos" {
            Some(GeomaterialsOrdering::Photos)
        } else if *token == *"-minstats__ms_photos" {
            Some(GeomaterialsOrdering::PhotosDesc)
        } else {
            None
        }
    }
}

} // verus!
