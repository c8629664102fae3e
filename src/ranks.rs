use vstd::prelude::*;

verus! {

/// The ranks of the main group. The promotion ladder runs from `Enlisted` up
/// to `Chairman`; `Veteran` is an honorary rank that stands off the ladder.
#[derive(Clone, Copy, Debug, PartialEq, Eq, Structural, Hash)]
pub enum Ranks {
    Chairman,
    Marshal,
    Colonel,
    Captain,
    Lieutenant,
    Ensign,
    SergeantMajorOfTheAlliance,
    StaffSergeant,
    TechSergeant,
    Veteran,
    Corporal,
    LanceCorporal,
    Sentinel,
    Fleetman,
    Specialist,
    Operative,
    Trooper,
    Enlisted,
}

/// Position of a rank on the ladder, counted from `Enlisted` at 0;
/// `None` for a rank off the ladder.
pub open spec fn ladder_position(r: Ranks) -> Option<int> {
    match r {
        Ranks::Enlisted => Some(0),
        Ranks::Trooper => Some(1),
        Ranks::Operative => Some(2),
        Ranks::Specialist => Some(3),
        Ranks::Fleetman => Some(4),
        Ranks::Sentinel => Some(5),
        Ranks::LanceCorporal => Some(6),
        Ranks::Corporal => Some(7),
        Ranks::TechSergeant => Some(8),
        Ranks::StaffSergeant => Some(9),
        Ranks::SergeantMajorOfTheAlliance => Some(10),
        Ranks::Ensign => Some(11),
        Ranks::Lieutenant => Some(12),
        Ranks::Captain => Some(13),
        Ranks::Colonel => Some(14),
        Ranks::Marshal => Some(15),
        Ranks::Chairman => Some(16),
        Ranks::Veteran => None,
    }
}

/// The rank at a ladder position, if the position is on the ladder.
pub open spec fn rank_at(i: int) -> Option<Ranks> {
    if i == 0 {
        Some(Ranks::Enlisted)
    } else if i == 1 {
        Some(Ranks::Trooper)
    } else if i == 2 {
        Some(Ranks::Operative)
    } else if i == 3 {
        Some(Ranks::Specialist)
    } else if i == 4 {
        Some(Ranks::Fleetman)
    } else if i == 5 {
        Some(Ranks::Sentinel)
    } else if i == 6 {
        Some(Ranks::LanceCorporal)
    } else if i == 7 {
        Some(Ranks::Corporal)
    } else if i == 8 {
        Some(Ranks::TechSergeant)
    } else if i == 9 {
        Some(Ranks::StaffSergeant)
    } else if i == 10 {
        Some(Ranks::SergeantMajorOfTheAlliance)
    } else if i == 11 {
        Some(Ranks::Ensign)
    } else if i == 12 {
        Some(Ranks::Lieutenant)
    } else if i == 13 {
        Some(Ranks::Captain)
    } else if i == 14 {
        Some(Ranks::Colonel)
    } else if i == 15 {
        Some(Ranks::Marshal)
    } else if i == 16 {
        Some(Ranks::Chairman)
    } else {
        None
    }
}

/// The rank one position above `r` on the ladder.
pub open spec fn next_rank(r: Ranks) -> Option<Ranks> {
    match ladder_position(r) {
        Some(i) => rank_at(i + 1),
        None => None,
    }
}

/// The rank one position below `r` on the ladder.
pub open spec fn prev_rank(r: Ranks) -> Option<Ranks> {
    match ladder_position(r) {
        Some(i) => rank_at(i - 1),
        None => None,
    }
}

/// The group service's numeric rank value of each rank.
pub open spec fn rank_value(r: Ranks) -> u32 {
    match r {
        Ranks::Chairman => 255,
        Ranks::Marshal => 254,
        Ranks::Colonel => 205,
        Ranks::Captain => 198,
        Ranks::Lieutenant => 196,
        Ranks::Ensign => 193,
        Ranks::SergeantMajorOfTheAlliance => 192,
        Ranks::StaffSergeant => 191,
        Ranks::TechSergeant => 190,
        Ranks::Veteran => 26,
        Ranks::Corporal => 25,
        Ranks::LanceCorporal => 21,
        Ranks::Sentinel => 19,
        Ranks::Fleetman => 17,
        Ranks::Specialist => 15,
        Ranks::Operative => 9,
        Ranks::Trooper => 7,
        Ranks::Enlisted => 5,
    }
}

/// The rank whose numeric value is `v`, if any.
pub open spec fn rank_of_value(v: u64) -> Option<Ranks> {
    if v == 255 {
        Some(Ranks::Chairman)
    } else if v == 254 {
        Some(Ranks::Marshal)
    } else if v == 205 {
        Some(Ranks::Colonel)
    } else if v == 198 {
        Some(Ranks::Captain)
    } else if v == 196 {
        Some(Ranks::Lieutenant)
    } else if v == 193 {
        Some(Ranks::Ensign)
    } else if v == 192 {
        Some(Ranks::SergeantMajorOfTheAlliance)
    } else if v == 191 {
        Some(Ranks::StaffSergeant)
    } else if v == 190 {
        Some(Ranks::TechSergeant)
    } else if v == 26 {
        Some(Ranks::Veteran)
    } else if v == 25 {
        Some(Ranks::Corporal)
    } else if v == 21 {
        Some(Ranks::LanceCorporal)
    } else if v == 19 {
        Some(Ranks::Sentinel)
    } else if v == 17 {
        Some(Ranks::Fleetman)
    } else if v == 15 {
        Some(Ranks::Specialist)
    } else if v == 9 {
        Some(Ranks::Operative)
    } else if v == 7 {
        Some(Ranks::Trooper)
    } else if v == 5 {
        Some(Ranks::Enlisted)
    } else {
        None
    }
}

/// The role identifier that the group service assigns to each rank.
pub open spec fn role_id(r: Ranks) -> u32 {
    match r {
        Ranks::Chairman => 25617739,
        Ranks::Marshal => 25617740,
        Ranks::Colonel => 25617767,
        Ranks::Captain => 25617779,
        Ranks::Lieutenant => 25617781,
        Ranks::Ensign => 25617796,
        Ranks::SergeantMajorOfTheAlliance => 80131938,
        Ranks::StaffSergeant => 80131906,
        Ranks::TechSergeant => 80131913,
        Ranks::Veteran => 26253933,
        Ranks::Corporal => 25617802,
        Ranks::LanceCorporal => 26539946,
        Ranks::Sentinel => 26539927,
        Ranks::Fleetman => 26539923,
        Ranks::Specialist => 25617809,
        Ranks::Operative => 26539897,
        Ranks::Trooper => 26539881,
        Ranks::Enlisted => 25617741,
    }
}

/// The display name of each rank.
pub open spec fn rank_name(r: Ranks) -> Seq<char> {
    match r {
        Ranks::Chairman => "Chairman"@,
        Ranks::Marshal => "Marshal"@,
        Ranks::Colonel => "Colonel"@,
        Ranks::Captain => "Captain"@,
        Ranks::Lieutenant => "Lieutenant"@,
        Ranks::Ensign => "Ensign"@,
        Ranks::SergeantMajorOfTheAlliance => "Sergeant Major of the Alliance"@,
        Ranks::StaffSergeant => "Staff Sergeant"@,
        Ranks::TechSergeant => "Tech Sergeant"@,
        Ranks::Veteran => "Veteran"@,
        Ranks::Corporal => "Corporal"@,
        Ranks::LanceCorporal => "Lance Corporal"@,
        Ranks::Sentinel => "Sentinel"@,
        Ranks::Fleetman => "Fleetman"@,
        Ranks::Specialist => "Specialist"@,
        Ranks::Operative => "Operative"@,
        Ranks::Trooper => "Trooper"@,
        Ranks::Enlisted => "Enlisted"@,
    }
}

/// The rank whose display name is `s`, if any.
pub open spec fn rank_of_name(s: Seq<char>) -> Option<Ranks> {
    if s == "Chairman"@ {
        Some(Ranks::Chairman)
    } else if s == "Marshal"@ {
        Some(Ranks::Marshal)
    } else if s == "Colonel"@ {
        Some(Ranks::Colonel)
    } else if s == "Captain"@ {
        Some(Ranks::Captain)
    } else if s == "Lieutenant"@ {
        Some(Ranks::Lieutenant)
    } else if s == "Ensign"@ {
        Some(Ranks::Ensign)
    } else if s == "Sergeant Major of the Alliance"@ {
        Some(Ranks::SergeantMajorOfTheAlliance)
    } else if s == "Staff Sergeant"@ {
        Some(Ranks::StaffSergeant)
    } else if s == "Tech Sergeant"@ {
        Some(Ranks::TechSergeant)
    } else if s == "Veteran"@ {
        Some(Ranks::Veteran)
    } else if s == "Corporal"@ {
        Some(Ranks::Corporal)
    } else if s == "Lance Corporal"@ {
        Some(Ranks::LanceCorporal)
    } else if s == "Sentinel"@ {
        Some(Ranks::Sentinel)
    } else if s == "Fleetman"@ {
        Some(Ranks::Fleetman)
    } else if s == "Specialist"@ {
        Some(Ranks::Specialist)
    } else if s == "Operative"@ {
        Some(Ranks::Operative)
    } else if s == "Trooper"@ {
        Some(Ranks::Trooper)
    } else if s == "Enlisted"@ {
        Some(Ranks::Enlisted)
    } else {
        None
    }
}

impl Default for Ranks {
    fn default() -> (r: Self)
        ensures
            r == Ranks::Enlisted,
    {
        Ranks::Enlisted
    }
}

impl Ranks {
    pub fn from_value(value: u64) -> (r: Option<Ranks>)
        ensures
            r == rank_of_value(value),
    {
        match value {
            255 => Some(Ranks::Chairman),
            254 => Some(Ranks::Marshal),
            205 => Some(Ranks::Colonel),
            198 => Some(Ranks::Captain),
            196 => Some(Ranks::Lieutenant),
            193 => Some(Ranks::Ensign),
            192 => Some(Ranks::SergeantMajorOfTheAlliance),
            191 => Some(Ranks::StaffSergeant),
            190 => Some(Ranks::TechSergeant),
            26 => Some(Ranks::Veteran),
            25 => Some(Ranks::Corporal),
            21 => Some(Ranks::LanceCorporal),
            19 => Some(Ranks::Sentinel),
            17 => Some(Ranks::Fleetman),
            15 => Some(Ranks::Specialist),
            9 => Some(Ranks::Operative),
            7 => Some(Ranks::Trooper),
            5 => Some(Ranks::Enlisted),
            _ => None,
        }
    }

    pub fn to_value(&self) -> (r: u32)
        ensures
            r == rank_value(*self),
    {
        match self {
            Ranks::Chairman => 255,
            Ranks::Marshal => 254,
            Ranks::Colonel => 205,
            Ranks::Captain => 198,
            Ranks::Lieutenant => 196,
            Ranks::Ensign => 193,
            Ranks::SergeantMajorOfTheAlliance => 192,
            Ranks::StaffSergeant => 191,
            Ranks::TechSergeant => 190,
            Ranks::Veteran => 26,
            Ranks::Corporal => 25,
            Ranks::LanceCorporal => 21,
            Ranks::Sentinel => 19,
            Ranks::Fleetman => 17,
            Ranks::Specialist => 15,
            Ranks::Operative => 9,
            Ranks::Trooper => 7,
            Ranks::Enlisted => 5,
        }
    }

    pub fn to_role_id(&self) -> (r: u32)
        ensures
            r == role_id(*self),
    {
        match self {
            Ranks::Chairman => 25617739,
            Ranks::Marshal => 25617740,
            Ranks::Colonel => 25617767,
            Ranks::Captain => 25617779,
            Ranks::Lieutenant => 25617781,
            Ranks::Ensign => 25617796,
            Ranks::SergeantMajorOfTheAlliance => 80131938,
            Ranks::StaffSergeant => 80131906,
            Ranks::TechSergeant => 80131913,
            Ranks::Veteran => 26253933,
            Ranks::Corporal => 25617802,
            Ranks::LanceCorporal => 26539946,
            Ranks::Sentinel => 26539927,
            Ranks::Fleetman => 26539923,
            Ranks::Specialist => 25617809,
            Ranks::Operative => 26539897,
            Ranks::Trooper => 26539881,
            Ranks::Enlisted => 25617741,
        }
    }

    /// The rank whose display name is `str`, if any.
    pub fn inverse_to_string(str: String) -> (r: Option<Ranks>)
        ensures
            r == rank_of_name(str@),
    {
        if str == String::from_str("Chairman") {
            return Some(Ranks::Chairman);
        }
        if str == String::from_str("Marshal") {
            return Some(Ranks::Marshal);
        }
        if str == String::from_str("Colonel") {
            return Some(Ranks::Colonel);
        }
        if str == String::from_str("Captain") {
            return Some(Ranks::Captain);
        }
        if str == String::from_str("Lieutenant") {
            return Some(Ranks::Lieutenant);
        }
        if str == String::from_str("Ensign") {
            return Some(Ranks::Ensign);
        }
        if str == String::from_str("Sergeant Major of the Alliance") {
            return Some(Ranks::SergeantMajorOfTheAlliance);
        }
        if str == String::from_str("Staff Sergeant") {
            return Some(Ranks::StaffSergeant);
        }
        if str == String::from_str("Tech Sergeant") {
            return Some(Ranks::TechSergeant);
        }
        if str == String::from_str("Veteran") {
            return Some(Ranks::Veteran);
        }
        if str == String::from_str("Corporal") {
            return Some(Ranks::Corporal);
        }
        if str == String::from_str("Lance Corporal") {
            return Some(Ranks::LanceCorporal);
        }
        if str == String::from_str("Sentinel") {
            return Some(Ranks::Sentinel);
        }
        if str == String::from_str("Fleetman") {
            return Some(Ranks::Fleetman);
        }
        if str == String::from_str("Specialist") {
            return Some(Ranks::Specialist);
        }
        if str == String::from_str("Operative") {
            return Some(Ranks::Operative);
        }
        if str == String::from_str("Trooper") {
            return Some(Ranks::Trooper);
        }
        if str == String::from_str("Enlisted") {
            return Some(Ranks::Enlisted);
        }
        None
    }

    /// The display name of the rank.
    pub fn to_string(&self) -> (r: String)
        ensures
            r@ == rank_name(*self),
    {
        match self {
            Ranks::Chairman => String::from_str("Chairman"),
            Ranks::Marshal => String::from_str("Marshal"),
            Ranks::Colonel => String::from_str("Colonel"),
            Ranks::Captain => String::from_str("Captain"),
            Ranks::Lieutenant => String::from_str("Lieutenant"),
            Ranks::Ensign => String::from_str("Ensign"),
            Ranks::SergeantMajorOfTheAlliance => String::from_str("Sergeant Major of the Alliance"),
            Ranks::StaffSergeant => String::from_str("Staff Sergeant"),
            Ranks::TechSergeant => String::from_str("Tech Sergeant"),
            Ranks::Veteran => String::from_str("Veteran"),
            Ranks::Corporal => String::from_str("Corporal"),
            Ranks::LanceCorporal => String::from_str("Lance Corporal"),
            Ranks::Sentinel => String::from_str("Sentinel"),
            Ranks::Fleetman => String::from_str("Fleetman"),
            Ranks::Specialist => String::from_str("Specialist"),
            Ranks::Operative => String::from_str("Operative"),
            Ranks::Trooper => String::from_str("Trooper"),
            Ranks::Enlisted => String::from_str("Enlisted"),
        }
    }

    /// The rank one step up the ladder; `None` at the top and off the ladder.
    pub fn get_next(&self) -> (r: Option<Ranks>)
        ensures
            r == next_rank(*self),
    {
        match self {
            Ranks::Chairman => None,
            Ranks::Marshal => Some(Ranks::Chairman),
            Ranks::Colonel => Some(Ranks::Marshal),
            Ranks::Captain => Some(Ranks::Colonel),
            Ranks::Lieutenant => Some(Ranks::Captain),
            Ranks::Ensign => Some(Ranks::Lieutenant),
            Ranks::SergeantMajorOfTheAlliance => Some(Ranks::Ensign),
            Ranks::StaffSergeant => Some(Ranks::SergeantMajorOfTheAlliance),
            Ranks::TechSergeant => Some(Ranks::StaffSergeant),
            Ranks::Veteran => None,
            Ranks::Corporal => Some(Ranks::TechSergeant),
            Ranks::LanceCorporal => Some(Ranks::Corporal),
            Ranks::Sentinel => Some(Ranks::LanceCorporal),
            Ranks::Fleetman => Some(Ranks::Sentinel),
            Ranks::Specialist => Some(Ranks::Fleetman),
            Ranks::Operative => Some(Ranks::Specialist),
            Ranks::Trooper => Some(Ranks::Operative),
            Ranks::Enlisted => Some(Ranks::Trooper),
        }
    }

    /// The rank one step down the ladder; `None` at the bottom and off the ladder.
    pub fn get_prev(&self) -> (r: Option<Ranks>)
        ensures
            r == prev_rank(*self),
    {
        match self {
            Ranks::Chairman => Some(Ranks::Marshal),
            Ranks::Marshal => Some(Ranks::Colonel),
            Ranks::Colonel => Some(Ranks::Captain),
            Ranks::Captain => Some(Ranks::Lieutenant),
            Ranks::Lieutenant => Some(Ranks::Ensign),
            Ranks::Ensign => Some(Ranks::SergeantMajorOfTheAlliance),
            Ranks::SergeantMajorOfTheAlliance => Some(Ranks::StaffSergeant),
            Ranks::StaffSergeant => Some(Ranks::TechSergeant),
            Ranks::TechSergeant => Some(Ranks::Corporal),
            Ranks::Veteran => None,
            Ranks::Corporal => Some(Ranks::LanceCorporal),
            Ranks::LanceCorporal => Some(Ranks::Sentinel),
            Ranks::Sentinel => Some(Ranks::Fleetman),
            Ranks::Fleetman => Some(Ranks::Specialist),
            Ranks::Specialist => Some(Ranks::Operative),
            Ranks::Operative => Some(Ranks::Trooper),
            Ranks::Trooper => Some(Ranks::Enlisted),
            Ranks::Enlisted => None,
        }
    }
}

/// Ranks of the special-tasks division.
#[derive(Clone, Copy, Debug, PartialEq, Eq, Structural, Hash)]
pub enum STRanks {
    Chairman,
    Marshal,
    ChiefOfStaff,
    ChiefAdvisor,
    OpsChief,
    Infiltrator,
    Operative,
    Trooper,
    Veteran,
}

/// The special-tasks rank whose numeric value is `v`, if any.
pub open spec fn st_rank_of_value(v: u64) -> Option<STRanks> {
    if v == 255 {
        Some(STRanks::Chairman)
    } else if v == 245 {
        Some(STRanks::Marshal)
    } else if v == 235 {
        Some(STRanks::ChiefOfStaff)
    } else if v == 225 {
        Some(STRanks::ChiefAdvisor)
    } else if v == 220 {
        Some(STRanks::OpsChief)
    } else if v == 135 {
        Some(STRanks::Infiltrator)
    } else if v == 100 {
        Some(STRanks::Operative)
    } else if v == 97 {
        Some(STRanks::Trooper)
    } else if v == 96 {
        Some(STRanks::Veteran)
    } else {
        None
    }
}

/// The display name of each special-tasks rank.
pub open spec fn st_rank_name(r: STRanks) -> Seq<char> {
    match r {
        STRanks::Chairman => "Chairman"@,
        STRanks::Marshal => "Marshal"@,
        STRanks::ChiefOfStaff => "Chief of Staff"@,
        STRanks::ChiefAdvisor => "Chief Advisor"@,
        STRanks::OpsChief => "Ops Chief"@,
        STRanks::Infiltrator => "Infiltrator"@,
        STRanks::Operative => "Operative"@,
        STRanks::Trooper => "Trooper"@,
        STRanks::Veteran => "Veteran"@,
    }
}

impl Default for STRanks {
    fn default() -> (r: Self)
        ensures
            r == STRanks::Trooper,
    {
        STRanks::Trooper
    }
}

impl STRanks {
    pub fn from_value(value: u64) -> (r: Option<Self>)
        ensures
            r == st_rank_of_value(value),
    {
        match value {
            255 => Some(STRanks::Chairman),
            245 => Some(STRanks::Marshal),
            235 => Some(STRanks::ChiefOfStaff),
            225 => Some(STRanks::ChiefAdvisor),
            220 => Some(STRanks::OpsChief),
            135 => Some(STRanks::Infiltrator),
            100 => Some(STRanks::Operative),
            97 => Some(STRanks::Trooper),
            96 => Some(STRanks::Veteran),
            _ => None,
        }
    }

    /// The display name of the rank.
    pub fn to_string(&self) -> (r: String)
        ensures
            r@ == st_rank_name(*self),
    {
        match self {
            STRanks::Chairman => String::from_str("Chairman"),
            STRanks::Marshal => String::from_str("Marshal"),
            STRanks::ChiefOfStaff => String::from_str("Chief of Staff"),
            STRanks::ChiefAdvisor => String::from_str("Chief Advisor"),
            STRanks::OpsChief => String::from_str("Ops Chief"),
            STRanks::Infiltrator => String::from_str("Infiltrator"),
            STRanks::Operative => String::from_str("Operative"),
            STRanks::Trooper => String::from_str("Trooper"),
            STRanks::Veteran => String::from_str("Veteran"),
        }
    }
}

/// Ranks of the Sable division.
#[derive(Clone, Copy, Debug, PartialEq, Eq, Structural, Hash)]
pub enum SableRanks {
    Chairman,
    Marshal,
    Executive,
    Consultant,
    Contractor,
}

/// The Sable rank whose numeric value is `v`, if any.
pub open spec fn sable_rank_of_value(v: u64) -> Option<SableRanks> {
    if v == 255 {
        Some(SableRanks::Chairman)
    } else if v == 254 {
        Some(SableRanks::Marshal)
    } else if v == 250 {
        Some(SableRanks::Executive)
    } else if v == 200 {
        Some(SableRanks::Consultant)
    } else if v == 100 {
        Some(SableRanks::Contractor)
    } else {
        None
    }
}

/// The display name of each Sable rank.
pub open spec fn sable_rank_name(r: SableRanks) -> Seq<char> {
    match r {
        SableRanks::Chairman => "Chairman"@,
        SableRanks::Marshal => "Marshal"@,
        SableRanks::Executive => "Executive"@,
        SableRanks::Consultant => "Consultant"@,
        SableRanks::Contractor => "Contractor"@,
    }
}

impl Default for SableRanks {
    fn default() -> (r: Self)
        ensures
            r == SableRanks::Contractor,
    {
        SableRanks::Contractor
    }
}

impl SableRanks {
    pub fn from_value(value: u64) -> (r: Option<Self>)
        ensures
            r == sable_rank_of_value(value),
    {
        match value {
            255 => Some(SableRanks::Chairman),
            254 => Some(SableRanks::Marshal),
            250 => Some(SableRanks::Executive),
            200 => Some(SableRanks::Consultant),
            100 => Some(SableRanks::Contractor),
            _ => None,
        }
    }

    /// The display name of the rank.
    pub fn to_string(&self) -> (r: String)
        ensures
            r@ == sable_rank_name(*self),
    {
        match self {
            SableRanks::Chairman => String::from_str("Chairman"),
            SableRanks::Marshal => String::from_str("Marshal"),
            SableRanks::Executive => String::from_str("Executive"),
            SableRanks::Consultant => String::from_str("Consultant"),
            SableRanks::Contractor => String::from_str("Contractor"),
        }
    }
}

/// Moving up the ladder and moving down are inverse to each other, and each
/// step changes the ladder position by exactly one.
pub proof fn lemma_ladder_adjacency(r: Ranks, s: Ranks)
    ensures
        next_rank(r) == Some(s) <==> prev_rank(s) == Some(r),
        next_rank(r) == Some(s) ==> ladder_position(r) is Some && ladder_position(s) is Some
            && ladder_position(s)->0 == ladder_position(r)->0 + 1,
        prev_rank(r) == Some(s) ==> ladder_position(r) is Some && ladder_position(s) is Some
            && ladder_position(s)->0 == ladder_position(r)->0 - 1,
{
}

/// Only the top of the ladder and ranks off it have no next rank; only the
/// bottom and ranks off it have no previous rank.
pub proof fn lemma_ladder_ends(r: Ranks)
    ensures
        next_rank(r) is None <==> (r == Ranks::Chairman || r == Ranks::Veteran),
        prev_rank(r) is None <==> (r == Ranks::Enlisted || r == Ranks::Veteran),
{
}

/// A rank's numeric value identifies it.
pub proof fn lemma_value_round_trip(r: Ranks)
    ensures
        rank_of_value(rank_value(r) as u64) == Some(r),
{
}

/// A rank's display name identifies it.
pub proof fn lemma_name_round_trip(r: Ranks)
    ensures
        rank_of_name(rank_name(r)) == Some(r),
{
    reveal_strlit("Chairman");
    reveal_strlit("Marshal");
    reveal_strlit("Colonel");
    reveal_strlit("Captain");
    reveal_strlit("Lieutenant");
    reveal_strlit("Ensign");
    reveal_strlit("Sergeant Major of the Alliance");
    reveal_strlit("Staff Sergeant");
    reveal_strlit("Tech Sergeant");
    reveal_strlit("Veteran");
    reveal_strlit("Corporal");
    reveal_strlit("Lance Corporal");
    reveal_strlit("Sentinel");
    reveal_strlit("Fleetman");
    reveal_strlit("Specialist");
    reveal_strlit("Operative");
    reveal_strlit("Trooper");
    reveal_strlit("Enlisted");
    match r {
        Ranks::Chairman => {},
        Ranks::Marshal => {
            assert(rank_name(r).len() != "Chairman"@.len());
        },
        Ranks::Colonel => {
            assert(rank_name(r).len() != "Chairman"@.len());
            assert(rank_name(r)[0] != "Marshal"@[0]);
        },
        Ranks::Captain => {
            assert(rank_name(r).len() != "Chairman"@.len());
            assert(rank_name(r)[0] != "Marshal"@[0]);
            assert(rank_name(r)[1] != "Colonel"@[1]);
        },
        Ranks::Lieutenant => {
            assert(rank_name(r).len() != "Chairman"@.len());
            assert(rank_name(r).len() != "Marshal"@.len());
            assert(rank_name(r).len() != "Colonel"@.len());
            assert(rank_name(r).len() != "Captain"@.len());
        },
        Ranks::Ensign => {
            assert(rank_name(r).len() != "Chairman"@.len());
            assert(rank_name(r).len() != "Marshal"@.len());
            assert(rank_name(r).len() != "Colonel"@.len());
            assert(rank_name(r).len() != "Captain"@.len());
            assert(rank_name(r).len() != "Lieutenant"@.len());
        },
        Ranks::SergeantMajorOfTheAlliance => {
            assert(rank_name(r).len() != "Chairman"@.len());
            assert(rank_name(r).len() != "Marshal"@.len());
            assert(rank_name(r).len() != "Colonel"@.len());
            assert(rank_name(r).len() != "Captain"@.len());
            assert(rank_name(r).len() != "Lieutenant"@.len());
            assert(rank_name(r).len() != "Ensign"@.len());
        },
        Ranks::StaffSergeant => {
            assert(rank_name(r).len() != "Chairman"@.len());
            assert(rank_name(r).len() != "Marshal"@.len());
            assert(rank_name(r).len() != "Colonel"@.len());
            assert(rank_name(r).len() != "Captain"@.len());
            assert(rank_name(r).len() != "Lieutenant"@.len());
            assert(rank_name(r).len() != "Ensign"@.len());
            assert(rank_name(r).len() != "Sergeant Major of the Alliance"@.len());
        },
        Ranks::TechSergeant => {
            assert(rank_name(r).len() != "Chairman"@.len());
            assert(rank_name(r).len() != "Marshal"@.len());
            assert(rank_name(r).len() != "Colonel"@.len());
            assert(rank_name(r).len() != "Captain"@.len());
            assert(rank_name(r).len() != "Lieutenant"@.len());
            assert(rank_name(r).len() != "Ensign"@.len());
            assert(rank_name(r).len() != "Sergeant Major of the Alliance"@.len());
            assert(rank_name(r).len() != "Staff Sergeant"@.len());
        },
        Ranks::Veteran => {
            assert(rank_name(r).len() != "Chairman"@.len());
            assert(rank_name(r)[0] != "Marshal"@[0]);
            assert(rank_name(r)[0] != "Colonel"@[0]);
            assert(rank_name(r)[0] != "Captain"@[0]);
            assert(rank_name(r).len() != "Lieutenant"@.len());
            assert(rank_name(r).len() != "Ensign"@.len());
            assert(rank_name(r).len() != "Sergeant Major of the Alliance"@.len());
            assert(rank_name(r).len() != "Staff Sergeant"@.len());
            assert(rank_name(r).len() != "Tech Sergeant"@.len());
        },
        Ranks::Corporal => {
            assert(rank_name(r)[1] != "Chairman"@[1]);
            assert(rank_name(r).len() != "Marshal"@.len());
            assert(rank_name(r).len() != "Colonel"@.len());
            assert(rank_name(r).len() != "Captain"@.len());
            assert(rank_name(r).len() != "Lieutenant"@.len());
            assert(rank_name(r).len() != "Ensign"@.len());
            assert(rank_name(r).len() != "Sergeant Major of the Alliance"@.len());
            assert(rank_name(r).len() != "Staff Sergeant"@.len());
            assert(rank_name(r).len() != "Tech Sergeant"@.len());
            assert(rank_name(r).len() != "Veteran"@.len());
        },
        Ranks::LanceCorporal => {
            assert(rank_name(r).len() != "Chairman"@.len());
            assert(rank_name(r).len() != "Marshal"@.len());
            assert(rank_name(r).len() != "Colonel"@.len());
            assert(rank_name(r).len() != "Captain"@.len());
            assert(rank_name(r).len() != "Lieutenant"@.len());
            assert(rank_name(r).len() != "Ensign"@.len());
            assert(rank_name(r).len() != "Sergeant Major of the Alliance"@.len());
            assert(rank_name(r)[0] != "Staff Sergeant"@[0]);
            assert(rank_name(r).len() != "Tech Sergeant"@.len());
            assert(rank_name(r).len() != "Veteran"@.len());
            assert(rank_name(r).len() != "Corporal"@.len());
        },
        Ranks::Sentinel => {
            assert(rank_name(r)[0] != "Chairman"@[0]);
            assert(rank_name(r).len() != "Marshal"@.len());
            assert(rank_name(r).len() != "Colonel"@.len());
            assert(rank_name(r).len() != "Captain"@.len());
            assert(rank_name(r).len() != "Lieutenant"@.len());
            assert(rank_name(r).len() != "Ensign"@.len());
            assert(rank_name(r).len() != "Sergeant Major of the Alliance"@.len());
            assert(rank_name(r).len() != "Staff Sergeant"@.len());
            assert(rank_name(r).len() != "Tech Sergeant"@.len());
            assert(rank_name(r).len() != "Veteran"@.len());
            assert(rank_name(r)[0] != "Corporal"@[0]);
            assert(rank_name(r).len() != "Lance Corporal"@.len());
        },
        Ranks::Fleetman => {
            assert(rank_name(r)[0] != "Chairman"@[0]);
            assert(rank_name(r).len() != "Marshal"@.len());
            assert(rank_name(r).len() != "Colonel"@.len());
            assert(rank_name(r).len() != "Captain"@.len());
            assert(rank_name(r).len() != "Lieutenant"@.len());
            assert(rank_name(r).len() != "Ensign"@.len());
            assert(rank_name(r).len() != "Sergeant Major of the Alliance"@.len());
            assert(rank_name(r).len() != "Staff Sergeant"@.len());
            assert(rank_name(r).len() != "Tech Sergeant"@.len());
            assert(rank_name(r).len() != "Veteran"@.len());
            assert(rank_name(r)[0] != "Corporal"@[0]);
            assert(rank_name(r).len() != "Lance Corporal"@.len());
            assert(rank_name(r)[0] != "Sentinel"@[0]);
        },
        Ranks::Specialist => {
            assert(rank_name(r).len() != "Chairman"@.len());
            assert(rank_name(r).len() != "Marshal"@.len());
            assert(rank_name(r).len() != "Colonel"@.len());
            assert(rank_name(r).len() != "Captain"@.len());
            assert(rank_name(r)[0] != "Lieutenant"@[0]);
            assert(rank_name(r).len() != "Ensign"@.len());
            assert(rank_name(r).len() != "Sergeant Major of the Alliance"@.len());
            assert(rank_name(r).len() != "Staff Sergeant"@.len());
            assert(rank_name(r).len() != "Tech Sergeant"@.len());
            assert(rank_name(r).len() != "Veteran"@.len());
            assert(rank_name(r).len() != "Corporal"@.len());
            assert(rank_name(r).len() != "Lance Corporal"@.len());
            assert(rank_name(r).len() != "Sentinel"@.len());
            assert(rank_name(r).len() != "Fleetman"@.len());
        },
        Ranks::Operative => {
            assert(rank_name(r).len() != "Chairman"@.len());
            assert(rank_name(r).len() != "Marshal"@.len());
            assert(rank_name(r).len() != "Colonel"@.len());
            assert(rank_name(r).len() != "Captain"@.len());
            assert(rank_name(r).len() != "Lieutenant"@.len());
            assert(rank_name(r).len() != "Ensign"@.len());
            assert(rank_name(r).len() != "Sergeant Major of the Alliance"@.len());
            assert(rank_name(r).len() != "Staff Sergeant"@.len());
            assert(rank_name(r).len() != "Tech Sergeant"@.len());
            assert(rank_name(r).len() != "Veteran"@.len());
            assert(rank_name(r).len() != "Corporal"@.len());
            assert(rank_name(r).len() != "Lance Corporal"@.len());
            assert(rank_name(r).len() != "Sentinel"@.len());
            assert(rank_name(r).len() != "Fleetman"@.len());
            assert(rank_name(r).len() != "Specialist"@.len());
        },
        Ranks::Trooper => {
            assert(rank_name(r).len() != "Chairman"@.len());
            assert(rank_name(r)[0] != "Marshal"@[0]);
            assert(rank_name(r)[0] != "Colonel"@[0]);
            assert(rank_name(r)[0] != "Captain"@[0]);
            assert(rank_name(r).len() != "Lieutenant"@.len());
            assert(rank_name(r).len() != "Ensign"@.len());
            assert(rank_name(r).len() != "Sergeant Major of the Alliance"@.len());
            assert(rank_name(r).len() != "Staff Sergeant"@.len());
            assert(rank_name(r).len() != "Tech Sergeant"@.len());
            assert(rank_name(r)[0] != "Veteran"@[0]);
            assert(rank_name(r).len() != "Corporal"@.len());
            assert(rank_name(r).len() != "Lance Corporal"@.len());
            assert(rank_name(r).len() != "Sentinel"@.len());
            assert(rank_name(r).len() != "Fleetman"@.len());
            assert(rank_name(r).len() != "Specialist"@.len());
            assert(rank_name(r).len() != "Operative"@.len());
        },
        Ranks::Enlisted => {
            assert(rank_name(r)[0] != "Chairman"@[0]);
            assert(rank_name(r).len() != "Marshal"@.len());
            assert(rank_name(r).len() != "Colonel"@.len());
            assert(rank_name(r).len() != "Captain"@.len());
            assert(rank_name(r).len() != "Lieutenant"@.len());
            assert(rank_name(r).len() != "Ensign"@.len());
            assert(rank_name(r).len() != "Sergeant Major of the Alliance"@.len());
            assert(rank_name(r).len() != "Staff Sergeant"@.len());
            assert(rank_name(r).len() != "Tech Sergeant"@.len());
            assert(rank_name(r).len() != "Veteran"@.len());
            assert(rank_name(r)[0] != "Corporal"@[0]);
            assert(rank_name(r).len() != "Lance Corporal"@.len());
            assert(rank_name(r)[0] != "Sentinel"@[0]);
            assert(rank_name(r)[0] != "Fleetman"@[0]);
            assert(rank_name(r).len() != "Specialist"@.len());
            assert(rank_name(r).len() != "Operative"@.len());
            assert(rank_name(r).len() != "Trooper"@.len());
        },
    }
}

} // verus!
