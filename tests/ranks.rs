use rank_keeper::ranks::{Ranks, STRanks, SableRanks};

const ALL: [Ranks; 18] = [
    Ranks::Chairman,
    Ranks::Marshal,
    Ranks::Colonel,
    Ranks::Captain,
    Ranks::Lieutenant,
    Ranks::Ensign,
    Ranks::SergeantMajorOfTheAlliance,
    Ranks::StaffSergeant,
    Ranks::TechSergeant,
    Ranks::Veteran,
    Ranks::Corporal,
    Ranks::LanceCorporal,
    Ranks::Sentinel,
    Ranks::Fleetman,
    Ranks::Specialist,
    Ranks::Operative,
    Ranks::Trooper,
    Ranks::Enlisted,
];

#[test]
fn from_value_reads_known_values() {
    assert_eq!(Ranks::from_value(255), Some(Ranks::Chairman));
    assert_eq!(Ranks::from_value(192), Some(Ranks::SergeantMajorOfTheAlliance));
    assert_eq!(Ranks::from_value(26), Some(Ranks::Veteran));
    assert_eq!(Ranks::from_value(7), Some(Ranks::Trooper));
    assert_eq!(Ranks::from_value(5), Some(Ranks::Enlisted));
    assert_eq!(Ranks::from_value(6), None);
    assert_eq!(Ranks::from_value(0), None);
    assert_eq!(Ranks::from_value(u64::MAX), None);
}

#[test]
fn value_round_trip_for_every_rank() {
    for r in ALL {
        assert_eq!(Ranks::from_value(r.to_value() as u64), Some(r));
    }
}

#[test]
fn role_ids_match_the_group() {
    assert_eq!(Ranks::Chairman.to_role_id(), 25617739);
    assert_eq!(Ranks::TechSergeant.to_role_id(), 80131913);
    assert_eq!(Ranks::Operative.to_role_id(), 26539897);
    assert_eq!(Ranks::Enlisted.to_role_id(), 25617741);
}

#[test]
fn next_and_prev_walk_the_ladder() {
    assert_eq!(Ranks::Enlisted.get_next(), Some(Ranks::Trooper));
    assert_eq!(Ranks::Trooper.get_next(), Some(Ranks::Operative));
    assert_eq!(Ranks::Corporal.get_next(), Some(Ranks::TechSergeant));
    assert_eq!(Ranks::TechSergeant.get_next(), Some(Ranks::StaffSergeant));
    assert_eq!(Ranks::Marshal.get_next(), Some(Ranks::Chairman));
    assert_eq!(Ranks::Chairman.get_next(), None);
    assert_eq!(Ranks::Veteran.get_next(), None);
    assert_eq!(Ranks::Enlisted.get_prev(), None);
    assert_eq!(Ranks::Veteran.get_prev(), None);
    assert_eq!(Ranks::TechSergeant.get_prev(), Some(Ranks::Corporal));
    assert_eq!(Ranks::Chairman.get_prev(), Some(Ranks::Marshal));
}

#[test]
fn next_and_prev_are_inverse() {
    for r in ALL {
        if let Some(n) = r.get_next() {
            assert_eq!(n.get_prev(), Some(r));
        }
        if let Some(p) = r.get_prev() {
            assert_eq!(p.get_next(), Some(r));
        }
    }
}

#[test]
fn names_round_trip() {
    for r in ALL {
        assert_eq!(Ranks::inverse_to_string(r.to_string()), Some(r));
    }
    assert_eq!(Ranks::SergeantMajorOfTheAlliance.to_string(), "Sergeant Major of the Alliance");
    assert_eq!(Ranks::inverse_to_string("Lance Corporal".to_string()), Some(Ranks::LanceCorporal));
    assert_eq!(Ranks::inverse_to_string("LanceCorporal".to_string()), None);
    assert_eq!(Ranks::inverse_to_string(String::new()), None);
}

#[test]
fn defaults_are_the_lowest_ranks() {
    assert_eq!(Ranks::default(), Ranks::Enlisted);
    assert_eq!(STRanks::default(), STRanks::Trooper);
    assert_eq!(SableRanks::default(), SableRanks::Contractor);
}

#[test]
fn division_ranks_from_value() {
    assert_eq!(STRanks::from_value(255), Some(STRanks::Chairman));
    assert_eq!(STRanks::from_value(235), Some(STRanks::ChiefOfStaff));
    assert_eq!(STRanks::from_value(96), Some(STRanks::Veteran));
    assert_eq!(STRanks::from_value(254), None);
    assert_eq!(SableRanks::from_value(254), Some(SableRanks::Marshal));
    assert_eq!(SableRanks::from_value(100), Some(SableRanks::Contractor));
    assert_eq!(SableRanks::from_value(99), None);
    assert_eq!(STRanks::OpsChief.to_string(), "Ops Chief");
    assert_eq!(SableRanks::Consultant.to_string(), "Consultant");
}
