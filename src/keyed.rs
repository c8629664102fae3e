use vstd::prelude::*;

verus! {

/// A record that carries a member id as its key.
pub trait Keyed {
    spec fn key(&self) -> u32;

    fn key_of(&self) -> (r: u32)
        ensures
            r == self.key(),
    ;
}

/// A sequence of records read as a map from each record's key to the
/// record; a later record for a key replaces an earlier one.
pub open spec fn keyed_map<T: Keyed>(s: Seq<T>) -> Map<u32, T>
    decreases s.len(),
{
    if s.len() == 0 {
        Map::empty()
    } else {
        keyed_map(s.drop_last()).insert(s.last().key(), s.last())
    }
}

} // verus!
