//! Breeding: combining two compatible creatures into one new level-1
//! creature whose sex is drawn at random.

use vstd::prelude::*;
use vstd::string::StringExecFns;
use crate::pokemon::{Pokemon, Genre, compatibles};

verus! {

/// Relies on rand::random: draws one value from the standard distribution
/// (for `bool`, a fair coin flip). Nothing is promised of the value drawn.
pub assume_specification<T>[ rand::random::<T> ]() -> (r: T)
    where
        rand::distributions::Standard: rand::distributions::Distribution<T>,
;

/// The shape every offspring of `p1` has: the fixed name, level 1, no
/// experience, the type of `p1`, and one of the two sexes (which one is
/// decided by a coin flip at breeding time).
pub open spec fn est_progeniture(b: Pokemon, p1: Pokemon) -> bool {
    &&& b.nom@ == "Mystere"@
    &&& b.niveau == 1
    &&& b.xp == 0
    &&& b.p_type == p1.p_type
    &&& (b.genre == Genre::Male || b.genre == Genre::Femelle)
}

/// Attempts to breed `p1` with `p2`. Succeeds exactly when the two are
/// breeding-compatible; the offspring's sex is drawn uniformly at random.
pub fn tenter_reproduction(p1: &Pokemon, p2: &Pokemon) -> (r: Option<Pokemon>)
    ensures
        r is Some <==> compatibles(*p1, *p2),
        (r matches Some(b) ==> est_progeniture(b, *p1)),
{
    if p1.peut_se_reproduire_avec(p2) {
        let genre_nouveau = if rand::random::<bool>() {
            Genre::Male
        } else {
            Genre::Femelle
        };
        let nouveau_pokemon = Pokemon {
            nom: String::from_str("Mystere"),
            niveau: 1,
            xp: 0,
            p_type: p1.p_type,
            genre: genre_nouveau,
        };
        Some(nouveau_pokemon)
    } else {
        None
    }
}

} // verus!
