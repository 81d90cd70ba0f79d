//! The individual creature record: its classification attributes, the
//! experience/level progression rule, and the breeding-compatibility check.

use vstd::prelude::*;
use vstd::string::StringExecFns;

verus! {

/// Elemental affinity of a creature. Closed enumeration, equality-comparable.
#[derive(Debug, Clone, Copy, PartialEq, Eq, Structural)]
pub enum PokemonType {
    Feu,
    Eau,
    Plante,
    Electrik,
}

/// Sex of a creature. Closed enumeration, equality-comparable.
#[derive(Debug, Clone, Copy, PartialEq, Eq, Structural)]
pub enum Genre {
    Male,
    Femelle,
}

/// A single creature record. `p_type` and `genre` are fixed at creation;
/// `niveau` and `xp` evolve through `gagner_xp` alone.
#[derive(Debug)]
pub struct Pokemon {
    pub nom: String,
    pub niveau: u32,
    pub xp: u32,
    pub p_type: PokemonType,
    pub genre: Genre,
}

impl Pokemon {
    /// Creates a new creature at level 1 with no experience.
    pub fn new(nom: &str, p_type: PokemonType, genre: Genre) -> (r: Pokemon)
        ensures
            r.nom@ == nom@,
            r.niveau == 1,
            r.xp == 0,
            r.p_type == p_type,
            r.genre == genre,
    {
        Pokemon { nom: String::from_str(nom), niveau: 1, xp: 0, p_type, genre }
    }

    /// An exact copy of the record.
    pub fn duplique(&self) -> (r: Pokemon)
        ensures
            r == *self,
    {
        Pokemon {
            nom: self.nom.clone(),
            niveau: self.niveau,
            xp: self.xp,
            p_type: self.p_type,
            genre: self.genre,
        }
    }

    /// Grants `xp_gagne` experience points. Every full 100 points banked is
    /// converted into one additional level, so afterwards `xp < 100`.
    pub fn gagner_xp(&mut self, xp_gagne: u32)
        requires
            old(self).xp + xp_gagne <= u32::MAX,
            old(self).niveau + (old(self).xp + xp_gagne) / 100 <= u32::MAX,
        ensures
            *final(self) == entraine(*old(self), xp_gagne),
            final(self).niveau == old(self).niveau + (old(self).xp + xp_gagne) / 100,
            final(self).xp == (old(self).xp + xp_gagne) % 100,
            final(self).xp < 100,
    {
        self.xp = self.xp + xp_gagne;
        while self.xp >= 100
            invariant
                old(self).niveau <= self.niveau,
                self.niveau + self.xp / 100 <= u32::MAX,
                self.xp == old(self).xp + xp_gagne - 100 * (self.niveau - old(self).niveau),
                self.nom == old(self).nom,
                self.p_type == old(self).p_type,
                self.genre == old(self).genre,
            decreases self.xp,
        {
            proof {
                vstd::arithmetic::div_mod::lemma_fundamental_div_mod(self.xp as int, 100);
            }
            self.xp = self.xp - 100;
            self.niveau = self.niveau + 1;
        }
        proof {
            let total = old(self).xp + xp_gagne;
            vstd::arithmetic::div_mod::lemma_fundamental_div_mod(total, 100);
        }
    }

    /// Breeding-compatibility check: same type, both at least level 5, and
    /// opposite sexes.
    pub fn peut_se_reproduire_avec(&self, autre: &Pokemon) -> (r: bool)
        ensures
            r == compatibles(*self, *autre),
    {
        let niveau_minimum: u32 = 5;
        if self.p_type != autre.p_type {
            return false;
        }
        if self.niveau < niveau_minimum || autre.niveau < niveau_minimum {
            return false;
        }
        if self.genre == autre.genre {
            return false;
        }
        true
    }
}

/// What `gagner_xp` leaves behind: banked hundreds of points become levels,
/// the remainder stays as experience.
pub open spec fn entraine(p: Pokemon, xp_gagne: u32) -> Pokemon {
    Pokemon {
        nom: p.nom,
        niveau: ((p.niveau + (p.xp + xp_gagne) / 100) as u32),
        xp: (((p.xp + xp_gagne) % 100) as u32),
        p_type: p.p_type,
        genre: p.genre,
    }
}

/// Maps a numeric menu selector to a type. Unrecognized selectors fall back
/// to the documented default, `Feu`.
pub fn type_depuis_choix(choix: u32) -> (r: PokemonType)
    ensures
        r == (match choix {
            1 => PokemonType::Feu,
            2 => PokemonType::Eau,
            3 => PokemonType::Plante,
            4 => PokemonType::Electrik,
            _ => PokemonType::Feu,
        }),
{
    match choix {
        1 => PokemonType::Feu,
        2 => PokemonType::Eau,
        3 => PokemonType::Plante,
        4 => PokemonType::Electrik,
        _ => PokemonType::Feu,
    }
}

/// Maps a numeric menu selector to a sex. Unrecognized selectors fall back
/// to the documented default, `Male`.
pub fn genre_depuis_choix(choix: u32) -> (r: Genre)
    ensures
        r == (match choix {
            1 => Genre::Male,
            2 => Genre::Femelle,
            _ => Genre::Male,
        }),
{
    match choix {
        1 => Genre::Male,
        2 => Genre::Femelle,
        _ => Genre::Male,
    }
}

/// Two creatures may breed iff they share a type, both have reached level 5,
/// and their sexes differ.
pub open spec fn compatibles(a: Pokemon, b: Pokemon) -> bool {
    &&& a.p_type == b.p_type
    &&& a.niveau >= 5
    &&& b.niveau >= 5
    &&& a.genre != b.genre
}

/// Breeding compatibility is symmetric: each of its conditions is unchanged
/// when the two creatures are swapped.
pub proof fn lemma_compatibles_symetrique(a: Pokemon, b: Pokemon)
    ensures
        compatibles(a, b) == compatibles(b, a),
{
}

/// No creature is breeding-compatible with itself: its sex equals its own.
pub proof fn lemma_jamais_compatible_avec_soi(p: Pokemon)
    ensures
        !compatibles(p, p),
{
}

} // verus!
