//! A small creature-rearing library: individual creature records with a
//! level/experience progression rule, pairwise breeding, and an ordered
//! collection supporting bulk training and a stable sort by level.

use vstd::prelude::*;

pub mod pokemon;
pub mod reproduction;
pub mod tri;

use crate::pokemon::{Pokemon, entraine, compatibles};
use crate::reproduction::{tenter_reproduction, est_progeniture};
use crate::tri::{tri_par_niveau, position_insertion, lemma_insere_caracterisation,
    lemma_tri_prefixe_suivant};

verus! {

/// The ordered collection of creature records. Insertion order is kept
/// except when `trier_par_niveau` is called explicitly; duplicates are
/// allowed and indices are positional.
pub struct Elevage {
    pub pokemons: Vec<Pokemon>,
}

impl Elevage {
    /// Creates an empty collection.
    pub fn new() -> (r: Elevage)
        ensures
            r.pokemons@ == Seq::<Pokemon>::empty(),
    {
        Elevage { pokemons: Vec::new() }
    }

    /// Appends a creature at the end of the collection.
    pub fn ajouter(&mut self, pokemon: Pokemon)
        ensures
            final(self).pokemons@ == old(self).pokemons@.push(pokemon),
    {
        self.pokemons.push(pokemon);
    }

    /// Grants `xp` experience points to every creature, in sequence order.
    /// Each record is updated independently by the progression rule.
    pub fn entrainer(&mut self, xp: u32)
        requires
            forall|i: int| 0 <= i < old(self).pokemons@.len() ==> (
                old(self).pokemons@[i].xp + xp <= u32::MAX
                && old(self).pokemons@[i].niveau + (old(self).pokemons@[i].xp + xp) / 100
                    <= u32::MAX
            ),
        ensures
            final(self).pokemons@.len() == old(self).pokemons@.len(),
            forall|i: int| 0 <= i < old(self).pokemons@.len() ==>
                final(self).pokemons@[i] == entraine(old(self).pokemons@[i], xp),
    {
        let n = self.pokemons.len();
        let mut i: usize = 0;
        while i < n
            invariant
                i <= n,
                n == self.pokemons@.len(),
                n == old(self).pokemons@.len(),
                forall|j: int| 0 <= j < old(self).pokemons@.len() ==> (
                    old(self).pokemons@[j].xp + xp <= u32::MAX
                    && old(self).pokemons@[j].niveau + (old(self).pokemons@[j].xp + xp) / 100
                        <= u32::MAX
                ),
                forall|j: int| 0 <= j < i ==>
                    self.pokemons@[j] == entraine(old(self).pokemons@[j], xp),
                forall|j: int| i <= j < n ==> self.pokemons@[j] == old(self).pokemons@[j],
            decreases n - i,
        {
            let pokemon = &mut self.pokemons[i];
            pokemon.gagner_xp(xp);
            i = i + 1;
        }
    }

    /// Attempts to breed the creatures at positions `indice1` and `indice2`.
    /// Out-of-range indices leave the collection exactly as it was; so does
    /// an incompatible pair. A successful attempt appends the offspring at
    /// the end, leaving the existing records in place.
    pub fn tenter_reproduction_par_indices(&mut self, indice1: usize, indice2: usize)
        ensures
            (indice1 >= old(self).pokemons@.len() || indice2 >= old(self).pokemons@.len())
                ==> final(self).pokemons@ == old(self).pokemons@,
            (indice1 < old(self).pokemons@.len() && indice2 < old(self).pokemons@.len()
                && !compatibles(
                    old(self).pokemons@[indice1 as int],
                    old(self).pokemons@[indice2 as int],
                )) ==> final(self).pokemons@ == old(self).pokemons@,
            (indice1 < old(self).pokemons@.len() && indice2 < old(self).pokemons@.len()
                && compatibles(
                    old(self).pokemons@[indice1 as int],
                    old(self).pokemons@[indice2 as int],
                )) ==> (exists|b: Pokemon|
                    final(self).pokemons@ == old(self).pokemons@.push(b)
                    && est_progeniture(b, old(self).pokemons@[indice1 as int])),
    {
        if indice1 >= self.pokemons.len() || indice2 >= self.pokemons.len() {
            return;
        }
        let resultat = tenter_reproduction(&self.pokemons[indice1], &self.pokemons[indice2]);
        if let Some(nouveau) = resultat {
            self.ajouter(nouveau);
        }
    }

    /// Stably reorders the creatures by ascending level: ties keep their
    /// relative input order. The result is the insertion sort of the old
    /// contents (see `tri` for the sorting laws this entails).
    pub fn trier_par_niveau(&mut self)
        ensures
            final(self).pokemons@ == tri_par_niveau(old(self).pokemons@),
    {
        let n = self.pokemons.len();
        let mut resultat: Vec<Pokemon> = Vec::new();
        let mut i: usize = 0;
        while i < n
            invariant
                i <= n,
                n == self.pokemons@.len(),
                self.pokemons@ == old(self).pokemons@,
                resultat@ == tri_par_niveau(self.pokemons@.take(i as int)),
            decreases n - i,
        {
            let p = self.pokemons[i].duplique();
            let mut k: usize = 0;
            while k < resultat.len() && resultat[k].niveau <= p.niveau
                invariant
                    k <= resultat@.len(),
                    forall|j: int| 0 <= j < k ==> resultat@[j].niveau <= p.niveau,
                decreases resultat@.len() - k,
            {
                k = k + 1;
            }
            proof {
                lemma_insere_caracterisation(resultat@, p);
                let kp = position_insertion(resultat@, p);
                assert(k == kp) by {
                    if k < kp {
                        assert(resultat@[k as int].niveau <= p.niveau);
                    }
                    if kp < k {
                        assert(resultat@[kp].niveau <= p.niveau);
                        assert(resultat@[kp].niveau > p.niveau);
                    }
                }
                assert(resultat@.insert(k as int, p)
                    =~= resultat@.take(k as int) + seq![p] + resultat@.skip(k as int));
                lemma_tri_prefixe_suivant(self.pokemons@, i as int);
            }
            resultat.insert(k, p);
            i = i + 1;
        }
        proof {
            assert(self.pokemons@.take(n as int) =~= self.pokemons@);
        }
        self.pokemons = resultat;
    }
}

} // verus!
