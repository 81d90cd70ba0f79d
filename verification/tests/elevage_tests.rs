use elevage::pokemon::{Pokemon, PokemonType, Genre, type_depuis_choix, genre_depuis_choix};
use elevage::reproduction::tenter_reproduction;
use elevage::Elevage;

fn pokemon(nom: &str, niveau: u32, p_type: PokemonType, genre: Genre) -> Pokemon {
    Pokemon { nom: String::from(nom), niveau, xp: 0, p_type, genre }
}

#[test]
fn nouveau_pokemon_part_au_niveau_1() {
    let p = Pokemon::new("Pikachu", PokemonType::Electrik, Genre::Male);
    assert_eq!(p.nom, "Pikachu");
    assert_eq!(p.niveau, 1);
    assert_eq!(p.xp, 0);
    assert_eq!(p.p_type, PokemonType::Electrik);
    assert_eq!(p.genre, Genre::Male);
}

#[test]
fn gagner_xp_250_donne_niveau_3_et_50_xp() {
    let mut p = Pokemon::new("Salameche", PokemonType::Feu, Genre::Male);
    p.gagner_xp(250);
    assert_eq!(p.niveau, 3);
    assert_eq!(p.xp, 50);
}

#[test]
fn gagner_xp_sans_palier_garde_le_niveau() {
    let mut p = Pokemon::new("Carapuce", PokemonType::Eau, Genre::Femelle);
    p.gagner_xp(99);
    assert_eq!(p.niveau, 1);
    assert_eq!(p.xp, 99);
    p.gagner_xp(1);
    assert_eq!(p.niveau, 2);
    assert_eq!(p.xp, 0);
}

#[test]
fn gagner_xp_laisse_experience_sous_100() {
    let mut p = pokemon("Bulbizarre", 2, PokemonType::Plante, Genre::Femelle);
    p.xp = 40;
    p.gagner_xp(360);
    assert_eq!(p.niveau, 6);
    assert_eq!(p.xp, 0);
    assert!(p.xp < 100);
    p.gagner_xp(123);
    assert_eq!(p.niveau, 7);
    assert_eq!(p.xp, 23);
    assert!(p.xp < 100);
}

#[test]
fn compatibilite_symetrique() {
    let a = pokemon("A", 5, PokemonType::Feu, Genre::Male);
    let b = pokemon("B", 5, PokemonType::Feu, Genre::Femelle);
    let c = pokemon("C", 3, PokemonType::Feu, Genre::Femelle);
    let d = pokemon("D", 9, PokemonType::Eau, Genre::Femelle);
    assert_eq!(a.peut_se_reproduire_avec(&b), b.peut_se_reproduire_avec(&a));
    assert!(a.peut_se_reproduire_avec(&b));
    assert_eq!(a.peut_se_reproduire_avec(&c), c.peut_se_reproduire_avec(&a));
    assert!(!a.peut_se_reproduire_avec(&c));
    assert_eq!(a.peut_se_reproduire_avec(&d), d.peut_se_reproduire_avec(&a));
    assert!(!a.peut_se_reproduire_avec(&d));
}

#[test]
fn reproduction_avec_soi_meme_echoue() {
    let a = pokemon("A", 9, PokemonType::Plante, Genre::Male);
    assert!(!a.peut_se_reproduire_avec(&a));
    assert!(tenter_reproduction(&a, &a).is_none());
}

#[test]
fn reproduction_reussie_ajoute_mystere() {
    let mut elevage = Elevage::new();
    elevage.ajouter(pokemon("A", 5, PokemonType::Feu, Genre::Male));
    elevage.ajouter(pokemon("B", 5, PokemonType::Feu, Genre::Femelle));
    elevage.tenter_reproduction_par_indices(0, 1);
    assert_eq!(elevage.pokemons.len(), 3);
    let bebe = &elevage.pokemons[2];
    assert_eq!(bebe.nom, "Mystere");
    assert_eq!(bebe.niveau, 1);
    assert_eq!(bebe.xp, 0);
    assert_eq!(bebe.p_type, PokemonType::Feu);
    assert!(bebe.genre == Genre::Male || bebe.genre == Genre::Femelle);
}

#[test]
fn reproduction_niveau_insuffisant() {
    let mut elevage = Elevage::new();
    elevage.ajouter(pokemon("A", 3, PokemonType::Feu, Genre::Male));
    elevage.ajouter(pokemon("B", 5, PokemonType::Feu, Genre::Femelle));
    elevage.tenter_reproduction_par_indices(0, 1);
    assert_eq!(elevage.pokemons.len(), 2);
    assert_eq!(elevage.pokemons[0].nom, "A");
    assert_eq!(elevage.pokemons[1].nom, "B");
}

#[test]
fn indices_invalides_sans_effet() {
    let mut elevage = Elevage::new();
    elevage.ajouter(pokemon("A", 5, PokemonType::Feu, Genre::Male));
    elevage.ajouter(pokemon("B", 5, PokemonType::Feu, Genre::Femelle));
    elevage.tenter_reproduction_par_indices(0, 2);
    assert_eq!(elevage.pokemons.len(), 2);
    elevage.tenter_reproduction_par_indices(7, 1);
    assert_eq!(elevage.pokemons.len(), 2);
    assert_eq!(elevage.pokemons[0].nom, "A");
    assert_eq!(elevage.pokemons[0].niveau, 5);
    assert_eq!(elevage.pokemons[1].nom, "B");
    assert_eq!(elevage.pokemons[1].niveau, 5);
}

#[test]
fn tri_par_niveau_trie_et_stable() {
    let mut elevage = Elevage::new();
    elevage.ajouter(pokemon("X", 3, PokemonType::Feu, Genre::Male));
    elevage.ajouter(pokemon("Y", 1, PokemonType::Eau, Genre::Femelle));
    elevage.ajouter(pokemon("Z", 3, PokemonType::Plante, Genre::Femelle));
    elevage.ajouter(pokemon("W", 2, PokemonType::Electrik, Genre::Male));
    elevage.trier_par_niveau();
    let noms: Vec<&str> = elevage.pokemons.iter().map(|p| p.nom.as_str()).collect();
    // Sorted ascending by level; X and Z share level 3 and keep their order.
    assert_eq!(noms, vec!["Y", "W", "X", "Z"]);
    elevage.trier_par_niveau();
    let encore: Vec<&str> = elevage.pokemons.iter().map(|p| p.nom.as_str()).collect();
    assert_eq!(encore, vec!["Y", "W", "X", "Z"]);
}

#[test]
fn tri_elevage_vide() {
    let mut elevage = Elevage::new();
    elevage.trier_par_niveau();
    assert_eq!(elevage.pokemons.len(), 0);
}

#[test]
fn entrainer_fait_progresser_tout_le_monde() {
    let mut elevage = Elevage::new();
    elevage.ajouter(pokemon("A", 1, PokemonType::Feu, Genre::Male));
    elevage.ajouter(pokemon("B", 4, PokemonType::Eau, Genre::Femelle));
    elevage.entrainer(150);
    assert_eq!(elevage.pokemons[0].niveau, 2);
    assert_eq!(elevage.pokemons[0].xp, 50);
    assert_eq!(elevage.pokemons[1].niveau, 5);
    assert_eq!(elevage.pokemons[1].xp, 50);
}

#[test]
fn elevage_vide_et_ajout() {
    let mut elevage = Elevage::new();
    assert_eq!(elevage.pokemons.len(), 0);
    elevage.ajouter(Pokemon::new("Pikachu", PokemonType::Electrik, Genre::Male));
    assert_eq!(elevage.pokemons.len(), 1);
    assert_eq!(elevage.pokemons[0].nom, "Pikachu");
}

#[test]
fn duplique_copie_tous_les_champs() {
    let p = pokemon("A", 7, PokemonType::Eau, Genre::Femelle);
    let q = p.duplique();
    assert_eq!(q.nom, p.nom);
    assert_eq!(q.niveau, p.niveau);
    assert_eq!(q.xp, p.xp);
    assert_eq!(q.p_type, p.p_type);
    assert_eq!(q.genre, p.genre);
}

#[test]
fn type_depuis_choix_valeurs_et_defaut() {
    assert_eq!(type_depuis_choix(1), PokemonType::Feu);
    assert_eq!(type_depuis_choix(2), PokemonType::Eau);
    assert_eq!(type_depuis_choix(3), PokemonType::Plante);
    assert_eq!(type_depuis_choix(4), PokemonType::Electrik);
    assert_eq!(type_depuis_choix(0), PokemonType::Feu);
    assert_eq!(type_depuis_choix(9), PokemonType::Feu);
}

#[test]
fn genre_depuis_choix_valeurs_et_defaut() {
    assert_eq!(genre_depuis_choix(1), Genre::Male);
    assert_eq!(genre_depuis_choix(2), Genre::Femelle);
    assert_eq!(genre_depuis_choix(0), Genre::Male);
    assert_eq!(genre_depuis_choix(7), Genre::Male);
}
