use ram_agent::agent::Agent;
use ram_agent::appariement::{inserer_offre, trier_decroissant, trier_offres};

fn agent() -> Agent {
    Agent::new("10.0.0.1".to_string(), 7878, vec![])
}

fn offres(v: &[(&str, u64)]) -> Vec<(String, u64)> {
    v.iter().map(|(ip, mb)| (ip.to_string(), *mb)).collect()
}

#[test]
fn best_offer_is_the_largest_and_the_last_of_equals() {
    let a = agent();
    assert_eq!(a.choisir_offre(&vec![]), None);
    let o = offres(&[("a", 100), ("b", 300), ("c", 200)]);
    assert_eq!(a.choisir_offre(&o), Some(("b".to_string(), 300)));
    let egal = offres(&[("a", 300), ("b", 300), ("c", 200)]);
    assert_eq!(a.choisir_offre(&egal), Some(("b".to_string(), 300)));
}

#[test]
fn size_is_the_largest_that_fits() {
    let a = agent();
    let mem = ("10.0.0.2".to_string(), 1000);
    assert_eq!(a.choisir_taille(&mem, &[256, 1024, 512, 768]), Some(("10.0.0.2".to_string(), 768)));
    assert_eq!(a.choisir_taille(&mem, &[1000]), Some(("10.0.0.2".to_string(), 1000)));
    assert_eq!(a.choisir_taille(&mem, &[1024, 2048]), None);
    assert_eq!(a.choisir_taille(&mem, &[]), None);
}

#[test]
fn sorts_are_stable_and_decreasing() {
    let o = offres(&[("a", 100), ("b", 300), ("c", 100), ("d", 300)]);
    assert_eq!(trier_offres(&o), offres(&[("b", 300), ("d", 300), ("a", 100), ("c", 100)]));
    assert_eq!(trier_decroissant(&[3, 9, 1, 9, 0]), vec![9, 9, 3, 1, 0]);
    assert_eq!(trier_decroissant(&[]), Vec::<u64>::new());
}

#[test]
fn needs_are_matched_greedily_with_margins() {
    let a = agent();
    let o = offres(&[("a", 2000), ("b", 6000), ("c", 1200)]);
    // needs sorted: 5000 (capped 4096), 1000, 600, 100
    let paires = a.apparier_offres(&o, &[600, 5000, 100, 1000], 500, 5);
    assert_eq!(
        paires,
        offres(&[("b", 4101), ("a", 1005), ("c", 605)])
    );
}

#[test]
fn each_offer_serves_one_need_and_keeps_its_margin() {
    let a = agent();
    let o = offres(&[("a", 3000), ("b", 1000)]);
    let besoins = [800u64, 800, 800, 800];
    let paires = a.apparier_offres(&o, &besoins, 500, 5);
    assert!(paires.len() <= o.len());
    assert!(paires.len() <= besoins.len());
    for (ip, taille) in &paires {
        let dispo = o.iter().find(|(n, _)| n == ip).unwrap().1;
        assert!(dispo >= taille + 500);
        assert!(*taille <= 4096 + 5);
    }
    assert_eq!(paires, offres(&[("a", 805)]));
}

#[test]
fn no_offer_no_match() {
    let a = agent();
    assert!(a.apparier_offres(&vec![], &[100], 500, 5).is_empty());
    assert!(a.apparier_offres(&offres(&[("a", 604)]), &[100], 500, 5).is_empty());
    assert_eq!(a.apparier_offres(&offres(&[("a", 605)]), &[100], 500, 5), offres(&[("a", 105)]));
    assert!(a.apparier_offres(&offres(&[("a", 9000)]), &[], 500, 5).is_empty());
}

#[test]
fn looks_for_a_swap_only_when_saturated_and_none_in_use() {
    let a = agent();
    assert!(a.doit_chercher_swap(true, 0));
    assert!(!a.doit_chercher_swap(true, 1));
    assert!(!a.doit_chercher_swap(false, 0));
}

#[test]
fn offers_are_kept_once_per_node() {
    let mut o: Vec<(String, u64)> = Vec::new();
    inserer_offre(&mut o, "a", 100);
    inserer_offre(&mut o, "b", 200);
    inserer_offre(&mut o, "a", 300);
    assert_eq!(o, offres(&[("a", 300), ("b", 200)]));
}
