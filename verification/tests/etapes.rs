use ram_agent::agent::{Agent, Demandes};
use ram_agent::donneur::DonneurWatcher;
use ram_agent::listener::reponse_ram_saturee;
use ram_agent::message::RpcResponse;
use ram_agent::nbd::{plan_exposition, PasRecherche, RechercheDevice, SwapDistant, SwapExpose};
use ram_agent::commande::{Action, Evenement};
use ram_agent::json::Json;
use ram_agent::nbd::{EtapeExposition, Exposition};
use ram_agent::manager::{AjoutBloc, SwapManager};
use ram_agent::proxmox::{cible, noeud_a_lire, ram_libre_cluster};
use ram_agent::swap::{Activation, EtapeDesactivation, SwapBlock};

fn ok(s: &str) -> Evenement {
    Evenement::Reussite(s.to_string())
}

fn cmd(a: &Action) -> Option<(String, Vec<String>)> {
    match a {
        Action::Executer(c) | Action::Observer(c) => Some((c.programme.clone(), c.args.clone())),
        _ => None,
    }
}

fn prog(a: &Action) -> String {
    cmd(a).map(|c| c.0).unwrap_or_default()
}

#[test]
fn exposure_runs_its_steps_in_order_and_succeeds() {
    let mut x = Exposition::nouvelle("s1", 5000, 10811, "10.0.0.2");
    assert!(matches!(x.suite(ok("")), Action::CreerDossier(d) if d == "/mnt/swapram/s1"));
    assert_eq!(prog(&x.suite(ok(""))), "mount");
    assert_eq!(prog(&x.suite(ok(""))), "dd");
    assert_eq!(
        cmd(&x.suite(ok(""))),
        Some(("fuser".to_string(), vec!["-k".to_string(), "10811/tcp".to_string()]))
    );
    // whatever fuser gave
    assert!(matches!(x.suite(Evenement::Echec("rien".to_string())), Action::Attendre(1)));
    assert!(matches!(x.suite(ok("")), Action::CreerDossier(d) if d == "/etc/nbd-server"));
    assert!(matches!(x.suite(ok("")), Action::EcrireFichier(f, _) if f == "/etc/nbd-server/s1.conf"));
    assert_eq!(prog(&x.suite(ok(""))), "nbd-server");
    assert!(matches!(x.suite(ok("")), Action::Attendre(2)));
    assert_eq!(prog(&x.suite(ok(""))), "ss");
    assert!(matches!(x.suite(ok("LISTEN 0.0.0.0:10810\n")), Action::Attendre(2)));
    assert_eq!(prog(&x.suite(ok(""))), "ss");
    assert!(matches!(x.suite(ok("LISTEN 0.0.0.0:10811\n")), Action::Reussir));
    assert!(matches!(x.etape, EtapeExposition::Fini));
    let e = x.exposee();
    assert_eq!(e.port_nbd, 10811);
    assert_eq!(e.taille_mb, 4096);
    assert_eq!(e.chemin_fichier, "/mnt/swapram/s1/swapfile");
}

#[test]
fn exposure_stops_at_the_first_failure() {
    let mut x = Exposition::nouvelle("s1", 64, 10811, "10.0.0.2");
    x.suite(ok(""));
    match x.suite(Evenement::Echec("Permission denied".to_string())) {
        Action::Echouer(e) => assert_eq!(e, "mkdir échoué : Permission denied"),
        _ => panic!("not stopped"),
    }
    let mut y = Exposition::nouvelle("s1", 64, 10811, "10.0.0.2");
    y.suite(ok(""));
    y.suite(ok(""));
    match y.suite(Evenement::Impossible("No such file".to_string())) {
        Action::Echouer(e) => assert_eq!(e, "mount impossible : No such file"),
        _ => panic!("not stopped"),
    }
}

#[test]
fn exposure_gives_up_after_fifteen_looks_and_cleans() {
    let mut x = Exposition::nouvelle("s1", 64, 10811, "10.0.0.2");
    for _ in 0..8 {
        x.suite(ok(""));
    }
    let mut looks = 0;
    let mut a = x.suite(ok(""));
    loop {
        match a {
            Action::Attendre(2) => a = x.suite(ok("")),
            Action::Observer(_) => {
                looks += 1;
                a = x.suite(Evenement::Impossible("ss".to_string()));
            }
            _ => break,
        }
    }
    assert_eq!(looks, 15);
    assert_eq!(cmd(&a), Some(("umount".to_string(), vec!["/mnt/swapram/s1".to_string()])));
    assert!(matches!(x.suite(ok("")), Action::SupprimerDossier(d) if d == "/mnt/swapram/s1"));
    assert!(matches!(x.suite(ok("")), Action::SupprimerFichier(f) if f == "/etc/nbd-server/s1.conf"));
    match x.suite(ok("")) {
        Action::Echouer(e) => assert_eq!(e, "nbd-server n'a pas démarré sur le port 10811"),
        _ => panic!("no failure"),
    }
}

#[test]
fn activation_steps() {
    let mut b = SwapBlock::nouveau("s1".to_string(), 64);
    let mut m = Activation::nouvelle(9);
    assert_eq!(prog(&m.suite(&mut b, ok(""))), "losetup");
    assert_eq!(
        cmd(&m.suite(&mut b, ok("/dev/loop4\n"))),
        Some(("swapon".to_string(), vec!["-p".to_string(), "9".to_string(), "/dev/loop4".to_string()]))
    );
    assert!(!b.est_actif());
    assert!(matches!(m.suite(&mut b, ok("")), Action::Reussir));
    assert!(b.est_actif());
    assert_eq!(b.loop_device.as_deref(), Some("/dev/loop4"));
    let mut again = Activation::nouvelle(9);
    match again.suite(&mut b, ok("")) {
        Action::Echouer(e) => assert_eq!(e, "Bloc s1 déjà actif"),
        _ => panic!("accepted"),
    }
}

#[test]
fn failed_swapon_detaches_and_leaves_the_space_alone() {
    let mut b = SwapBlock::nouveau("s1".to_string(), 64);
    let mut m = Activation::nouvelle(9);
    m.suite(&mut b, ok(""));
    m.suite(&mut b, ok("/dev/loop4\n"));
    assert_eq!(
        cmd(&m.suite(&mut b, Evenement::Echec("invalid".to_string()))),
        Some(("losetup".to_string(), vec!["-d".to_string(), "/dev/loop4".to_string()]))
    );
    match m.suite(&mut b, ok("")) {
        Action::Echouer(e) => assert_eq!(e, "swapon échoué : invalid"),
        _ => panic!("accepted"),
    }
    assert!(!b.est_actif());
    assert!(b.loop_device.is_none());
    let mut n = Activation::nouvelle(9);
    n.suite(&mut b, ok(""));
    match n.suite(&mut b, Evenement::Impossible("not found".to_string())) {
        Action::Echouer(e) => assert_eq!(e, "losetup échoué : not found"),
        _ => panic!("accepted"),
    }
}

#[test]
fn deactivation_steps() {
    let mut b = SwapBlock::nouveau("s1".to_string(), 64);
    let mut e = EtapeDesactivation::Debut;
    match e.suite(&mut b, ok("")) {
        Action::Echouer(m) => assert_eq!(m, "Bloc s1 déjà inactif"),
        _ => panic!("accepted"),
    }
    b.marquer_actif("/dev/loop2".to_string());
    let mut e = EtapeDesactivation::Debut;
    assert_eq!(cmd(&e.suite(&mut b, ok(""))), Some(("swapoff".to_string(), vec!["/dev/loop2".to_string()])));
    match e.suite(&mut b, Evenement::Echec("busy".to_string())) {
        Action::Echouer(m) => assert_eq!(m, "swapoff a échoué : busy"),
        _ => panic!("accepted"),
    }
    assert!(b.est_actif());
    let mut e = EtapeDesactivation::Debut;
    e.suite(&mut b, ok(""));
    assert_eq!(
        cmd(&e.suite(&mut b, ok(""))),
        Some(("losetup".to_string(), vec!["-d".to_string(), "/dev/loop2".to_string()]))
    );
    assert!(matches!(e.suite(&mut b, ok("")), Action::Reussir));
    assert!(!b.est_actif());
    assert!(b.loop_device.is_none());
}

#[test]
fn memory_of_the_vms_of_several_nodes() {
    let vm = |mem: u64, maxmem: u64| {
        Json::Objet(vec![("mem".to_string(), Json::Entier(mem)), ("maxmem".to_string(), Json::Entier(maxmem))])
    };
    let noeud = |vms: Vec<Json>| Json::Objet(vec![("data".to_string(), Json::Liste(vms))]);
    let reponses = vec![
        Some(noeud(vec![vm(0, 2 * 1048576)])),
        None,
        Some(Json::Objet(vec![])),
        Some(noeud(vec![vm(1048576, 5 * 1048576), vm(0, 0)])),
    ];
    assert_eq!(ram_libre_cluster(&reponses), vec![2, 4, 0]);
    assert!(ram_libre_cluster(&vec![]).is_empty());
}

#[test]
fn matching_ignores_the_order_of_needs_and_never_reuses_a_donor() {
    let a = Agent::new("10.0.0.1".to_string(), 7878, vec![]);
    let o: Vec<(String, u64)> = vec![("a".to_string(), 6000), ("b".to_string(), 600), ("c".to_string(), 3000)];
    let p1 = a.apparier_offres(&o, &[5000, 200, 1000, 50], 500, 5);
    let p2 = a.apparier_offres(&o, &[50, 1000, 5000, 200], 500, 5);
    assert_eq!(p1, p2);
    for i in 0..p1.len() {
        for j in i + 1..p1.len() {
            assert_ne!(p1[i].0, p1[j].0);
        }
    }
    assert_eq!(p1, vec![("a".to_string(), 4101), ("c".to_string(), 1005), ("b".to_string(), 55)]);
}

#[test]
fn free_device_search() {
    let (mut r, pas) = RechercheDevice::debut();
    assert!(matches!(pas, PasRecherche::Observer(c) if c.args == vec!["--getsize64".to_string(), "/dev/nbd0".to_string()]));
    assert!(matches!(r.suite(ok("4294967296\n")), PasRecherche::Observer(c) if c.args[1] == "/dev/nbd1"));
    assert!(matches!(r.suite(ok("0\n")), PasRecherche::Trouve(d) if d == "/dev/nbd1"));
    let (mut r, _) = RechercheDevice::debut();
    assert!(matches!(r.suite(Evenement::Impossible("absent".to_string())), PasRecherche::Echec(e) if e == "blockdev échoué : absent"));
    let (mut r, _) = RechercheDevice::debut();
    let mut n = 1;
    loop {
        match r.suite(ok("512")) {
            PasRecherche::Observer(_) => n += 1,
            PasRecherche::Echec(e) => {
                assert_eq!(e, "Aucun /dev/nbdX libre");
                break;
            }
            PasRecherche::Trouve(_) => panic!("busy devices"),
        }
    }
    assert_eq!(n, 16);
}

#[test]
fn donors_are_tried_until_one_space_is_in_use() {
    let mut d = Demandes::nouvelles(vec![("a".to_string(), 1005), ("b".to_string(), 605), ("c".to_string(), 105)]);
    assert_eq!(d.suivante(), Some(("a".to_string(), 1005)));
    assert_eq!(d.apres_demande(Err("RAM insuffisante".to_string())), None);
    assert_eq!(d.suivante(), Some(("b".to_string(), 605)));
    assert_eq!(
        d.apres_demande(Ok((10810, "swap_9".to_string()))),
        Some(("b".to_string(), 10810, "swap_9".to_string(), 605))
    );
    assert!(!d.apres_configuration(&Err("Aucun /dev/nbdX libre".to_string())));
    assert_eq!(d.suivante(), Some(("c".to_string(), 105)));
    d.apres_demande(Ok((10811, "swap_10".to_string())));
    assert!(d.apres_configuration(&Ok(SwapDistant::nouveau("swap_10", "c", 10811, "/dev/nbd0", 105))));
    let mut vide = Demandes::nouvelles(vec![]);
    assert_eq!(vide.suivante(), None);
    assert_eq!(vide.k, 0);
}

fn expose(id: &str, port: u16) -> SwapExpose {
    SwapExpose::depuis_plan(plan_exposition(id, 64, port), id, port, "10.0.0.9")
}

#[test]
fn donor_releases_only_when_the_receiver_no_longer_needs_the_space() {
    let mut w = DonneurWatcher::new(180);
    w.ajouter(expose("s1", 10809), "10.0.0.5".to_string(), 7878, 0);
    w.ajouter(expose("s2", 10813), "10.0.0.6".to_string(), 7878, 0);
    assert!(w.apres_reponse("s2", &Ok(reponse_ram_saturee(99, true))).is_none());
    assert_eq!(w.nb_suivis(), 2);
    let (req, plan) = w.apres_reponse("s2", &Ok(reponse_ram_saturee(99, false))).unwrap();
    assert_eq!(req.method, "liberer_swap");
    assert_eq!(req.id, 100);
    let plan = plan.unwrap();
    assert_eq!(plan.liberation_port.unwrap().args, vec!["-k".to_string(), "10813/tcp".to_string()]);
    assert_eq!(w.nb_suivis(), 1);
    // an unreachable receiver counts as no longer saturated
    let (_, plan) = w.apres_reponse("s1", &Err("injoignable".to_string())).unwrap();
    assert!(plan.is_some());
    assert_eq!(w.nb_suivis(), 0);
    let (_, plan) = w.apres_reponse("s1", &Ok(RpcResponse::error(99, -1, "x"))).unwrap();
    assert!(plan.is_none());
}

#[test]
fn swapon_that_cannot_start_fails_without_detaching() {
    let mut b = SwapBlock::nouveau("s1".to_string(), 64);
    let mut m = Activation::nouvelle(9);
    m.suite(&mut b, ok(""));
    m.suite(&mut b, ok("/dev/loop4\n"));
    match m.suite(&mut b, Evenement::Impossible("No such file".to_string())) {
        Action::Echouer(e) => assert_eq!(e, "swapon échoué : No such file"),
        _ => panic!("detached or accepted"),
    }
    assert!(!b.est_actif());
}

#[test]
fn adding_a_space_makes_activates_and_records_it() {
    let mut premier = SwapBlock::nouveau("a".to_string(), 512);
    premier.marquer_actif("/dev/loop1".to_string());
    let mut m = SwapManager::new(512);
    m.ajouter(premier).unwrap();
    let mut x = AjoutBloc::nouveau(SwapBlock::nouveau("s2".to_string(), 512));
    assert!(matches!(x.suite(&mut m, ok("")), Action::CreerDossier(d) if d == "/mnt/swapram/s2"));
    assert_eq!(
        cmd(&x.suite(&mut m, ok(""))),
        Some((
            "mount".to_string(),
            ["-t", "tmpfs", "-o", "size=512M", "tmpfs", "/mnt/swapram/s2"].iter().map(|s| s.to_string()).collect()
        ))
    );
    assert_eq!(prog(&x.suite(&mut m, ok(""))), "dd");
    assert_eq!(prog(&x.suite(&mut m, ok(""))), "chmod");
    assert_eq!(prog(&x.suite(&mut m, ok(""))), "mkswap");
    assert_eq!(prog(&x.suite(&mut m, ok(""))), "losetup");
    // the second space swaps with priority 9
    assert_eq!(
        cmd(&x.suite(&mut m, ok("/dev/loop2\n"))),
        Some(("swapon".to_string(), vec!["-p".to_string(), "9".to_string(), "/dev/loop2".to_string()]))
    );
    assert_eq!(m.blocs.len(), 1);
    assert!(matches!(x.suite(&mut m, ok("")), Action::Reussir));
    assert_eq!(m.blocs.len(), 2);
    assert_eq!(m.blocs[1].id, "s2");
    assert!(m.blocs[1].est_actif());
    assert_eq!(m.total_swap_mb(), 1024);
    // over the limit: refused before anything is made
    let mut y = AjoutBloc::nouveau(SwapBlock::nouveau("s3".to_string(), 512));
    match y.suite(&mut m, ok("")) {
        Action::Echouer(e) => assert_eq!(e, "Limite atteinte : 1024 Mo / 1024 Mo max"),
        _ => panic!("accepted"),
    }
    assert_eq!(m.blocs.len(), 2);
}

#[test]
fn failed_creation_leaves_the_manager_alone() {
    let mut m = SwapManager::new(256);
    let mut x = AjoutBloc::nouveau(SwapBlock::nouveau("s1".to_string(), 256));
    x.suite(&mut m, ok(""));
    x.suite(&mut m, ok(""));
    match x.suite(&mut m, Evenement::Echec("no space".to_string())) {
        Action::Echouer(e) => assert_eq!(e, "mount a échoué : no space"),
        _ => panic!("accepted"),
    }
    assert!(m.blocs.is_empty());
    let mut y = AjoutBloc::nouveau(SwapBlock::nouveau("s1".to_string(), 256));
    match y.suite(&mut m, ok("")) {
        Action::CreerDossier(_) => {}
        _ => panic!("no directory"),
    }
    match y.suite(&mut m, Evenement::Echec("denied".to_string())) {
        Action::Echouer(e) => assert_eq!(e, "mkdir échoué : denied"),
        _ => panic!("accepted"),
    }
}

#[test]
fn node_to_read() {
    let nodes = Json::Objet(vec![(
        "data".to_string(),
        Json::Liste(vec![Json::Objet(vec![
            ("node".to_string(), Json::Texte("pve1".to_string())),
            ("ip".to_string(), Json::Texte("10.0.0.1".to_string())),
        ])]),
    )]);
    assert_eq!(noeud_a_lire(&cible(Some("pve9"), None), None), Some("pve9".to_string()));
    assert_eq!(noeud_a_lire(&cible(None, Some("10.0.0.1")), Some(&nodes)), Some("pve1".to_string()));
    assert_eq!(noeud_a_lire(&cible(None, Some("10.0.0.2")), Some(&nodes)), None);
    assert_eq!(noeud_a_lire(&cible(None, Some("10.0.0.1")), None), None);
    assert_eq!(noeud_a_lire(&cible(None, None), Some(&nodes)), None);
}
