use ram_agent::agent::{
    encore_saturee, interpreter_reponse_ram, interpreter_reponse_swap, requete_liberation, requete_ram,
    requete_ram_saturee, Agent,
};
use ram_agent::json::{objet1, texte_json, valeur_booleen, valeur_texte, valeur_u64, Json};
use ram_agent::listener::{
    ligne_a_traiter, lire_params_creer_swap, lire_params_vm_status, lire_swap_id, methode, refus_ram,
    reponse_creation_echouee, reponse_json_invalide, reponse_liberation, reponse_methode_inconnue,
    reponse_peers_ram, reponse_ram_available, reponse_ram_saturee, reponse_swap_cree,
    reponse_swap_introuvable, reponse_vm_status, Methode,
};
use ram_agent::message::{RpcRequest, RpcResponse};

fn agent() -> Agent {
    Agent::new("192.168.249.47".to_string(), 7878, vec!["192.168.249.45".to_string()])
}

fn erreur(r: &RpcResponse) -> (i32, String) {
    let e = r.error.as_ref().unwrap();
    (e.code, e.message.clone())
}

#[test]
fn creer_swap_parameters_are_read_back_by_the_donor() {
    let req = agent().requete_creer_swap(1029);
    assert_eq!(req.jsonrpc, "2.0");
    assert_eq!(req.method, "creer_swap");
    assert_eq!(req.id, 2);
    assert!(matches!(methode(&req), Methode::CreerSwap));
    let p = match lire_params_creer_swap(&req) {
        Ok(p) => p,
        Err(_) => panic!("parameters refused"),
    };
    assert_eq!(p.taille_mb, 1029);
    assert_eq!(p.receveur_ip, "192.168.249.47");
    assert_eq!(p.receveur_port_rpc, 7878);
}

#[test]
fn creer_swap_parameters_have_defaults() {
    let req = RpcRequest::new("creer_swap", objet1("taille_mb", Json::Entier(64)), 5);
    let p = match lire_params_creer_swap(&req) {
        Ok(p) => p,
        Err(_) => panic!("parameters refused"),
    };
    assert_eq!(p.taille_mb, 64);
    assert_eq!(p.receveur_ip, "");
    assert_eq!(p.receveur_port_rpc, 7878);
    let big_port = RpcRequest::new(
        "creer_swap",
        Json::Objet(vec![
            ("taille_mb".to_string(), Json::Entier(64)),
            ("receveur_port_rpc".to_string(), Json::Entier(65536 + 9000)),
        ]),
        5,
    );
    match lire_params_creer_swap(&big_port) {
        Ok(p) => assert_eq!(p.receveur_port_rpc, 9000),
        Err(_) => panic!("parameters refused"),
    }
}

#[test]
fn creer_swap_without_size_is_an_invalid_params_error() {
    let req = RpcRequest::new("creer_swap", objet1("taille_mb", texte_json("64")), 8);
    match lire_params_creer_swap(&req) {
        Ok(_) => panic!("accepted"),
        Err(r) => {
            assert_eq!(r.id, 8);
            assert!(r.result.is_none());
            assert_eq!(erreur(&r), (-32602, "taille_mb manquant".to_string()));
        }
    }
}

#[test]
fn donor_keeps_a_margin_of_500_mb() {
    assert!(refus_ram(4, 1500, 1000).is_none());
    let r = refus_ram(4, 1499, 1000).unwrap();
    assert_eq!(r.id, 4);
    assert!(r.result.is_none());
    assert_eq!(
        erreur(&r),
        (-1, "RAM insuffisante : 1499 Mo dispo, 1000 Mo demandés + 500 Mo marge".to_string())
    );
}

#[test]
fn refusal_is_read_by_the_receiver_as_its_message() {
    let r = refus_ram(2, 100, 1000).unwrap();
    assert_eq!(
        interpreter_reponse_swap(&r),
        Err("RAM insuffisante : 100 Mo dispo, 1000 Mo demandés + 500 Mo marge".to_string())
    );
    let echec = reponse_creation_echouee(2, "mount refusé");
    assert_eq!(erreur(&echec), (-1, "Création échouée : mount refusé".to_string()));
    assert_eq!(interpreter_reponse_swap(&echec), Err("Création échouée : mount refusé".to_string()));
}

#[test]
fn swap_answer_is_read_back_by_the_receiver() {
    let r = reponse_swap_cree(2, 10812, "swap_1779211620086");
    assert_eq!(r.id, 2);
    assert!(r.error.is_none());
    assert_eq!(interpreter_reponse_swap(&r), Ok((10812, "swap_1779211620086".to_string())));
}

#[test]
fn swap_answer_errors() {
    let sans_port = RpcResponse::success(2, objet1("swap_id", texte_json("s")));
    assert_eq!(interpreter_reponse_swap(&sans_port), Err("port_nbd manquant".to_string()));
    let sans_id = RpcResponse::success(2, objet1("port_nbd", Json::Entier(10809)));
    assert_eq!(interpreter_reponse_swap(&sans_id), Err("swap_id manquant".to_string()));
    let vide = RpcResponse { jsonrpc: "2.0".to_string(), result: None, error: None, id: 2 };
    assert_eq!(interpreter_reponse_swap(&vide), Err("Erreur inconnue".to_string()));
    assert_eq!(interpreter_reponse_ram(&vide), Err("Erreur".to_string()));
}

#[test]
fn ram_answer_is_read_back() {
    let req = requete_ram();
    assert_eq!(req.method, "ram_available");
    assert_eq!(req.id, 1);
    assert!(matches!(methode(&req), Methode::RamAvailable));
    let r = reponse_ram_available(req.id, 3500);
    assert_eq!(r.id, 1);
    assert_eq!(interpreter_reponse_ram(&r), Ok(3500));
    let mauvais = RpcResponse::success(1, objet1("available_mb", texte_json("3500")));
    assert_eq!(interpreter_reponse_ram(&mauvais), Err("Champ manquant".to_string()));
    let refus = RpcResponse::error(1, -32601, "Méthode inconnue");
    assert_eq!(interpreter_reponse_ram(&refus), Err("Méthode inconnue".to_string()));
}

#[test]
fn saturation_answer_is_read_back() {
    let req = requete_ram_saturee();
    assert_eq!(req.method, "ram_saturee");
    assert_eq!(req.id, 99);
    assert!(matches!(methode(&req), Methode::RamSaturee));
    assert!(encore_saturee(&Ok(reponse_ram_saturee(99, true))));
    assert!(!encore_saturee(&Ok(reponse_ram_saturee(99, false))));
    assert!(!encore_saturee(&Err("injoignable".to_string())));
    assert!(!encore_saturee(&Ok(RpcResponse::error(99, -1, "x"))));
    assert!(!encore_saturee(&Ok(RpcResponse::success(99, objet1("saturee", texte_json("oui"))))));
}

#[test]
fn release_request_carries_the_identifier() {
    let req = requete_liberation("swap_42", 100);
    assert_eq!(req.method, "liberer_swap");
    assert_eq!(req.id, 100);
    assert!(matches!(methode(&req), Methode::LibererSwap));
    match lire_swap_id(&req) {
        Ok(s) => assert_eq!(s, "swap_42"),
        Err(_) => panic!("identifier refused"),
    }
    let sans = RpcRequest::new("liberer_swap", Json::Objet(vec![]), 3);
    match lire_swap_id(&sans) {
        Ok(_) => panic!("accepted"),
        Err(r) => assert_eq!(erreur(&r), (-32602, "swap_id manquant".to_string())),
    }
}

#[test]
fn release_answers() {
    let ok = reponse_liberation(7, &Ok(()));
    assert!(ok.error.is_none());
    assert_eq!(valeur_booleen(ok.result.as_ref().unwrap().champ("ok")), Some(true));
    let ko = reponse_liberation(7, &Err("umount".to_string()));
    assert_eq!(erreur(&ko), (-1, "Libération échouée : umount".to_string()));
    assert_eq!(erreur(&reponse_swap_introuvable(7)), (-1, "Swap introuvable".to_string()));
}

#[test]
fn methods_and_unknown_method() {
    for (nom, attendu) in [
        ("peers_ram", "peers"),
        ("liste_swaps", "liste"),
        ("utilisation_swap", "utilisation"),
        ("statut", "statut"),
        ("get_vm_status", "vm"),
        ("reboot", "inconnue"),
    ] {
        let m = methode(&RpcRequest::new(nom, Json::Nul, 1));
        let obtenu = match m {
            Methode::PeersRam => "peers",
            Methode::ListeSwaps => "liste",
            Methode::UtilisationSwap => "utilisation",
            Methode::Statut => "statut",
            Methode::GetVmStatus => "vm",
            Methode::Inconnue => "inconnue",
            _ => "autre",
        };
        assert_eq!(obtenu, attendu);
    }
    let r = reponse_methode_inconnue(12);
    assert_eq!(r.id, 12);
    assert_eq!(r.error.as_ref().unwrap().code, -32601);
}

#[test]
fn invalid_json_and_blank_lines() {
    let r = reponse_json_invalide("expected value");
    assert_eq!(r.id, 0);
    assert_eq!(r.error.as_ref().unwrap().code, -32700);
    assert!(!ligne_a_traiter("   \n"));
    assert!(ligne_a_traiter(" {} "));
}

#[test]
fn peers_answer_lists_the_offers() {
    let offres = vec![("10.0.0.2".to_string(), 1000), ("10.0.0.3".to_string(), 2500)];
    let r = reponse_peers_ram(3, &offres);
    let peers = r.result.as_ref().unwrap().champ("peers").unwrap();
    assert_eq!(valeur_u64(peers.champ("10.0.0.2")), Some(1000));
    assert_eq!(valeur_u64(peers.champ("10.0.0.3")), Some(2500));
    assert_eq!(valeur_u64(peers.champ("10.0.0.4")), None);
}

#[test]
fn vm_status_parameters_and_answer() {
    let p = lire_params_vm_status(&RpcRequest::new("get_vm_status", Json::Objet(vec![]), 1));
    assert_eq!(p.proxmox_ip, "192.168.123.101");
    assert_eq!(p.token_user, "root@pam");
    assert_eq!(p.token_name, "monitoring");
    assert_eq!(p.token_value, "");
    assert!(p.node_name.is_none());
    assert!(p.node_ip.is_none());
    let q = lire_params_vm_status(&RpcRequest::new(
        "get_vm_status",
        Json::Objet(vec![
            ("proxmox_ip".to_string(), texte_json("10.1.1.1")),
            ("node_name".to_string(), texte_json("pve")),
        ]),
        1,
    ));
    assert_eq!(q.proxmox_ip, "10.1.1.1");
    assert_eq!(q.node_name.as_deref(), Some("pve"));
    let r = reponse_vm_status(1, &vec![512, 0]);
    match r.result.as_ref().unwrap().champ("vms") {
        Some(Json::Liste(l)) => {
            assert_eq!(l.len(), 2);
            assert_eq!(valeur_u64(l[0].champ("ram_free")), Some(512));
            assert_eq!(valeur_u64(l[1].champ("ram_free")), Some(0));
        }
        _ => panic!("no list"),
    }
}
