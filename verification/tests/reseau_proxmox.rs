use ram_agent::commande::Commande;
use ram_agent::json::{texte_json, Json};
use ram_agent::nbd::{
    commande_blockdev, commandes_connexion, commandes_deconnexion, device_libre, device_nbd, erreur_demarrage,
    nettoyer_ip, plan_arret, plan_exposition, port_ouvert, taille_blockdev, SwapDistant, SwapExpose,
};
use ram_agent::proxmox::{
    arguments_curl, auth_proxmox, cible, noms_noeuds, ram_libre_vms, resolve_node_name_from_ip, url_noeuds,
    url_vms, Cible,
};
use ram_agent::remote_ram::{
    chemin_mmap, commande_demontage, commandes_arret_export, filtrer_exports, plan_export, plan_montage,
    RamDistante, RamExport,
};

fn vue(c: &Commande) -> (String, Vec<String>) {
    (c.programme.clone(), c.args.clone())
}

fn cmd(p: &str, args: &[&str]) -> (String, Vec<String>) {
    (p.to_string(), args.iter().map(|s| s.to_string()).collect())
}

fn noeud(champs: &[(&str, &str)]) -> Json {
    Json::Objet(champs.iter().map(|(k, v)| (k.to_string(), texte_json(v))).collect())
}

fn data(l: Vec<Json>) -> Json {
    Json::Objet(vec![("data".to_string(), Json::Liste(l))])
}

#[test]
fn exposure_plan() {
    let p = plan_exposition("swap_7", 8000, 10810);
    assert_eq!(p.chemin_dir, "/mnt/swapram/swap_7");
    assert_eq!(p.chemin_fichier, "/mnt/swapram/swap_7/swapfile");
    assert_eq!(p.chemin_config, "/etc/nbd-server/swap_7.conf");
    assert_eq!(p.taille_effective, 4096);
    assert_eq!(vue(&p.montage), cmd("mount", &["-t", "tmpfs", "-o", "size=4096M", "tmpfs", "/mnt/swapram/swap_7"]));
    assert_eq!(
        vue(&p.remplissage),
        cmd("dd", &["if=/dev/zero", "of=/mnt/swapram/swap_7/swapfile", "bs=1M", "count=4096"])
    );
    assert_eq!(vue(&p.liberation_port), cmd("fuser", &["-k", "10810/tcp"]));
    assert_eq!(
        p.config,
        "[generic]\n    user = root\n    group = root\n\n[swap_7]\n    exportname = /mnt/swapram/swap_7/swapfile\n    port = 10810\n"
    );
    assert_eq!(vue(&p.lancement), cmd("nbd-server", &["-C", "/etc/nbd-server/swap_7.conf"]));
    assert_eq!(vue(&p.controle), cmd("ss", &["-tlnp"]));
    let petit = plan_exposition("s", 300, 10809);
    assert_eq!(petit.taille_effective, 300);
    let e = SwapExpose::depuis_plan(petit, "s", 10809, "10.0.0.9");
    assert_eq!(e.taille_mb, 300);
    assert_eq!(e.port_nbd, 10809);
    assert_eq!(e.chemin_fichier, "/mnt/swapram/s/swapfile");
    let a = plan_arret(&e);
    assert_eq!(vue(a.liberation_port.as_ref().unwrap()), cmd("fuser", &["-k", "10809/tcp"]));
    assert_eq!(vue(&a.demontage), cmd("umount", &["/mnt/swapram/s"]));
    assert_eq!(a.chemin_config, "/etc/nbd-server/s.conf");
}

#[test]
fn server_up_and_start_error() {
    let ss = "LISTEN 0 10 0.0.0.0:10810 0.0.0.0:* users:((\"nbd-server\"))\n";
    assert!(port_ouvert(ss, 10810));
    assert!(!port_ouvert(ss, 10809));
    assert!(!port_ouvert("", 10810));
    assert_eq!(erreur_demarrage(10811), "nbd-server n'a pas démarré sur le port 10811");
}

#[test]
fn client_commands() {
    assert_eq!(nettoyer_ip(" 10.0.0.2,, "), "10.0.0.2");
    let c: Vec<_> = commandes_connexion("10.0.0.2,", 10810, "/dev/nbd1", "swap_7").iter().map(vue).collect();
    assert_eq!(
        c,
        vec![
            cmd("modprobe", &["nbd"]),
            cmd("nbd-client", &["10.0.0.2", "10810", "-N", "swap_7", "/dev/nbd1"]),
            cmd("mkswap", &["/dev/nbd1"]),
            cmd("swapon", &["-p", "100", "/dev/nbd1"]),
        ]
    );
    let d = SwapDistant::nouveau("swap_7", "10.0.0.2", 10810, "/dev/nbd1", 512);
    let c: Vec<_> = commandes_deconnexion(&d).iter().map(vue).collect();
    assert_eq!(c, vec![cmd("swapoff", &["/dev/nbd1"]), cmd("nbd-client", &["-d", "/dev/nbd1"])]);
    assert_eq!(device_nbd(0), "/dev/nbd0");
    assert_eq!(device_nbd(15), "/dev/nbd15");
    assert_eq!(vue(&commande_blockdev("/dev/nbd3")), cmd("blockdev", &["--getsize64", "/dev/nbd3"]));
    assert_eq!(taille_blockdev("0\n"), 0);
    assert_eq!(taille_blockdev(" 4294967296 \n"), 4294967296);
    assert_eq!(taille_blockdev("erreur"), 0);
    assert!(device_libre(0));
    assert!(!device_libre(4294967296));
}

#[test]
fn ram_export_and_mount() {
    let p = plan_export("r1", 1024);
    assert_eq!(p.chemin, "/mnt/shared-ram/r1");
    assert_eq!(vue(&p.montage), cmd("mount", &["-t", "tmpfs", "-o", "size=1024M", "tmpfs", "/mnt/shared-ram/r1"]));
    assert_eq!(vue(&p.remplissage), cmd("dd", &["if=/dev/zero", "of=/mnt/shared-ram/r1/data", "bs=1M", "count=1024"]));
    assert_eq!(p.ligne_export, "/mnt/shared-ram/r1 *(rw,sync,no_subtree_check,no_root_squash)\n");
    assert_eq!(vue(&p.rechargement), cmd("exportfs", &["-ra"]));
    let e = RamExport::depuis_plan("r1", 1024, p);
    let c: Vec<_> = commandes_arret_export(&e).iter().map(vue).collect();
    assert_eq!(c, vec![cmd("exportfs", &["-ra"]), cmd("umount", &["/mnt/shared-ram/r1"])]);
    let m = plan_montage("10.0.0.2", "r1");
    assert_eq!(m.chemin_local, "/mnt/remote-ram/r1");
    assert_eq!(vue(&m.montage), cmd("mount", &["-t", "nfs", "10.0.0.2:/mnt/shared-ram/r1", "/mnt/remote-ram/r1"]));
    assert_eq!(m.chemin_fichier, "/mnt/remote-ram/r1/data");
    let d = RamDistante::depuis_plan("r1", "10.0.0.2", 1024, m);
    assert_eq!(chemin_mmap(&d), "/mnt/remote-ram/r1/data");
    assert_eq!(vue(&commande_demontage(&d)), cmd("umount", &["/mnt/remote-ram/r1"]));
}

#[test]
fn exports_file_without_an_export() {
    let contenu = "/srv *(ro)\n/mnt/shared-ram/r1 *(rw,sync,no_subtree_check,no_root_squash)\n/home *(rw)\n";
    assert_eq!(filtrer_exports(contenu, "/mnt/shared-ram/r1"), "/srv *(ro)\n/home *(rw)\n");
    assert_eq!(filtrer_exports("", "/x"), "\n");
    assert_eq!(filtrer_exports("/x a\n", "/x"), "\n");
}

#[test]
fn proxmox_requests() {
    let auth = auth_proxmox("root@pam", "root-1", "jeton");
    assert_eq!(auth, "PVEAPIToken=root@pam!root-1=jeton");
    assert_eq!(url_noeuds("10.0.0.1"), "https://10.0.0.1:8006/api2/json/nodes");
    assert_eq!(url_vms("10.0.0.1", "pve"), "https://10.0.0.1:8006/api2/json/nodes/pve/qemu");
    assert_eq!(
        arguments_curl("A", "U"),
        vec!["-s", "-k", "-H", "Authorization: A", "U"]
    );
}

#[test]
fn free_memory_of_vms() {
    let vm = |mem: u64, maxmem: u64| {
        Json::Objet(vec![
            ("mem".to_string(), Json::Entier(mem)),
            ("maxmem".to_string(), Json::Entier(maxmem)),
        ])
    };
    let reponse = data(vec![
        vm(1024 * 1048576, 4096 * 1048576),
        vm(2048 * 1048576, 1024 * 1048576),
        Json::Objet(vec![]),
        vm(1048575, 3 * 1048576),
    ]);
    assert_eq!(ram_libre_vms(&reponse), Some(vec![3072, 0, 0, 3]));
    assert_eq!(ram_libre_vms(&Json::Objet(vec![])), None);
    assert_eq!(ram_libre_vms(&data(vec![])), Some(vec![]));
}

#[test]
fn node_names_and_resolution() {
    let nodes = data(vec![
        noeud(&[("node", "pve1"), ("ip", "192.168.249.45")]),
        noeud(&[("node", "pve2"), ("address", "192.168.249.46")]),
        noeud(&[("fqdn", "192.168.249.47")]),
    ]);
    assert_eq!(noms_noeuds(&nodes), Some(vec!["pve1".to_string(), "pve2".to_string()]));
    assert_eq!(resolve_node_name_from_ip(&nodes, "192.168.249.45"), Some("pve1".to_string()));
    assert_eq!(resolve_node_name_from_ip(&nodes, "192.168.249.46"), Some("pve2".to_string()));
    assert_eq!(resolve_node_name_from_ip(&nodes, "pve2"), Some("pve2".to_string()));
    assert_eq!(resolve_node_name_from_ip(&nodes, "192.168.249.47"), None);
    assert_eq!(resolve_node_name_from_ip(&nodes, "10.9.9.9"), None);
    assert_eq!(resolve_node_name_from_ip(&Json::Nul, "pve1"), None);
}

#[test]
fn which_vms_to_read() {
    assert!(matches!(cible(Some("pve"), Some("1.2.3.4")), Cible::Noeud(n) if n == "pve"));
    assert!(matches!(cible(None, Some("1.2.3.4")), Cible::ParAdresse(ip) if ip == "1.2.3.4"));
    assert!(matches!(cible(None, None), Cible::Tous));
}
