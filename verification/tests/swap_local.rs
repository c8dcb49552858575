use ram_agent::commande::Commande;
use ram_agent::horloge::{identifiant_depuis_duree, identifiant_swap, identifiant_swap_de};
use ram_agent::manager::SwapManager;
use ram_agent::memoire::MemInfo;
use ram_agent::swap::{lire_entree_swaps, SwapBlock};

const SWAPS: &str = "Filename\t\t\t\tType\t\tSize\t\tUsed\t\tPriority\n\
/dev/loop3                              file\t\t262140\t\t1024\t\t10\n\
/dev/nbd0                               partition\t3686396\t\t102400\t\t100\n";

fn vue(c: &Commande) -> (String, Vec<String>) {
    (c.programme.clone(), c.args.clone())
}

fn cmd(p: &str, args: &[&str]) -> (String, Vec<String>) {
    (p.to_string(), args.iter().map(|s| s.to_string()).collect())
}

fn mem(available_kb: u64) -> MemInfo {
    MemInfo {
        total_kb: 8000000,
        free_kb: 0,
        available_kb,
        buffers_kb: 0,
        cached_kb: 0,
        used_kb: 0,
        swap_total_kb: 0,
        swap_free_kb: 0,
        swap_used_kb: 0,
    }
}

#[test]
fn paths_of_a_space() {
    let b = SwapBlock::nouveau("swap_12".to_string(), 256);
    assert_eq!(b.chemin_tmpfs(), "/mnt/swapram/swap_12");
    assert_eq!(b.chemin_fichier(), "/mnt/swapram/swap_12/swapfile");
    assert!(!b.est_actif());
    assert!(b.loop_device.is_none());
}

#[test]
fn creation_commands() {
    let b = SwapBlock::nouveau("s1".to_string(), 256);
    let c: Vec<_> = b.commandes_creation().iter().map(vue).collect();
    assert_eq!(
        c,
        vec![
            cmd("mount", &["-t", "tmpfs", "-o", "size=256M", "tmpfs", "/mnt/swapram/s1"]),
            cmd("dd", &["if=/dev/zero", "of=/mnt/swapram/s1/swapfile", "bs=1M", "count=256"]),
            cmd("chmod", &["600", "/mnt/swapram/s1/swapfile"]),
            cmd("mkswap", &["/mnt/swapram/s1/swapfile"]),
        ]
    );
}

#[test]
fn activation_and_deactivation() {
    let mut b = SwapBlock::nouveau("s1".to_string(), 256);
    assert!(b.verifier_activation().is_ok());
    assert_eq!(b.commandes_desactivation().err(), Some("Bloc s1 déjà inactif".to_string()));
    assert_eq!(vue(&b.commande_losetup()), cmd("losetup", &["-f", "--show", "/mnt/swapram/s1/swapfile"]));
    let dev = SwapBlock::device_de_sortie("/dev/loop3\n");
    assert_eq!(dev, "/dev/loop3");
    assert_eq!(vue(&SwapBlock::commande_swapon(9, &dev)), cmd("swapon", &["-p", "9", "/dev/loop3"]));
    b.marquer_actif(dev);
    assert!(b.est_actif());
    assert_eq!(b.verifier_activation().err(), Some("Bloc s1 déjà actif".to_string()));
    let d: Vec<_> = b.commandes_desactivation().unwrap().iter().map(vue).collect();
    assert_eq!(d, vec![cmd("swapoff", &["/dev/loop3"]), cmd("losetup", &["-d", "/dev/loop3"])]);
    b.marquer_inactif();
    assert!(!b.est_actif());
    assert!(b.loop_device.is_none());
    assert_eq!(vue(&b.commande_demontage()), cmd("umount", &["/mnt/swapram/s1"]));
}

#[test]
fn proc_swaps_entry() {
    assert_eq!(lire_entree_swaps(SWAPS, "/dev/loop3"), Some((Some(262140), Some(1024))));
    assert_eq!(lire_entree_swaps(SWAPS, "/dev/nbd0"), Some((Some(3686396), Some(102400))));
    assert_eq!(lire_entree_swaps(SWAPS, "/dev/nbd1"), None);
    assert_eq!(lire_entree_swaps("Filename Type Size Used Priority\n", "Filename"), None);
    assert_eq!(lire_entree_swaps("", "/dev/loop3"), None);
    assert_eq!(lire_entree_swaps("h\n/dev/x f big 3 1\n", "/dev/x"), Some((None, Some(3))));
}

#[test]
fn usage_of_a_space() {
    let mut b = SwapBlock::nouveau("s1".to_string(), 256);
    assert_eq!(b.utilisation(SWAPS), None);
    b.marquer_actif("/dev/loop3".to_string());
    assert_eq!(b.utilisation(SWAPS), Some((1024, 262140)));
    b.marquer_actif("/dev/loop9".to_string());
    assert_eq!(b.utilisation(SWAPS), None);
}

/// An active space, on a loop device that `/proc/swaps` above does not list.
fn actif(id: &str, taille: u64) -> SwapBlock {
    let mut b = SwapBlock::nouveau(id.to_string(), taille);
    b.marquer_actif("/dev/loop7".to_string());
    b
}

#[test]
fn manager_limit_and_totals() {
    let mut m = SwapManager::new(512);
    assert_eq!(m.min_available_mb, 300);
    assert_eq!(m.max_total_swap_mb, 1024);
    assert_eq!(m.total_swap_mb(), 0);
    assert_eq!(m.priorite(), 10);
    assert!(m.verifier_limite().is_ok());
    assert_eq!(m.ajouter(actif("a", 512)), Ok("a".to_string()));
    assert!(m.verifier_limite().is_ok());
    assert_eq!(m.ajouter(actif("b", 512)), Ok("b".to_string()));
    assert_eq!(m.total_swap_mb(), 1024);
    assert_eq!(m.priorite(), 8);
    assert_eq!(m.verifier_limite().err(), Some("Limite atteinte : 1024 Mo / 1024 Mo max".to_string()));
    // a space over the limit is refused and the spaces stay as they were
    assert_eq!(
        m.ajouter(actif("c", 512)),
        Err("Limite atteinte : 1024 Mo / 1024 Mo max".to_string())
    );
    assert_eq!(m.blocs.len(), 2);
    assert_eq!(m.total_swap_mb(), 1024);
    assert_eq!(m.nb_actifs(), 2);
}

#[test]
fn manager_removals() {
    let mut m = SwapManager::new(128);
    assert_eq!(m.retirer_ancien().err(), Some("Aucun bloc à retirer".to_string()));
    m.ajouter(actif("a", 128)).unwrap();
    m.ajouter(actif("b", 128)).unwrap();
    m.ajouter(actif("c", 128)).unwrap();
    assert_eq!(m.retirer("x").err(), Some("Bloc x introuvable".to_string()));
    assert_eq!(m.retirer("b").unwrap().id, "b");
    assert_eq!(m.total_swap_mb(), 256);
    assert_eq!(m.retirer_ancien().unwrap().id, "a");
    assert_eq!(m.blocs.len(), 1);
    assert_eq!(m.blocs[0].id, "c");
    assert_eq!(m.utilisation("zz", SWAPS).err(), Some("Bloc zz introuvable".to_string()));
    assert_eq!(m.utilisation("c", SWAPS), Ok(None));
    m.blocs[0].marquer_actif("/dev/loop3".to_string());
    assert_eq!(m.utilisation("c", SWAPS), Ok(Some((1024, 262140))));
    assert_eq!(m.nb_actifs(), 1);
}

#[test]
fn manager_decisions() {
    let mut m = SwapManager::new(512);
    assert!(m.doit_creer(&mem(301 * 1024)));
    assert!(!m.doit_creer(&mem(300 * 1024)));
    m.ajouter(actif("a", 512)).unwrap();
    m.ajouter(actif("b", 512)).unwrap();
    assert!(!m.doit_creer(&mem(4000 * 1024)));
    assert_eq!(m.bloc_a_supprimer(&mem(149 * 1024)), Some("a".to_string()));
    assert_eq!(m.bloc_a_supprimer(&mem(150 * 1024)), None);
    let vide = SwapManager::new(512);
    assert_eq!(vide.bloc_a_supprimer(&mem(0)), None);
}

#[test]
fn identifiers_come_from_the_clock() {
    assert_eq!(identifiant_swap_de(1779211620086), "swap_1779211620086");
    assert_eq!(identifiant_swap_de(0), "swap_0");
    assert_eq!(identifiant_depuis_duree(1779211620, 86_999_999), Some("swap_1779211620086".to_string()));
    assert_eq!(identifiant_depuis_duree(0, 0), Some("swap_0".to_string()));
    assert_eq!(identifiant_depuis_duree(u64::MAX, 0), None);
    assert_eq!(identifiant_depuis_duree(1 << 63, 0), None);
    let b = SwapBlock::nouveau_depuis_duree(1, 500_000_000, 64).unwrap();
    assert_eq!(b.id, "swap_1500");
    assert!(!b.est_actif());
    let id = identifiant_swap().unwrap();
    assert!(id.starts_with("swap_"));
    let n: u64 = id["swap_".len()..].parse().unwrap();
    // the clock is past 2020-01-01
    assert!(n > 1_577_836_800_000);
    let b = SwapBlock::nouveau_horodate(64).unwrap();
    assert!(b.id.starts_with("swap_"));
    assert_eq!(b.taille_mb, 64);
}
