use ram_agent::agent::Agent;
use ram_agent::donneur::DonneurWatcher;
use ram_agent::json::{valeur_texte, valeur_u64, Json};
use ram_agent::listener::{reponse_liste_swaps, reponse_statut, reponse_utilisation};
use ram_agent::memoire::MemInfo;
use ram_agent::nbd::{plan_exposition, SwapExpose};
use ram_agent::watcher::SwapWatcher;

const SWAPS: &str = "Filename Type Size Used Priority\n\
/dev/nbd0 partition 3686396 0 100\n\
/dev/nbd1 partition 3686396 512 100\n";

fn mem(total: u64, used: u64) -> MemInfo {
    MemInfo {
        total_kb: total,
        free_kb: total - used,
        available_kb: 0,
        buffers_kb: 0,
        cached_kb: 0,
        used_kb: used,
        swap_total_kb: 0,
        swap_free_kb: 0,
        swap_used_kb: 0,
    }
}

fn expose(id: &str, port: u16) -> SwapExpose {
    SwapExpose::depuis_plan(plan_exposition(id, 64, port), id, port, "10.0.0.9")
}

#[test]
fn usage_read_from_proc_swaps() {
    assert_eq!(SwapWatcher::lire_usage_pub(SWAPS, "/dev/nbd0"), Some(0));
    assert_eq!(SwapWatcher::lire_usage_pub(SWAPS, "/dev/nbd1"), Some(512));
    assert_eq!(SwapWatcher::lire_usage_pub(SWAPS, "/dev/nbd2"), None);
}

#[test]
fn comfortable_below_half() {
    let w = SwapWatcher::new(120);
    assert_eq!(w.seuil_ram_confortable, 50);
    assert!(w.ram_confortable(&Ok(mem(1000, 499))));
    assert!(!w.ram_confortable(&Ok(mem(1000, 500))));
    assert!(!w.ram_confortable(&Err("x".to_string())));
}

#[test]
fn empty_space_released_after_two_minutes() {
    let mut w = SwapWatcher::new(120);
    w.ajouter("swap_1", "/dev/nbd0", "10.0.0.2", 7878);
    assert_eq!(w.nb_suivis(), 1);
    // first seen empty at t = 1000 ms
    assert!(w.verifier_suivis(false, &vec![Some(0)], 1_000).is_empty());
    assert_eq!(w.suivis[0].vide_depuis, Some(1_000));
    // still empty, 119.999 s later: kept
    assert!(w.verifier_suivis(false, &vec![Some(0)], 120_999).is_empty());
    assert_eq!(w.suivis[0].vide_depuis, Some(1_000));
    // 120 s later: released
    let liberes = w.verifier_suivis(false, &vec![Some(0)], 121_000);
    assert_eq!(liberes.len(), 1);
    assert_eq!(liberes[0].swap_id, "swap_1");
    assert_eq!(liberes[0].donneur_ip, "10.0.0.2");
    assert_eq!(w.nb_suivis(), 0);
}

#[test]
fn space_in_use_again_starts_over() {
    let mut w = SwapWatcher::new(120);
    w.ajouter("swap_1", "/dev/nbd0", "10.0.0.2", 7878);
    w.verifier_suivis(false, &vec![Some(0)], 0);
    w.verifier_suivis(false, &vec![Some(4096)], 60_000);
    assert_eq!(w.suivis[0].vide_depuis, None);
    assert!(w.verifier_suivis(false, &vec![Some(0)], 130_000).is_empty());
    assert_eq!(w.suivis[0].vide_depuis, Some(130_000));
    // not in /proc/swaps: nothing changes
    assert!(w.verifier_suivis(false, &vec![None], 900_000).is_empty());
    assert_eq!(w.suivis[0].vide_depuis, Some(130_000));
}

#[test]
fn nearly_empty_space_released_when_memory_is_comfortable() {
    let mut w = SwapWatcher::new(120);
    w.ajouter("a", "/dev/nbd0", "10.0.0.2", 7878);
    w.ajouter("b", "/dev/nbd1", "10.0.0.3", 7878);
    w.ajouter("c", "/dev/nbd2", "10.0.0.4", 7878);
    let liberes = w.verifier_suivis(true, &vec![Some(1023), Some(1024), Some(10)], 5);
    // released from the last watched to the first
    let ids: Vec<_> = liberes.iter().map(|s| s.swap_id.clone()).collect();
    assert_eq!(ids, vec!["c", "a"]);
    assert_eq!(w.nb_suivis(), 1);
    assert_eq!(w.suivis[0].swap_id, "b");
    let w2_liberes = {
        let mut w2 = SwapWatcher::new(120);
        w2.ajouter("a", "/dev/nbd0", "10.0.0.2", 7878);
        w2.verifier_suivis(false, &vec![Some(10)], 5)
    };
    assert!(w2_liberes.is_empty());
}

#[test]
fn watcher_answers() {
    let mut w = SwapWatcher::new(120);
    w.ajouter("swap_1", "/dev/nbd0", "10.0.0.2", 7878);
    w.verifier_suivis(false, &vec![Some(0)], 10);
    let l = reponse_liste_swaps(&w, 4);
    let j = l.result.as_ref().unwrap();
    assert_eq!(valeur_u64(j.champ("nb_swaps")), Some(1));
    match j.champ("swaps") {
        Some(Json::Liste(v)) => {
            assert_eq!(valeur_texte(v[0].champ("swap_id")).map(|s| s.as_str()), Some("swap_1"));
            assert!(matches!(v[0].champ("vide"), Some(Json::Booleen(true))));
        }
        _ => panic!("no list"),
    }
    let pos = w.trouver("swap_1").unwrap();
    let u = reponse_utilisation(5, &w.suivis[pos], None);
    assert_eq!(valeur_u64(u.result.as_ref().unwrap().champ("used_kb")), Some(0));
    assert!(w.trouver("swap_2").is_none());
    let agent = Agent::new("10.0.0.1".to_string(), 7878, vec![]);
    let s = reponse_statut(&agent, 6, 2048, false, &w, &vec![Some(77)]);
    let j = s.result.as_ref().unwrap();
    assert_eq!(valeur_texte(j.champ("ip")).map(|s| s.as_str()), Some("10.0.0.1"));
    assert_eq!(valeur_u64(j.champ("available_mb")), Some(2048));
    match j.champ("swaps") {
        Some(Json::Liste(v)) => assert_eq!(valeur_u64(v[0].champ("used_kb")), Some(77)),
        _ => panic!("no list"),
    }
}

#[test]
fn donor_watch_due_after_delay() {
    let mut d = DonneurWatcher::new(180);
    d.ajouter(expose("s1", 10809), "10.0.0.5".to_string(), 7878, 1_000);
    d.ajouter(expose("s2", 10810), "10.0.0.6".to_string(), 7879, 100_000);
    assert_eq!(d.nb_suivis(), 2);
    assert!(d.snapshot_expires(1_000).is_empty());
    assert!(d.snapshot_expires(180_999).is_empty());
    assert_eq!(
        d.snapshot_expires(181_000),
        vec![("s1".to_string(), "10.0.0.5".to_string(), 7878)]
    );
    assert_eq!(d.snapshot_expires(280_000).len(), 2);
    // an earlier instant than the start counts as no time at all
    assert!(d.snapshot_expires(0).is_empty());
}

#[test]
fn donor_watch_release_by_identifier() {
    let mut d = DonneurWatcher::new(180);
    d.ajouter(expose("s1", 10809), "10.0.0.5".to_string(), 7878, 0);
    d.ajouter(expose("s2", 10810), "10.0.0.6".to_string(), 7879, 0);
    assert!(d.retirer("s3").is_none());
    let s = d.retirer("s1").unwrap();
    assert_eq!(s.expose.swap_id, "s1");
    assert_eq!(s.receveur_ip, "10.0.0.5");
    assert_eq!(d.nb_suivis(), 1);
    assert!(d.retirer("s1").is_none());
    assert_eq!(d.suivis[0].expose.swap_id, "s2");
}

#[test]
fn release_stops_the_server_on_the_exposed_port() {
    let mut d = DonneurWatcher::new(180);
    d.ajouter(expose("s1", 10809), "10.0.0.5".to_string(), 7878, 0);
    d.ajouter(expose("s2", 10812), "10.0.0.6".to_string(), 7879, 0);
    let plan = d.plan_liberation("s2");
    let fuser = plan.liberation_port.unwrap();
    assert_eq!(fuser.programme, "fuser");
    assert_eq!(fuser.args, vec!["-k".to_string(), "10812/tcp".to_string()]);
    assert_eq!(plan.demontage.args, vec!["/mnt/swapram/s2".to_string()]);
    assert_eq!(plan.chemin_config, "/etc/nbd-server/s2.conf");
    // the space stays under watch
    assert_eq!(d.nb_suivis(), 2);
    // not watched: no server to stop, the paths are still cleaned
    let inconnu = d.plan_liberation("s3");
    assert!(inconnu.liberation_port.is_none());
    assert_eq!(inconnu.chemin_dir, "/mnt/swapram/s3");
}
