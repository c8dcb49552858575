use ram_agent::agent::{adresse_de_sortie, liste_depuis_texte, Agent};
use ram_agent::memoire::{analyser_meminfo, extract_field, MemInfo};
use ram_agent::texte::{analyser_u64_texte, rogne, texte_i32, texte_u64};

const MEMINFO: &str = "MemTotal:        8000000 kB\n\
MemFree:         1000000 kB\n\
MemAvailable:    2048000 kB\n\
Buffers:          500000 kB\n\
Cached:           500000 kB\n\
SwapCached:            0 kB\n\
SwapTotal:       2000000 kB\n\
SwapFree:        1500000 kB\n";

fn info(total: u64, used: u64, available: u64) -> MemInfo {
    MemInfo {
        total_kb: total,
        free_kb: total - used,
        available_kb: available,
        buffers_kb: 0,
        cached_kb: 0,
        used_kb: used,
        swap_total_kb: 0,
        swap_free_kb: 0,
        swap_used_kb: 0,
    }
}

#[test]
fn extract_field_reads_the_number_of_the_field() {
    assert_eq!(extract_field(MEMINFO, "MemTotal"), 8000000);
    assert_eq!(extract_field(MEMINFO, "MemAvailable"), 2048000);
    assert_eq!(extract_field(MEMINFO, "SwapFree"), 1500000);
}

#[test]
fn extract_field_takes_the_first_line_that_starts_with_the_name() {
    // "SwapCached" starts with "Swap", "Cached" is its own line: the first match wins
    assert_eq!(extract_field(MEMINFO, "Cached"), 500000);
    assert_eq!(extract_field(MEMINFO, "Swap"), 0);
}

#[test]
fn extract_field_is_zero_when_missing_or_not_a_number() {
    assert_eq!(extract_field(MEMINFO, "Hugepagesize"), 0);
    assert_eq!(extract_field("MemTotal: beaucoup kB\n", "MemTotal"), 0);
    assert_eq!(extract_field("", "MemTotal"), 0);
    assert_eq!(extract_field("MemTotal 100 kB\n", "MemTotal"), 0);
}

#[test]
fn analyser_meminfo_computes_used_memory_and_swap() {
    let m = analyser_meminfo(MEMINFO).unwrap();
    assert_eq!(m.total_kb, 8000000);
    assert_eq!(m.free_kb, 1000000);
    assert_eq!(m.available_kb, 2048000);
    assert_eq!(m.buffers_kb, 500000);
    assert_eq!(m.cached_kb, 500000);
    assert_eq!(m.used_kb, 6000000);
    assert_eq!(m.swap_total_kb, 2000000);
    assert_eq!(m.swap_free_kb, 1500000);
    assert_eq!(m.swap_used_kb, 500000);
}

#[test]
fn analyser_meminfo_refuses_counters_that_go_below_zero() {
    assert!(analyser_meminfo("MemTotal: 10 kB\nMemFree: 20 kB\n").is_none());
    assert!(analyser_meminfo("SwapTotal: 10 kB\nSwapFree: 20 kB\n").is_none());
    let vide = analyser_meminfo("").unwrap();
    assert_eq!(vide.total_kb, 0);
    assert_eq!(vide.used_kb, 0);
}

#[test]
fn saturation_is_above_eighty_percent() {
    let agent = Agent::new("10.0.0.1".to_string(), 7878, vec![]);
    assert!(agent.ram_saturee(&Ok(info(1000, 801, 100))));
    assert!(!agent.ram_saturee(&Ok(info(1000, 800, 100))));
    assert!(!agent.ram_saturee(&Ok(info(0, 0, 0))));
    assert!(!agent.ram_saturee(&Err("lecture impossible".to_string())));
    let m = analyser_meminfo(MEMINFO).unwrap();
    assert!(!agent.ram_saturee(&Ok(m)));
}

#[test]
fn available_memory_in_mb() {
    let agent = Agent::new("10.0.0.1".to_string(), 7878, vec![]);
    assert_eq!(agent.ram_available_mb(&Ok(info(1000, 0, 2048000))), 2000);
    assert_eq!(agent.ram_available_mb(&Ok(info(1000, 0, 1023))), 0);
    assert_eq!(agent.ram_available_mb(&Err("x".to_string())), 0);
}

#[test]
fn thresholds_are_exact() {
    let m = info(3, 2, 0);
    // 66.67 % in use
    assert!(m.utilisation_au_dessus(66));
    assert!(!m.utilisation_au_dessus(67));
    assert!(m.utilisation_en_dessous(67));
    assert!(!m.utilisation_en_dessous(66));
    let vide = info(0, 0, 0);
    assert!(vide.utilisation_en_dessous(50));
    assert!(!vide.utilisation_en_dessous(0));
}

#[test]
fn decimal_text_and_parse() {
    assert_eq!(texte_u64(0), "0");
    assert_eq!(texte_u64(1234), "1234");
    assert_eq!(texte_u64(u64::MAX), "18446744073709551615");
    assert_eq!(analyser_u64_texte("18446744073709551615"), Some(u64::MAX));
    assert_eq!(analyser_u64_texte("18446744073709551616"), None);
    assert_eq!(analyser_u64_texte("+42"), Some(42));
    assert_eq!(analyser_u64_texte("-1"), None);
    assert_eq!(analyser_u64_texte(""), None);
    assert_eq!(analyser_u64_texte("+"), None);
    assert_eq!(analyser_u64_texte("12a"), None);
    assert_eq!(analyser_u64_texte("007"), Some(7));
    for n in [0u64, 9, 10, 65535, 10809, 1 << 40] {
        assert_eq!(analyser_u64_texte(&texte_u64(n)), Some(n));
    }
}

#[test]
fn signed_text() {
    assert_eq!(texte_i32(10), "10");
    assert_eq!(texte_i32(-3), "-3");
    assert_eq!(texte_i32(i32::MIN), "-2147483648");
}

#[test]
fn trimming() {
    assert_eq!(rogne("  /dev/loop3\n"), "/dev/loop3");
    assert_eq!(rogne("\t\n "), "");
    assert_eq!(rogne("a b"), "a b");
}

#[test]
fn list_of_peers_from_text() {
    assert_eq!(
        liste_depuis_texte(" 192.168.249.45, 192.168.249.46,,192.168.249.47 ,"),
        vec!["192.168.249.45", "192.168.249.46", "192.168.249.47"]
    );
    assert!(liste_depuis_texte("").is_empty());
    assert!(liste_depuis_texte(" , ,").is_empty());
}

#[test]
fn address_from_hostname_output() {
    assert_eq!(adresse_de_sortie("192.168.1.10 172.17.0.1 \n"), "192.168.1.10");
    assert_eq!(adresse_de_sortie("  \n"), "127.0.0.1");
}
