//! The memory report of the node, read from the text of `/proc/meminfo`.
use vstd::prelude::*;
use crate::texte::{
    analyse_u64, analyser_u64_texte, bornes_lignes, bornes_rognees, bornes_valides, commence,
    commence_par, lignes, morceaux, retirer_motif, retirer_motif_exec, rogner, second_morceau,
    second_morceau_exec, vers_chars,
};

verus! {

/// The counters of `/proc/meminfo` that the agent uses, in kB.
pub struct MemInfo {
    pub total_kb: u64,
    pub free_kb: u64,
    pub available_kb: u64,
    pub buffers_kb: u64,
    pub cached_kb: u64,
    pub used_kb: u64,
    pub swap_total_kb: u64,
    pub swap_free_kb: u64,
    pub swap_used_kb: u64,
}

/// What a line of the report gives for `champ`, when the line is the field's:
/// it starts with the field's name and holds a `':'`.
pub open spec fn ligne_du_champ(l: Seq<char>, champ: Seq<char>) -> bool {
    commence_par(l, champ) && second_morceau(l, ':') is Some
}

/// The number on a line of the field: the text after the `':'` (up to a
/// second `':'`), trimmed, with every `" kB"` removed, read as a `u64`, or 0.
pub open spec fn nombre_de_ligne(l: Seq<char>) -> u64 {
    match analyse_u64(retirer_motif(rogner(second_morceau(l, ':')->0), " kB"@)) {
        Some(n) => n,
        None => 0,
    }
}

/// The value of a field over a list of lines: the number on the first line
/// of the field, or 0 when no line is the field's.
pub open spec fn champ_lignes(ls: Seq<Seq<char>>, champ: Seq<char>) -> u64
    decreases ls.len(),
{
    if ls.len() == 0 {
        0
    } else if ligne_du_champ(ls[0], champ) {
        nombre_de_ligne(ls[0])
    } else {
        champ_lignes(ls.drop_first(), champ)
    }
}

/// The value of a field in the text of a report.
pub open spec fn valeur_champ(contenu: Seq<char>, champ: Seq<char>) -> u64 {
    champ_lignes(lignes(contenu), champ)
}

/// The value of `champ` in the report whose characters are `s`, cut in lines at `bornes`.
fn champ_dans(s: &Vec<char>, bornes: &Vec<(usize, usize)>, champ: &str, kb: &Vec<char>) -> (r: u64)
    requires
        bornes_valides(bornes@, 0, s@.len() as int),
        kb@ == " kB"@,
    ensures
        r == champ_lignes(morceaux(s@, bornes@), champ@),
{
    let motif = vers_chars(champ);
    let mut k: usize = 0;
    let ghost ls = morceaux(s@, bornes@);
    assert(ls.skip(0) == ls);
    while k < bornes.len()
        invariant
            k <= bornes.len(),
            bornes_valides(bornes@, 0, s@.len() as int),
            ls == morceaux(s@, bornes@),
            motif@ == champ@,
            kb@ == " kB"@,
            champ_lignes(ls, champ@) == champ_lignes(ls.skip(k as int), champ@),
        decreases bornes.len() - k,
    {
        let (a, b) = bornes[k];
        let ghost l = s@.subrange(a as int, b as int);
        assert(ls.skip(k as int)[0] == l);
        assert(ls.skip(k as int).drop_first() == ls.skip(k + 1));
        if commence(s, a, b, &motif) {
            match second_morceau_exec(s, a, b, ':') {
                Some((x, y)) => {
                    let (x2, y2) = bornes_rognees(s, x, y);
                    let net = retirer_motif_exec(s, x2, y2, kb);
                    let n = analyser_u64_texte(net.as_str());
                    return match n {
                        Some(v) => v,
                        None => 0,
                    };
                },
                None => {},
            }
        }
        k += 1;
    }
    assert(ls.skip(k as int) == Seq::<Seq<char>>::empty());
    0
}

/// The value of `field` in the report `content`: the number on its first line
/// (see `valeur_champ`), or 0.
pub fn extract_field(content: &str, field: &str) -> (r: u64)
    ensures
        r == valeur_champ(content@, field@),
{
    let s = vers_chars(content);
    let bornes = bornes_lignes(&s);
    let kb = vers_chars(" kB");
    champ_dans(&s, &bornes, field, &kb)
}

/// The memory in use: total less free, buffers and cache.
pub open spec fn utilise(total: u64, free: u64, buffers: u64, cached: u64) -> int {
    total - free - buffers - cached
}

/// The report read from the values of its fields; `None` where a difference
/// (memory in use, swap in use) would go below zero.
pub open spec fn meminfo_de(contenu: Seq<char>) -> Option<MemInfo> {
    let total = valeur_champ(contenu, "MemTotal"@);
    let free = valeur_champ(contenu, "MemFree"@);
    let available = valeur_champ(contenu, "MemAvailable"@);
    let buffers = valeur_champ(contenu, "Buffers"@);
    let cached = valeur_champ(contenu, "Cached"@);
    let swap_total = valeur_champ(contenu, "SwapTotal"@);
    let swap_free = valeur_champ(contenu, "SwapFree"@);
    if utilise(total, free, buffers, cached) < 0 || swap_total < swap_free {
        None
    } else {
        Some(
            MemInfo {
                total_kb: total,
                free_kb: free,
                available_kb: available,
                buffers_kb: buffers,
                cached_kb: cached,
                used_kb: utilise(total, free, buffers, cached) as u64,
                swap_total_kb: swap_total,
                swap_free_kb: swap_free,
                swap_used_kb: (swap_total - swap_free) as u64,
            },
        )
    }
}

/// The report that the text of `/proc/meminfo` gives (see `meminfo_de`).
pub fn analyser_meminfo(content: &str) -> (r: Option<MemInfo>)
    ensures
        r == meminfo_de(content@),
{
    let s = vers_chars(content);
    let bornes = bornes_lignes(&s);
    let kb = vers_chars(" kB");
    let total = champ_dans(&s, &bornes, "MemTotal", &kb);
    let free = champ_dans(&s, &bornes, "MemFree", &kb);
    let available = champ_dans(&s, &bornes, "MemAvailable", &kb);
    let buffers = champ_dans(&s, &bornes, "Buffers", &kb);
    let cached = champ_dans(&s, &bornes, "Cached", &kb);
    let swap_total = champ_dans(&s, &bornes, "SwapTotal", &kb);
    let swap_free = champ_dans(&s, &bornes, "SwapFree", &kb);
    if free > total || buffers > total - free || cached > total - free - buffers || swap_free
        > swap_total {
        return None;
    }
    Some(
        MemInfo {
            total_kb: total,
            free_kb: free,
            available_kb: available,
            buffers_kb: buffers,
            cached_kb: cached,
            used_kb: total - free - buffers - cached,
            swap_total_kb: swap_total,
            swap_free_kb: swap_free,
            swap_used_kb: swap_total - swap_free,
        },
    )
}

/// The share of memory in use is above `pct` percent (a report with no
/// memory counts as 0 % in use).
pub open spec fn au_dessus(info: MemInfo, pct: u64) -> bool {
    info.total_kb > 0 && info.used_kb * 100 > pct * info.total_kb
}

/// The share of memory in use is below `pct` percent (a report with no
/// memory counts as 0 % in use).
pub open spec fn en_dessous(info: MemInfo, pct: u64) -> bool {
    if info.total_kb > 0 {
        info.used_kb * 100 < pct * info.total_kb
    } else {
        0 < pct
    }
}

proof fn produit_borne(a: u64, b: u64)
    ensures
        (a as u128) * (b as u128) <= u128::MAX,
{
    assert((a as u128) * (b as u128) <= u128::MAX) by (nonlinear_arith)
        requires
            a <= u64::MAX,
            b <= u64::MAX,
    ;
}

impl MemInfo {
    /// The share of memory in use is above `pct` percent, in exact arithmetic.
    pub fn utilisation_au_dessus(&self, pct: u64) -> (r: bool)
        ensures
            r == au_dessus(*self, pct),
    {
        proof {
            produit_borne(pct, self.total_kb);
        }
        self.total_kb > 0 && (self.used_kb as u128) * 100 > (pct as u128) * (self.total_kb as u128)
    }

    /// The share of memory in use is below `pct` percent, in exact arithmetic.
    pub fn utilisation_en_dessous(&self, pct: u64) -> (r: bool)
        ensures
            r == en_dessous(*self, pct),
    {
        proof {
            produit_borne(pct, self.total_kb);
        }
        if self.total_kb > 0 {
            (self.used_kb as u128) * 100 < (pct as u128) * (self.total_kb as u128)
        } else {
            0 < pct
        }
    }
}

} // verus!
