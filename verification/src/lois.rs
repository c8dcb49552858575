//! What holds of the library across calls: the release of empty swap spaces,
//! the matching of needs with offers, the watch of exposed spaces, the limit
//! on local swap, and what one agent reads back of what another writes.
use vstd::prelude::*;
use crate::agent::{lecture_reponse_ram, lecture_reponse_swap, params_creer_swap, params_liberation, toujours_saturee};
use crate::appariement::{
    appariement, cles, decroissante, loi_tri_stable, noeuds_distincts, plafonne, premiere_offre, tri_decroissant, tri_stable,
};
use crate::memoire::{MemInfo, au_dessus, meminfo_de, valeur_champ};
use crate::nbd::{EtapeExposition, Exposition, prochaine_exposition};
use crate::commande::erreur_run;
use crate::texte::{contient, decimal};
use crate::donneur::{DonneurWatcher, SwapDonneurSuivi, delai_ecoule, dus, premier_suivi};
use crate::json::{JsonVue, champ_json, chercher_cle, en_texte, en_u64};
use crate::listener::{resultat_ram, resultat_saturee, resultat_swap_cree, texte_ou_vide};
use crate::manager::{AjoutBloc, nombre_actifs, pas_activation, position_bloc, somme_tailles};
use crate::commande::{Action, ActionVue, Evenement};
use crate::swap::{EtapeActivation, bloc_apres_activation};
use crate::message::RpcResponse;
use crate::swap::SwapBlock;
use crate::watcher::{SwapSuivi, a_dure, a_liberer, apres_controle, gardes, liberes};

verus! {

/// A remote space first seen empty at `t0`, and seen empty again at `t1`, at
/// least `delai` seconds later, is released by the second check: the first
/// check keeps it and records `t0`.
pub proof fn loi_liberation_apres_delai(s: SwapSuivi, confortable: bool, t0: u64, t1: u64, delai: u64)
    requires
        s.vide_depuis is None,
        t0 <= t1,
        t1 - t0 >= delai * 1000,
    ensures
        !a_liberer(s, Some(0u64), confortable, t0, delai),
        apres_controle(s, Some(0u64), t0).vide_depuis == Some(t0),
        a_liberer(apres_controle(s, Some(0u64), t0), Some(0u64), confortable, t1, delai),
{
}

/// A space that is in use again forgets when it was first seen empty, and one
/// that `/proc/swaps` no longer lists is neither released nor changed.
pub proof fn loi_remise_a_zero(s: SwapSuivi, u: u64, confortable: bool, t: u64, delai: u64)
    requires
        u > 0,
    ensures
        apres_controle(s, Some(u), t).vide_depuis is None,
        !a_liberer(s, None, confortable, t, delai),
        apres_controle(s, None, t) == s,
        !confortable ==> !a_liberer(s, Some(u), confortable, t, delai),
{
}

/// Once the delay has passed, it stays passed.
pub proof fn loi_delai_monotone(debut: u64, t1: u64, t2: u64, delai: u64)
    requires
        debut <= t1 <= t2,
        a_dure(debut, t1, delai),
    ensures
        a_dure(debut, t2, delai),
{
}

/// `x` is one of the spaces `s`, released by a check with usages `u`.
pub open spec fn libere_parmi(s: Seq<SwapSuivi>, u: Seq<Option<u64>>, confortable: bool, t: u64, delai: u64, x: SwapSuivi) -> bool {
    exists|i: int| 0 <= i < s.len() && #[trigger] s[i] == x && a_liberer(s[i], u[i], confortable, t, delai)
}

/// `x` is one of the spaces `s`, kept by a check with usages `u` and updated.
pub open spec fn garde_parmi(s: Seq<SwapSuivi>, u: Seq<Option<u64>>, confortable: bool, t: u64, delai: u64, x: SwapSuivi) -> bool {
    exists|i: int|
        0 <= i < s.len() && x == apres_controle(#[trigger] s[i], u[i], t) && !a_liberer(s[i], u[i], confortable, t, delai)
}

proof fn lemme_parmi_suite(s: Seq<SwapSuivi>, u: Seq<Option<u64>>, confortable: bool, t: u64, delai: u64, x: SwapSuivi)
    requires
        s.len() > 0,
        u.len() == s.len(),
    ensures
        libere_parmi(s.drop_first(), u.drop_first(), confortable, t, delai, x) ==> libere_parmi(s, u, confortable, t, delai, x),
        garde_parmi(s.drop_first(), u.drop_first(), confortable, t, delai, x) ==> garde_parmi(s, u, confortable, t, delai, x),
{
    let s2 = s.drop_first();
    let u2 = u.drop_first();
    if libere_parmi(s2, u2, confortable, t, delai, x) {
        let i = choose|i: int| 0 <= i < s2.len() && #[trigger] s2[i] == x && a_liberer(s2[i], u2[i], confortable, t, delai);
        assert(s[i + 1] == s2[i] && u[i + 1] == u2[i]);
    }
    if garde_parmi(s2, u2, confortable, t, delai, x) {
        let i = choose|i: int|
            0 <= i < s2.len() && x == apres_controle(#[trigger] s2[i], u2[i], t) && !a_liberer(s2[i], u2[i], confortable, t, delai);
        assert(s[i + 1] == s2[i] && u[i + 1] == u2[i]);
    }
}

/// A check of the watched spaces parts them: each is either released, as it
/// was, or kept, updated; none is lost and none is added.
pub proof fn loi_partage_controle(s: Seq<SwapSuivi>, u: Seq<Option<u64>>, confortable: bool, t: u64, delai: u64)
    requires
        u.len() == s.len(),
    ensures
        liberes(s, u, confortable, t, delai).len() + gardes(s, u, confortable, t, delai).len() == s.len(),
        forall|k: int|
            0 <= k < liberes(s, u, confortable, t, delai).len() ==> libere_parmi(
                s,
                u,
                confortable,
                t,
                delai,
                #[trigger] liberes(s, u, confortable, t, delai)[k],
            ),
        forall|k: int|
            0 <= k < gardes(s, u, confortable, t, delai).len() ==> garde_parmi(
                s,
                u,
                confortable,
                t,
                delai,
                #[trigger] gardes(s, u, confortable, t, delai)[k],
            ),
    decreases s.len(),
{
    if s.len() > 0 {
        let s2 = s.drop_first();
        let u2 = u.drop_first();
        loi_partage_controle(s2, u2, confortable, t, delai);
        let l2 = liberes(s2, u2, confortable, t, delai);
        let g2 = gardes(s2, u2, confortable, t, delai);
        let l = liberes(s, u, confortable, t, delai);
        let g = gardes(s, u, confortable, t, delai);
        assert(s[0] == s[0]);
        if a_liberer(s[0], u[0], confortable, t, delai) {
            assert(l == l2.push(s[0]));
            assert(g == g2);
        } else {
            assert(l == l2);
            assert(g == seq![apres_controle(s[0], u[0], t)] + g2);
        }
        assert forall|k: int| 0 <= k < l.len() implies libere_parmi(s, u, confortable, t, delai, #[trigger] l[k]) by {
            if k < l2.len() {
                assert(l[k] == l2[k]);
                lemme_parmi_suite(s, u, confortable, t, delai, l2[k]);
            }
        }
        assert forall|k: int| 0 <= k < g.len() implies garde_parmi(s, u, confortable, t, delai, #[trigger] g[k]) by {
            if a_liberer(s[0], u[0], confortable, t, delai) {
                lemme_parmi_suite(s, u, confortable, t, delai, g2[k]);
            } else if k > 0 {
                assert(g[k] == g2[k - 1]);
                lemme_parmi_suite(s, u, confortable, t, delai, g2[k - 1]);
            }
        }
    }
}

/// The number of offers still free.
pub open spec fn libres(u: Seq<bool>) -> nat
    decreases u.len(),
{
    if u.len() == 0 {
        0
    } else {
        libres(u.drop_last()) + if u.last() {
            0nat
        } else {
            1nat
        }
    }
}

proof fn lemme_libres_prise(u: Seq<bool>, i: int)
    requires
        0 <= i < u.len(),
        !u[i],
    ensures
        libres(u.update(i, true)) + 1 == libres(u),
    decreases u.len(),
{
    if i < u.len() - 1 {
        lemme_libres_prise(u.drop_last(), i);
        assert(u.update(i, true).drop_last() == u.drop_last().update(i, true));
    } else {
        assert(u.update(i, true).drop_last() == u.drop_last());
    }
}

proof fn lemme_premiere_offre_trouvee(o: Seq<(Seq<char>, u64)>, u: Seq<bool>, seuil: int, i: int)
    requires
        0 <= i,
    ensures
        premiere_offre(o, u, seuil, i) matches Some(j) ==> i <= j < o.len() && !u[j] && o[j].1 >= seuil,
    decreases o.len() - i,
{
    if i < o.len() && !(!u[i] && o[i].1 >= seuil) {
        lemme_premiere_offre_trouvee(o, u, seuil, i + 1);
    }
}

/// The offer `(noeud, taille)` was matched with a free offer of `o` (`u[i]`
/// false) from `noeud` that holds `taille` plus `marge_donneur`.
pub open spec fn couverte(o: Seq<(Seq<char>, u64)>, u: Seq<bool>, marge_donneur: u64, m: (Seq<char>, u64)) -> bool {
    exists|i: int| 0 <= i < o.len() && !u[i] && #[trigger] o[i].0 == m.0 && o[i].1 >= m.1 + marge_donneur
}

/// Matching needs with offers: there are no more matches than needs, nor than
/// free offers; each match leaves its donor `marge_donneur` MB, no swap is
/// larger than 4096 MB plus `marge_swap`, and when no node offers twice, no
/// node is the donor of two matches (each offer serves at most one need).
pub proof fn loi_appariement(b: Seq<u64>, o: Seq<(Seq<char>, u64)>, u: Seq<bool>, marge_donneur: u64, marge_swap: u64)
    requires
        u.len() == o.len(),
        forall|j: int| 0 <= j < b.len() ==> plafonne(#[trigger] b[j]) + marge_swap <= u64::MAX,
    ensures
        appariement(b, o, u, marge_donneur, marge_swap).len() <= b.len(),
        appariement(b, o, u, marge_donneur, marge_swap).len() <= libres(u),
        forall|k: int|
            0 <= k < appariement(b, o, u, marge_donneur, marge_swap).len() ==> couverte(
                o,
                u,
                marge_donneur,
                #[trigger] appariement(b, o, u, marge_donneur, marge_swap)[k],
            ) && appariement(b, o, u, marge_donneur, marge_swap)[k].1 <= 4096 + marge_swap,
        noeuds_distincts(o) ==> forall|k1: int, k2: int|
            0 <= k1 < k2 < appariement(b, o, u, marge_donneur, marge_swap).len() ==> (#[trigger] appariement(
                b,
                o,
                u,
                marge_donneur,
                marge_swap,
            )[k1]).0 != (#[trigger] appariement(b, o, u, marge_donneur, marge_swap)[k2]).0,
    decreases b.len(),
{
    if b.len() > 0 {
        let b2 = b.drop_first();
        assert forall|j: int| 0 <= j < b2.len() implies plafonne(#[trigger] b2[j]) + marge_swap <= u64::MAX by {
            assert(b2[j] == b[j + 1]);
        }
        let taille = plafonne(b[0]) + marge_swap;
        let r = appariement(b, o, u, marge_donneur, marge_swap);
        lemme_premiere_offre_trouvee(o, u, taille + marge_donneur, 0);
        match premiere_offre(o, u, taille + marge_donneur, 0) {
            Some(i) => {
                let u2 = u.update(i, true);
                loi_appariement(b2, o, u2, marge_donneur, marge_swap);
                lemme_libres_prise(u, i);
                let r2 = appariement(b2, o, u2, marge_donneur, marge_swap);
                assert(r == seq![(o[i].0, taille as u64)] + r2);
                assert forall|k: int| 0 <= k < r.len() implies couverte(o, u, marge_donneur, #[trigger] r[k])
                    && r[k].1 <= 4096 + marge_swap by {
                    if k == 0 {
                        assert(o[i].0 == r[0].0);
                    } else {
                        assert(r[k] == r2[k - 1]);
                        assert(couverte(o, u2, marge_donneur, r2[k - 1]));
                        let w = choose|w: int|
                            0 <= w < o.len() && !u2[w] && #[trigger] o[w].0 == r2[k - 1].0 && o[w].1 >= r2[k - 1].1
                                + marge_donneur;
                        assert(o[w].0 == r[k].0);
                    }
                }
                if noeuds_distincts(o) {
                    assert forall|k1: int, k2: int| 0 <= k1 < k2 < r.len() implies (#[trigger] r[k1]).0 != (
                    #[trigger] r[k2]).0 by {
                        assert(r[k2] == r2[k2 - 1]);
                        if k1 == 0 {
                            assert(couverte(o, u2, marge_donneur, r2[k2 - 1]));
                            let w = choose|w: int|
                                0 <= w < o.len() && !u2[w] && #[trigger] o[w].0 == r2[k2 - 1].0 && o[w].1 >= r2[k2
                                    - 1].1 + marge_donneur;
                            assert(w != i);
                            assert(r[0].0 == o[i].0);
                            if w < i {
                                assert(o[w].0 != o[i].0);
                            } else {
                                assert(o[i].0 != o[w].0);
                            }
                        } else {
                            assert(r[k1] == r2[k1 - 1]);
                        }
                    }
                }
            },
            None => {
                loi_appariement(b2, o, u, marge_donneur, marge_swap);
            },
        }
    }
}

/// The parameters that a receiver sends with `creer_swap` are read back by
/// the donor as they were written.
pub proof fn loi_echange_creer_swap(taille_mb: u64, ip: Seq<char>, port_rpc: u16)
    ensures
        en_u64(champ_json(params_creer_swap(taille_mb, ip, port_rpc), "taille_mb"@)) == Some(taille_mb),
        texte_ou_vide(params_creer_swap(taille_mb, ip, port_rpc), "receveur_ip"@) == ip,
        en_u64(champ_json(params_creer_swap(taille_mb, ip, port_rpc), "receveur_port_rpc"@)) == Some(port_rpc as u64),
        (port_rpc as u64) as u16 == port_rpc,
{
    reveal_strlit("taille_mb");
    reveal_strlit("receveur_ip");
    reveal_strlit("receveur_port_rpc");
    let v = seq![
        ("taille_mb"@, JsonVue::Entier(taille_mb)),
        ("receveur_ip"@, JsonVue::Texte(ip)),
        ("receveur_port_rpc"@, JsonVue::Entier(port_rpc as u64)),
    ];
    assert(params_creer_swap(taille_mb, ip, port_rpc) == JsonVue::Objet(v));
    assert("taille_mb"@.len() != "receveur_ip"@.len());
    assert("taille_mb"@.len() != "receveur_port_rpc"@.len());
    assert("receveur_ip"@.len() != "receveur_port_rpc"@.len());
    assert(v.drop_first() == seq![("receveur_ip"@, JsonVue::Texte(ip)), ("receveur_port_rpc"@, JsonVue::Entier(port_rpc as u64))]);
    assert(v.drop_first().drop_first() == seq![("receveur_port_rpc"@, JsonVue::Entier(port_rpc as u64))]);
    assert(chercher_cle(v, "receveur_ip"@) == chercher_cle(v.drop_first(), "receveur_ip"@));
    assert(chercher_cle(v, "receveur_port_rpc"@) == chercher_cle(v.drop_first(), "receveur_port_rpc"@));
    assert(chercher_cle(v.drop_first(), "receveur_port_rpc"@) == chercher_cle(v.drop_first().drop_first(), "receveur_port_rpc"@));
}

/// The identifier that `liberer_swap` carries is read back as written.
pub proof fn loi_echange_liberation(swap_id: Seq<char>)
    ensures
        en_texte(champ_json(params_liberation(swap_id), "swap_id"@)) == Some(swap_id),
{
}

/// A donor's answer to `creer_swap` gives the receiver the port and the
/// identifier that the donor wrote.
pub proof fn loi_echange_swap_cree(resp: RpcResponse, port: u16, swap_id: Seq<char>)
    requires
        resp.result matches Some(j) && j.vue() == resultat_swap_cree(port, swap_id),
    ensures
        lecture_reponse_swap(resp) == Ok::<(u16, Seq<char>), Seq<char>>((port, swap_id)),
{
    reveal_strlit("port_nbd");
    reveal_strlit("swap_id");
    let v = seq![("port_nbd"@, JsonVue::Entier(port as u64)), ("swap_id"@, JsonVue::Texte(swap_id))];
    assert(resultat_swap_cree(port, swap_id) == JsonVue::Objet(v));
    assert("port_nbd"@.len() != "swap_id"@.len());
    assert(v.drop_first() == seq![("swap_id"@, JsonVue::Texte(swap_id))]);
    assert(chercher_cle(v, "swap_id"@) == chercher_cle(v.drop_first(), "swap_id"@));
    assert((port as u64) as u16 == port);
}

/// A peer's answer to `ram_available` gives the MB that it wrote.
pub proof fn loi_echange_ram(resp: RpcResponse, mb: u64)
    requires
        resp.result matches Some(j) && j.vue() == resultat_ram(mb),
    ensures
        lecture_reponse_ram(resp) == Ok::<u64, Seq<char>>(mb),
{
}

/// A receiver's answer to `ram_saturee` tells the donor what it wrote.
pub proof fn loi_echange_saturee(resp: RpcResponse, saturee: bool)
    requires
        resp.result matches Some(j) && j.vue() == resultat_saturee(saturee),
    ensures
        toujours_saturee(Ok(resp)) == saturee,
{
}

/// A refusal (an answer with an error and no result) is read as its message,
/// whatever was asked.
pub proof fn loi_echange_refus(resp: RpcResponse)
    requires
        resp.result is None,
        resp.error is Some,
    ensures
        lecture_reponse_swap(resp) == Err::<(u16, Seq<char>), Seq<char>>(resp.error->0.message@),
        lecture_reponse_ram(resp) == Err::<u64, Seq<char>>(resp.error->0.message@),
        !toujours_saturee(Ok(resp)),
{
}

/// Once a watched space is due, it stays due.
pub proof fn loi_echeance_monotone(debut: u64, t1: u64, t2: u64, delai_secs: u64)
    requires
        t1 <= t2,
        delai_ecoule(debut, t1, delai_secs),
    ensures
        delai_ecoule(debut, t2, delai_secs),
{
}

/// Later, no fewer watched spaces are due.
pub proof fn loi_dus_croissants(s: Seq<SwapDonneurSuivi>, delai_secs: u64, t1: u64, t2: u64)
    requires
        t1 <= t2,
    ensures
        dus(s, delai_secs, t1).len() <= dus(s, delai_secs, t2).len() <= s.len(),
    decreases s.len(),
{
    if s.len() > 0 {
        loi_dus_croissants(s.drop_last(), delai_secs, t1, t2);
    }
}

/// A space put under watch with a fresh identifier is the one that a release
/// by that identifier takes out, and the watch is then as before; with a
/// delay, it is not due at the instant it was put under watch.
pub proof fn loi_suivi_ajout_retrait(s: Seq<SwapDonneurSuivi>, x: SwapDonneurSuivi, delai_secs: u64)
    requires
        forall|j: int| 0 <= j < s.len() ==> (#[trigger] s[j]).expose.swap_id@ != x.expose.swap_id@,
    ensures
        premier_suivi(s.push(x), x.expose.swap_id@) == Some(s.len() as int),
        s.push(x).remove(s.len() as int) == s,
        delai_secs > 0 ==> dus(s.push(x), delai_secs, x.cree_a) == dus(s, delai_secs, x.cree_a),
{
    let t = s.push(x);
    let id = x.expose.swap_id@;
    assert(t[s.len() as int] == x);
    assert forall|j: int| 0 <= j < s.len() implies (#[trigger] t[j]).expose.swap_id@ != id by {
        assert(t[j] == s[j]);
    }
    let w = choose|i: int|
        0 <= i < t.len() && (#[trigger] t[i]).expose.swap_id@ == id && (forall|j: int|
            0 <= j < i ==> (#[trigger] t[j]).expose.swap_id@ != id);
    if w < s.len() {
        assert(t[w] == s[w]);
    }
    assert(t.remove(s.len() as int) =~= s);
    assert(t.drop_last() == s);
}

/// A release asked for a space that the donor exposed and watches stops the
/// server on the port it was exposed on.
pub proof fn loi_liberation_arrete_serveur(s: Seq<SwapDonneurSuivi>, x: SwapDonneurSuivi)
    requires
        forall|j: int| 0 <= j < s.len() ==> (#[trigger] s[j]).expose.swap_id@ != x.expose.swap_id@,
    ensures
        DonneurWatcher::port_a_arreter(s.push(x), x.expose.swap_id@) == Some(x.expose.port_nbd),
{
    loi_suivi_ajout_retrait(s, x, 0);
    assert(s.push(x)[s.len() as int] == x);
}

/// A space added to the local swap with a fresh identifier is the one that a
/// removal by that identifier takes out; the total grows by its size, so an
/// addition that the limit allows keeps the total within it.
pub proof fn loi_blocs_ajout_retrait(b: Seq<SwapBlock>, x: SwapBlock, max_total_mb: u64)
    requires
        forall|j: int| 0 <= j < b.len() ==> (#[trigger] b[j]).id@ != x.id@,
    ensures
        position_bloc(b.push(x), x.id@) == Some(b.len() as int),
        b.push(x).remove(b.len() as int) == b,
        somme_tailles(b.push(x)) == somme_tailles(b) + x.taille_mb,
        somme_tailles(b) + x.taille_mb <= max_total_mb ==> somme_tailles(b.push(x)) <= max_total_mb,
{
    let t = b.push(x);
    let id = x.id@;
    assert(t[b.len() as int] == x);
    assert forall|j: int| 0 <= j < b.len() implies (#[trigger] t[j]).id@ != id by {
        assert(t[j] == b[j]);
    }
    let w = choose|i: int|
        0 <= i < t.len() && (#[trigger] t[i]).id@ == id && (forall|j: int|
            0 <= j < i ==> (#[trigger] t[j]).id@ != id);
    if w < b.len() {
        assert(t[w] == b[w]);
    }
    assert(t.remove(b.len() as int) =~= b);
    assert(t.drop_last() == b);
}

/// No more spaces are active than there are spaces.
pub proof fn loi_actifs_bornes(b: Seq<SwapBlock>)
    ensures
        nombre_actifs(b) <= b.len(),
    decreases b.len(),
{
    if b.len() > 0 {
        loi_actifs_bornes(b.drop_last());
    }
}

proof fn lemme_compte_cles(s: Seq<u64>, v: u64)
    ensures
        cles(s).to_multiset().count(((), v)) == s.to_multiset().count(v),
    decreases s.len(),
{
    broadcast use vstd::seq_lib::group_to_multiset_ensures;
    broadcast use vstd::multiset::group_multiset_axioms;

    if s.len() > 0 {
        lemme_compte_cles(s.drop_last(), v);
        assert(cles(s.drop_last()) == cles(s).drop_last());
        assert(cles(s) == cles(s).drop_last().push(((), s.last())));
        assert(s == s.drop_last().push(s.last()));
    } else {
        assert(cles(s) =~= Seq::<((), u64)>::empty());
    }
}

/// The order of decreasing keys.
spec fn cle_plus_grande(x: ((), u64), y: ((), u64)) -> bool {
    x.1 >= y.1
}

/// Two lists that hold the same numbers, each as many times, sort to the same list.
pub proof fn loi_tri_permutation(s1: Seq<u64>, s2: Seq<u64>)
    requires
        s1.to_multiset() == s2.to_multiset(),
    ensures
        tri_decroissant(s1) == tri_decroissant(s2),
{
    let t1 = tri_stable(cles(s1));
    let t2 = tri_stable(cles(s2));
    loi_tri_stable(cles(s1));
    loi_tri_stable(cles(s2));
    assert forall|x: ((), u64)| cles(s1).to_multiset().count(x) == cles(s2).to_multiset().count(x) by {
        lemme_compte_cles(s1, x.1);
        lemme_compte_cles(s2, x.1);
        assert(x == ((), x.1));
    }
    assert(cles(s1).to_multiset() =~= cles(s2).to_multiset());
    let leq = |x: ((), u64), y: ((), u64)| cle_plus_grande(x, y);
    assert(vstd::relations::total_ordering(leq)) by {
        assert forall|x: ((), u64), y: ((), u64)| #[trigger] leq(x, y) && #[trigger] leq(y, x) implies x == y by {
            assert(x.1 == y.1);
        }
    }
    assert(vstd::relations::sorted_by(t1, leq));
    assert(vstd::relations::sorted_by(t2, leq));
    vstd::seq_lib::lemma_sorted_unique(t1, t2, leq);
    assert(t1 == t2);
}

/// Matching the needs with the offers does not depend on the order in which
/// the needs are listed: `apparier_offres` gives the same matches for any
/// permutation of them.
pub proof fn loi_appariement_permutation(
    b1: Seq<u64>,
    b2: Seq<u64>,
    o: Seq<(Seq<char>, u64)>,
    u: Seq<bool>,
    marge_donneur: u64,
    marge_swap: u64,
)
    requires
        b1.to_multiset() == b2.to_multiset(),
    ensures
        appariement(tri_decroissant(b1), o, u, marge_donneur, marge_swap) == appariement(
            tri_decroissant(b2),
            o,
            u,
            marge_donneur,
            marge_swap,
        ),
{
    loi_tri_permutation(b1, b2);
}

/// An addition of a space that succeeds records it at the end of the
/// manager's spaces, active and of the manager's size, with the total within
/// the limit.
pub proof fn loi_ajout_reussi(
    x: AjoutBloc,
    r: Action,
    m0: crate::manager::SwapManager,
    m1: crate::manager::SwapManager,
    etape: EtapeActivation,
    priorite: i32,
    b: SwapBlock,
    ev: Evenement,
)
    requires
        pas_activation(x, r, m0, m1, etape, priorite, b, ev),
        r.vue() == ActionVue::Reussir,
        b.taille_mb == m0.taille_bloc_mb,
        !(etape is Fini),
    ensures
        m1.blocs@ == m0.blocs@.push(x.bloc),
        x.bloc.etat is Actif,
        x.bloc.taille_mb == m1.taille_bloc_mb,
        somme_tailles(m1.blocs@) <= m1.max_total_swap_mb,
{
    assert(m1.blocs@.drop_last() == m0.blocs@);
}

// ---------------------------------------------------------------------------
// Choosing the donor
// ---------------------------------------------------------------------------
/// The offer `j` is free and holds `seuil` MB.
pub open spec fn convient(o: Seq<(Seq<char>, u64)>, u: Seq<bool>, seuil: int, j: int) -> bool {
    !u[j] && o[j].1 >= seuil
}

/// The search of a free offer from position `i` on gives the first free
/// offer there that holds `seuil` MB, and nothing when none does.
pub proof fn loi_premiere_offre(o: Seq<(Seq<char>, u64)>, u: Seq<bool>, seuil: int, i: int)
    requires
        0 <= i,
    ensures
        match premiere_offre(o, u, seuil, i) {
            Some(k) => i <= k < o.len() && convient(o, u, seuil, k) && forall|j: int|
                i <= j < k ==> !#[trigger] convient(o, u, seuil, j),
            None => forall|j: int| i <= j < o.len() ==> !#[trigger] convient(o, u, seuil, j),
        },
    decreases o.len() - i,
{
    if i < o.len() {
        loi_premiere_offre(o, u, seuil, i + 1);
    }
}

/// The first need (the largest, the needs being sorted) is served by the
/// offer with the most MB among those that hold its swap plus the donor's
/// margin — the first of them in the decreasing order of offers — and is
/// skipped when no offer holds it.
pub proof fn loi_donneur_le_plus_riche(b: Seq<u64>, offres: Seq<(Seq<char>, u64)>, marge_donneur: u64, marge_swap: u64)
    requires
        b.len() > 0,
        plafonne(b[0]) + marge_swap <= u64::MAX,
    ensures
        ({
            let o = tri_stable(offres);
            let u = Seq::new(offres.len(), |i: int| false);
            let seuil = plafonne(b[0]) + marge_swap + marge_donneur;
            let r = appariement(b, o, u, marge_donneur, marge_swap);
            &&& (exists|j: int| 0 <= j < offres.len() && #[trigger] offres[j].1 >= seuil) ==> (r.len() > 0 && exists|i: int|
                0 <= i < offres.len() && offres[i].1 >= seuil && r[0] == (#[trigger] offres[i].0, (plafonne(b[0])
                    + marge_swap) as u64) && forall|j: int|
                    0 <= j < offres.len() && offres[j].1 >= seuil ==> #[trigger] offres[j].1 <= offres[i].1)
            &&& !(exists|j: int| 0 <= j < offres.len() && #[trigger] offres[j].1 >= seuil) ==> r == appariement(
                b.drop_first(),
                o,
                u,
                marge_donneur,
                marge_swap,
            )
        }),
{
    broadcast use vstd::seq_lib::group_to_multiset_ensures;

    let o = tri_stable(offres);
    let u = Seq::new(offres.len(), |i: int| false);
    let seuil = plafonne(b[0]) + marge_swap + marge_donneur;
    loi_tri_stable(offres);
    assert(o.len() == offres.len()) by {
        assert(o.to_multiset().len() == offres.to_multiset().len());
    }
    loi_premiere_offre(o, u, seuil, 0);
    // each offer is one of the sorted offers, and back
    assert forall|j: int| 0 <= j < offres.len() implies exists|k: int| 0 <= k < o.len() && o[k] == #[trigger] offres[j] by {
        assert(offres.to_multiset().count(offres[j]) > 0);
        assert(o.to_multiset().count(offres[j]) > 0);
        assert(o.contains(offres[j]));
    }
    match premiere_offre(o, u, seuil, 0) {
        Some(i) => {
            assert(o.to_multiset().count(o[i]) > 0);
            assert(offres.to_multiset().count(o[i]) > 0);
            assert(offres.contains(o[i]));
            let i0 = choose|i0: int| 0 <= i0 < offres.len() && offres[i0] == o[i];
            assert forall|j: int| 0 <= j < offres.len() && offres[j].1 >= seuil implies #[trigger] offres[j].1
                <= offres[i0].1 by {
                let k = choose|k: int| 0 <= k < o.len() && o[k] == #[trigger] offres[j];
                assert(convient(o, u, seuil, k));
                if k < i {
                    assert(!convient(o, u, seuil, k));
                }
                if k > i {
                    assert(o[i].1 >= o[k].1);
                }
            }
            assert(offres[i0].1 >= seuil);
        },
        None => {
            assert forall|j: int| 0 <= j < offres.len() implies !(#[trigger] offres[j].1 >= seuil) by {
                let k = choose|k: int| 0 <= k < o.len() && o[k] == #[trigger] offres[j];
                assert(!convient(o, u, seuil, k));
            }
        },
    }
}

// ---------------------------------------------------------------------------
// Releasing a remote space
// ---------------------------------------------------------------------------
/// A space whose use is 0 kB is released only once it has been seen empty
/// for the whole delay (`delai` seconds, in milliseconds of the clock),
/// whether memory is comfortable or not; a space in use with 1024 kB or more
/// is never released, and one that `/proc/swaps` does not list is not either.
pub proof fn loi_liberation_apres_le_delai(s: SwapSuivi, confortable: bool, t: u64, delai: u64, kb: u64)
    ensures
        a_liberer(s, Some(0u64), confortable, t, delai) ==> (s.vide_depuis matches Some(d) && (t >= d ==> t - d >= delai
            * 1000) && (t < d ==> delai == 0)),
        (s.vide_depuis matches Some(d) && t >= d && t - d >= delai * 1000) ==> a_liberer(s, Some(0u64), confortable, t, delai),
        a_liberer(s, Some(0u64), true, t, delai) == a_liberer(s, Some(0u64), false, t, delai),
        kb >= 1024 ==> !a_liberer(s, Some(kb), confortable, t, delai),
        kb > 0 && !confortable ==> !a_liberer(s, Some(kb), confortable, t, delai),
        !a_liberer(s, None, confortable, t, delai),
{
}

/// Why a space with the use `usage` may be released at `t`: listed in
/// `/proc/swaps`, and either empty since an instant at least `delai` seconds
/// before `t`, or in use with less than 1024 kB while memory is comfortable.
pub open spec fn liberation_justifiee(x: SwapSuivi, usage: Option<u64>, confortable: bool, t: u64, delai: u64) -> bool {
    match usage {
        None => false,
        Some(v) => if v == 0 {
            match x.vide_depuis {
                Some(d) => (t >= d ==> t - d >= delai * 1000) && (t < d ==> delai == 0),
                None => false,
            }
        } else {
            confortable && v < 1024
        },
    }
}

/// Every space that a check releases is one of the watched spaces, released
/// for a reason (see `liberation_justifiee`).
pub proof fn loi_liberes_justifies(s: Seq<SwapSuivi>, u: Seq<Option<u64>>, confortable: bool, t: u64, delai: u64)
    requires
        u.len() == s.len(),
    ensures
        forall|k: int|
            0 <= k < liberes(s, u, confortable, t, delai).len() ==> exists|i: int|
                #![trigger s[i]]
                0 <= i < s.len() && s[i] == #[trigger] liberes(s, u, confortable, t, delai)[k] && liberation_justifiee(
                    s[i],
                    u[i],
                    confortable,
                    t,
                    delai,
                ),
{
    loi_partage_controle(s, u, confortable, t, delai);
    assert forall|k: int| 0 <= k < liberes(s, u, confortable, t, delai).len() implies exists|i: int|
        #![trigger s[i]]
        0 <= i < s.len() && s[i] == #[trigger] liberes(s, u, confortable, t, delai)[k] && liberation_justifiee(
            s[i],
            u[i],
            confortable,
            t,
            delai,
        ) by {
        let x = liberes(s, u, confortable, t, delai)[k];
        assert(libere_parmi(s, u, confortable, t, delai, x));
        let i = choose|i: int| 0 <= i < s.len() && #[trigger] s[i] == x && a_liberer(s[i], u[i], confortable, t, delai);
        loi_liberation_apres_le_delai(s[i], confortable, t, delai, 0);
        assert(liberation_justifiee(s[i], u[i], confortable, t, delai));
    }
}

// ---------------------------------------------------------------------------
// Exposing a space
// ---------------------------------------------------------------------------
/// The steps that an exposure asks for, given what came of each step in turn.
pub open spec fn actions_exposition(x: Exposition, evs: Seq<Evenement>) -> Seq<ActionVue>
    decreases evs.len(),
{
    if evs.len() == 0 {
        Seq::empty()
    } else {
        let (e, a) = prochaine_exposition(x, evs[0]);
        seq![a] + actions_exposition(Exposition { etape: e, ..x }, evs.drop_first())
    }
}

/// One step asked for each result handed back.
pub proof fn lemme_longueur_actions(x: Exposition, evs: Seq<Evenement>)
    ensures
        actions_exposition(x, evs).len() == evs.len(),
    decreases evs.len(),
{
    if evs.len() > 0 {
        let (e, a) = prochaine_exposition(x, evs[0]);
        lemme_longueur_actions(Exposition { etape: e, ..x }, evs.drop_first());
    }
}

/// A finished exposure asks for nothing more and never succeeds again.
pub proof fn loi_exposition_finie(x: Exposition, evs: Seq<Evenement>)
    requires
        x.etape is Fini,
    ensures
        forall|k: int| 0 <= k < evs.len() ==> (#[trigger] actions_exposition(x, evs)[k]) is Echouer,
    decreases evs.len(),
{
    if evs.len() > 0 {
        let x2 = Exposition { etape: EtapeExposition::Fini, ..x };
        loi_exposition_finie(x2, evs.drop_first());
        lemme_longueur_actions(x2, evs.drop_first());
        assert(actions_exposition(x, evs) == seq![ActionVue::Echouer(Seq::empty())] + actions_exposition(x2, evs.drop_first()));
        assert forall|k: int| 0 <= k < evs.len() implies (#[trigger] actions_exposition(x, evs)[k]) is Echouer by {
            if k > 0 {
                assert(actions_exposition(x, evs)[k] == actions_exposition(x2, evs.drop_first())[k - 1]);
            }
        }
    }
}

/// An exposure whose directory, tmpfs mount, swap file, configuration
/// directory, configuration or server start fails ends at once, with the
/// failing step's error (for `mount`, `dd` and `nbd-server`, the command's
/// error), and never succeeds afterwards; it succeeds only once the
/// listening sockets show its port.
pub proof fn loi_exposition_echec(x: Exposition, ev: Evenement, suite: Seq<Evenement>)
    ensures
        ((x.etape is Dossier || x.etape is Montage || x.etape is Remplissage || x.etape is DossierConfig
            || x.etape is Config || x.etape is Lancement) && !(ev is Reussite)) ==> (prochaine_exposition(x, ev).0 is Fini
            && prochaine_exposition(x, ev).1 is Echouer && forall|k: int|
            0 <= k < suite.len() + 1 ==> !((#[trigger] actions_exposition(x, seq![ev] + suite)[k]) is Reussir)),
        (x.etape is Montage && !(ev is Reussite)) ==> prochaine_exposition(x, ev).1 == ActionVue::Echouer(
            erreur_run("mount"@, ev),
        ),
        (x.etape is Remplissage && !(ev is Reussite)) ==> prochaine_exposition(x, ev).1 == ActionVue::Echouer(
            erreur_run("dd"@, ev),
        ),
        (x.etape is Lancement && !(ev is Reussite)) ==> prochaine_exposition(x, ev).1 == ActionVue::Echouer(
            erreur_run("nbd-server"@, ev),
        ),
        prochaine_exposition(x, ev).1 is Reussir ==> x.etape is Controle && (ev matches Evenement::Reussite(s)
            && contient(s@, ":"@ + decimal(x.port as nat))),
{
    if (x.etape is Dossier || x.etape is Montage || x.etape is Remplissage || x.etape is DossierConfig || x.etape is Config
        || x.etape is Lancement) && !(ev is Reussite) {
        let evs = seq![ev] + suite;
        let x2 = Exposition { etape: EtapeExposition::Fini, ..x };
        assert(evs[0] == ev);
        assert(evs.drop_first() == suite);
        loi_exposition_finie(x2, suite);
        lemme_longueur_actions(x2, suite);
        assert(actions_exposition(x, evs) == seq![prochaine_exposition(x, ev).1] + actions_exposition(x2, suite));
        assert forall|k: int| 0 <= k < suite.len() + 1 implies !((#[trigger] actions_exposition(x, evs)[k]) is Reussir) by {
            if k > 0 {
                assert(actions_exposition(x, evs)[k] == actions_exposition(x2, suite)[k - 1]);
            }
        }
    }
}

// ---------------------------------------------------------------------------
// The donor's due spaces
// ---------------------------------------------------------------------------
/// The due spaces are the watched spaces whose delay has passed, in their
/// order, each once, each given by its own identifier, receiver and port.
pub proof fn loi_dus_filtre(s: Seq<SwapDonneurSuivi>, delai_secs: u64, t: u64)
    ensures
        dus(s, delai_secs, t) == s.filter(|x: SwapDonneurSuivi| delai_ecoule(x.cree_a, t, delai_secs)).map_values(
            |x: SwapDonneurSuivi| (x.expose.swap_id@, x.receveur_ip@, x.receveur_port_rpc),
        ),
    decreases s.len(),
{
    reveal(Seq::filter);
    let p = |x: SwapDonneurSuivi| delai_ecoule(x.cree_a, t, delai_secs);
    let f = |x: SwapDonneurSuivi| (x.expose.swap_id@, x.receveur_ip@, x.receveur_port_rpc);
    if s.len() == 0 {
        assert(s.filter(p).map_values(f) =~= Seq::empty());
    } else {
        loi_dus_filtre(s.drop_last(), delai_secs, t);
        let sub = s.drop_last().filter(p);
        if p(s.last()) {
            assert(s.filter(p) == sub.push(s.last()));
            assert(sub.push(s.last()).map_values(f) =~= sub.map_values(f).push(f(s.last())));
        } else {
            assert(s.filter(p) == sub);
        }
    }
}

// ---------------------------------------------------------------------------
// The memory report
// ---------------------------------------------------------------------------
/// Each counter of the memory report is the value of its own field of
/// `/proc/meminfo`; the memory in use is the total less the free memory, the
/// buffers and the cache; the swap in use is the total swap less the free
/// swap; the report is refused exactly when one of these would go below zero;
/// and memory is saturated (above 80 %) from these fields alone.
pub proof fn loi_meminfo_champs(c: Seq<char>)
    ensures
        meminfo_de(c) is None <==> (valeur_champ(c, "MemFree"@) + valeur_champ(c, "Buffers"@) + valeur_champ(c, "Cached"@)
            > valeur_champ(c, "MemTotal"@) || valeur_champ(c, "SwapFree"@) > valeur_champ(c, "SwapTotal"@)),
        meminfo_de(c) matches Some(m) ==> {
            &&& m.total_kb == valeur_champ(c, "MemTotal"@)
            &&& m.free_kb == valeur_champ(c, "MemFree"@)
            &&& m.available_kb == valeur_champ(c, "MemAvailable"@)
            &&& m.buffers_kb == valeur_champ(c, "Buffers"@)
            &&& m.cached_kb == valeur_champ(c, "Cached"@)
            &&& m.swap_total_kb == valeur_champ(c, "SwapTotal"@)
            &&& m.swap_free_kb == valeur_champ(c, "SwapFree"@)
            &&& m.used_kb + valeur_champ(c, "MemFree"@) + valeur_champ(c, "Buffers"@) + valeur_champ(c, "Cached"@)
                == valeur_champ(c, "MemTotal"@)
            &&& m.swap_used_kb + valeur_champ(c, "SwapFree"@) == valeur_champ(c, "SwapTotal"@)
            &&& au_dessus(m, 80) <==> (valeur_champ(c, "MemTotal"@) > 0 && (valeur_champ(c, "MemTotal"@) - valeur_champ(
                c,
                "MemFree"@,
            ) - valeur_champ(c, "Buffers"@) - valeur_champ(c, "Cached"@)) * 100 > 80 * valeur_champ(c, "MemTotal"@))
        },
{
}

} // verus!
