//! Choosing donors: offers of free memory (a node and its free MB) and needs
//! of memory (MB missing on the local VMs) are matched one to one.
use vstd::prelude::*;
use crate::agent::Agent;

verus! {

/// The content of a list of offers: each node's name and its free MB.
pub open spec fn vue_offres(v: Seq<(String, u64)>) -> Seq<(Seq<char>, u64)> {
    Seq::new(v.len(), |i: int| (v[i].0@, v[i].1))
}

/// No node appears twice in a list of offers (what a map from node to MB keeps).
pub open spec fn noeuds_distincts(o: Seq<(Seq<char>, u64)>) -> bool {
    forall|i: int, j: int| 0 <= i < j < o.len() ==> (#[trigger] o[i]).0 != (#[trigger] o[j]).0
}

/// Where `ip` stands in a list of offers, if it does.
pub open spec fn position_offre(o: Seq<(Seq<char>, u64)>, ip: Seq<char>) -> Option<int> {
    if exists|i: int| 0 <= i < o.len() && (#[trigger] o[i]).0 == ip {
        Some(choose|i: int| 0 <= i < o.len() && (#[trigger] o[i]).0 == ip)
    } else {
        None
    }
}

/// Records that `ip` offers `mb` MB, as a map from node to MB does: the
/// node's offer is replaced where it has one, else added at the end.
pub fn inserer_offre(offres: &mut Vec<(String, u64)>, ip: &str, mb: u64)
    requires
        noeuds_distincts(vue_offres(old(offres)@)),
    ensures
        noeuds_distincts(vue_offres(final(offres)@)),
        match position_offre(vue_offres(old(offres)@), ip@) {
            Some(p) => vue_offres(final(offres)@) == vue_offres(old(offres)@).update(p, (ip@, mb)),
            None => vue_offres(final(offres)@) == vue_offres(old(offres)@).push((ip@, mb)),
        },
{
    let ghost o = vue_offres(offres@);
    let mut i: usize = 0;
    while i < offres.len()
        invariant
            i <= offres.len(),
            offres@ == old(offres)@,
            o == vue_offres(offres@),
            noeuds_distincts(o),
            forall|j: int| 0 <= j < i ==> (#[trigger] o[j]).0 != ip@,
        decreases offres.len() - i,
    {
        if crate::texte::meme_texte(offres[i].0.as_str(), ip) {
            let nom = offres[i].0.clone();
            offres.set(i, (nom, mb));
            proof {
                assert(o[i as int].0 == ip@);
                let w = choose|w: int| 0 <= w < o.len() && (#[trigger] o[w]).0 == ip@;
                if w != i {
                    if w < i {
                        assert(o[w].0 != ip@);
                    } else {
                        assert(o[i as int].0 != o[w].0);
                    }
                }
                assert(vue_offres(offres@) =~= o.update(i as int, (ip@, mb)));
            }
            return;
        }
        i += 1;
    }
    offres.push((String::from_str(ip), mb));
    proof {
        assert(vue_offres(offres@) =~= o.push((ip@, mb)));
        assert(position_offre(o, ip@) is None);
    }
}

// ---------------------------------------------------------------------------
// Sorting in decreasing order
// ---------------------------------------------------------------------------
/// Where an insertion keeps a list in decreasing order of keys, after the
/// entries whose key is at least `k`.
pub open spec fn rang_insertion<A>(t: Seq<(A, u64)>, k: u64) -> nat
    decreases t.len(),
{
    if t.len() == 0 || t[0].1 < k {
        0
    } else {
        1 + rang_insertion(t.drop_first(), k)
    }
}

pub proof fn lemme_rang_insertion<A>(t: Seq<(A, u64)>, k: u64)
    ensures
        rang_insertion(t, k) <= t.len(),
        forall|j: int| 0 <= j < rang_insertion(t, k) ==> (#[trigger] t[j]).1 >= k,
        rang_insertion(t, k) < t.len() ==> t[rang_insertion(t, k) as int].1 < k,
    decreases t.len(),
{
    if t.len() > 0 && t[0].1 >= k {
        let u = t.drop_first();
        lemme_rang_insertion(u, k);
        assert forall|j: int| 0 <= j < rang_insertion(t, k) implies (#[trigger] t[j]).1 >= k by {
            if j > 0 {
                assert(t[j] == u[j - 1]);
            }
        }
    }
}

proof fn lemme_rang_unique<A>(t: Seq<(A, u64)>, k: u64, p: int)
    requires
        0 <= p <= t.len(),
        forall|j: int| 0 <= j < p ==> (#[trigger] t[j]).1 >= k,
        p == t.len() || t[p].1 < k,
    ensures
        rang_insertion(t, k) == p,
    decreases p,
{
    if p > 0 {
        let u = t.drop_first();
        assert forall|j: int| 0 <= j < p - 1 implies (#[trigger] u[j]).1 >= k by {
            assert(u[j] == t[j + 1]);
        }
        if p < t.len() {
            assert(u[p - 1] == t[p]);
        }
        assert(t[0].1 >= k);
        lemme_rang_unique(u, k, p - 1);
    }
}

/// The stable sort by decreasing key (`sort_by(|a, b| b.1.cmp(&a.1))`):
/// each entry, in order, goes after the entries whose key is at least its own.
pub open spec fn tri_stable<A>(s: Seq<(A, u64)>) -> Seq<(A, u64)>
    decreases s.len(),
{
    if s.len() == 0 {
        Seq::empty()
    } else {
        let t = tri_stable(s.drop_last());
        t.insert(rang_insertion(t, s.last().1) as int, s.last())
    }
}

/// The numbers of `s` paired with nothing, to sort them as keys.
pub open spec fn cles(s: Seq<u64>) -> Seq<((), u64)> {
    Seq::new(s.len(), |i: int| ((), s[i]))
}

/// `s` in decreasing order.
pub open spec fn tri_decroissant(s: Seq<u64>) -> Seq<u64> {
    let t = tri_stable(cles(s));
    Seq::new(t.len(), |i: int| t[i].1)
}

pub open spec fn decroissante<A>(t: Seq<(A, u64)>) -> bool {
    forall|i: int, j: int| 0 <= i < j < t.len() ==> (#[trigger] t[i]).1 >= (#[trigger] t[j]).1
}

/// The stable sort is in decreasing order and holds the entries of `s`, each
/// as many times as `s`.
pub proof fn loi_tri_stable<A>(s: Seq<(A, u64)>)
    ensures
        decroissante(tri_stable(s)),
        tri_stable(s).to_multiset() =~= s.to_multiset(),
    decreases s.len(),
{
    broadcast use vstd::seq_lib::group_to_multiset_ensures;

    if s.len() > 0 {
        let t = tri_stable(s.drop_last());
        loi_tri_stable(s.drop_last());
        let x = s.last();
        let p = rang_insertion(t, x.1) as int;
        lemme_rang_insertion(t, x.1);
        let r = t.insert(p, x);
        assert forall|i: int, j: int| 0 <= i < j < r.len() implies (#[trigger] r[i]).1 >= (
        #[trigger] r[j]).1 by {
            if j < p {
                assert(r[i] == t[i] && r[j] == t[j]);
            } else if j == p {
                assert(r[i] == t[i]);
            } else if i == p {
                assert(r[j] == t[j - 1]);
                if p < t.len() {
                    assert(t[p].1 < x.1);
                    assert(t[p].1 >= t[j - 1].1 || p == j - 1);
                }
            } else if i < p {
                assert(r[i] == t[i] && r[j] == t[j - 1]);
            } else {
                assert(r[i] == t[i - 1] && r[j] == t[j - 1]);
            }
        }
        vstd::seq_lib::lemma_seq_union_to_multiset_commutative(t.take(p), t.skip(p));
        assert(t == t.take(p) + t.skip(p));
        assert(r == t.take(p) + seq![x] + t.skip(p));
        assert(s == s.drop_last().push(x));
    }
}

proof fn lemme_tri_longueur<A>(s: Seq<(A, u64)>)
    ensures
        tri_stable(s).len() == s.len(),
    decreases s.len(),
{
    if s.len() > 0 {
        lemme_tri_longueur(s.drop_last());
        lemme_rang_insertion(tri_stable(s.drop_last()), s.last().1);
    }
}

/// Sorts `v` by decreasing number of MB, stably.
pub fn trier_offres(v: &Vec<(String, u64)>) -> (r: Vec<(String, u64)>)
    ensures
        vue_offres(r@) == tri_stable(vue_offres(v@)),
{
    let mut r: Vec<(String, u64)> = Vec::new();
    let mut i: usize = 0;
    while i < v.len()
        invariant
            i <= v.len(),
            vue_offres(r@) == tri_stable(vue_offres(v@).take(i as int)),
        decreases v.len() - i,
    {
        let ghost t = vue_offres(r@);
        let k = v[i].1;
        let mut p: usize = 0;
        while p < r.len() && r[p].1 >= k
            invariant
                p <= r.len(),
                t == vue_offres(r@),
                forall|j: int| 0 <= j < p ==> (#[trigger] t[j]).1 >= k,
            decreases r.len() - p,
        {
            p += 1;
        }
        proof {
            lemme_rang_unique(t, k, p as int);
        }
        let x = (v[i].0.clone(), k);
        r.insert(p, x);
        proof {
            let s = vue_offres(v@).take(i + 1);
            assert(s.drop_last() == vue_offres(v@).take(i as int));
            assert(s.last() == (v@[i as int].0@, k));
            assert(vue_offres(r@) =~= t.insert(p as int, (v@[i as int].0@, k)));
        }
        i += 1;
    }
    assert(vue_offres(v@).take(v.len() as int) == vue_offres(v@));
    r
}

/// Sorts `v` in decreasing order.
pub fn trier_decroissant(v: &[u64]) -> (r: Vec<u64>)
    ensures
        r@ == tri_decroissant(v@),
{
    let mut r: Vec<u64> = Vec::new();
    let mut i: usize = 0;
    while i < v.len()
        invariant
            i <= v.len(),
            cles(r@) == tri_stable(cles(v@).take(i as int)),
        decreases v.len() - i,
    {
        let ghost t = cles(r@);
        let k = v[i];
        let mut p: usize = 0;
        while p < r.len() && r[p] >= k
            invariant
                p <= r.len(),
                t == cles(r@),
                forall|j: int| 0 <= j < p ==> (#[trigger] t[j]).1 >= k,
            decreases r.len() - p,
        {
            p += 1;
        }
        proof {
            lemme_rang_unique(t, k, p as int);
        }
        r.insert(p, k);
        proof {
            let s = cles(v@).take(i + 1);
            assert(s.drop_last() == cles(v@).take(i as int));
            assert(s.last() == ((), k));
            assert(cles(r@) =~= t.insert(p as int, ((), k)));
        }
        i += 1;
    }
    assert(cles(v@).take(v.len() as int) == cles(v@));
    let ghost t = tri_stable(cles(v@));
    assert(r@ =~= Seq::new(t.len(), |j: int| t[j].1));
    r
}

// ---------------------------------------------------------------------------
// Matching
// ---------------------------------------------------------------------------
/// A need is served up to 4096 MB.
pub open spec fn plafonne(b: u64) -> u64 {
    if b > 4096 {
        4096
    } else {
        b
    }
}

/// The first offer from position `i` on that is still free and has at least `seuil` MB.
pub open spec fn premiere_offre(o: Seq<(Seq<char>, u64)>, u: Seq<bool>, seuil: int, i: int) -> Option<
    int,
>
    decreases o.len() - i,
{
    if i < 0 || i >= o.len() {
        None
    } else if !u[i] && o[i].1 >= seuil {
        Some(i)
    } else {
        premiere_offre(o, u, seuil, i + 1)
    }
}

/// The greedy matching: each need in turn (in the order given) takes the
/// first free offer that covers its swap (the capped need plus `marge_swap`)
/// plus `marge_donneur`; a need that finds none is skipped.
pub open spec fn appariement(
    b: Seq<u64>,
    o: Seq<(Seq<char>, u64)>,
    u: Seq<bool>,
    marge_donneur: u64,
    marge_swap: u64,
) -> Seq<(Seq<char>, u64)>
    decreases b.len(),
{
    if b.len() == 0 {
        Seq::empty()
    } else {
        let taille = plafonne(b[0]) + marge_swap;
        match premiere_offre(o, u, taille + marge_donneur, 0) {
            Some(i) => seq![(o[i].0, taille as u64)] + appariement(
                b.drop_first(),
                o,
                u.update(i, true),
                marge_donneur,
                marge_swap,
            ),
            None => appariement(b.drop_first(), o, u, marge_donneur, marge_swap),
        }
    }
}

/// Each element of `tri_decroissant(s)` is an element of `s`.
proof fn lemme_tri_elements(s: Seq<u64>)
    ensures
        tri_decroissant(s).len() == s.len(),
        forall|i: int|
            0 <= i < s.len() ==> exists|j: int| 0 <= j < s.len() && s[j] == #[trigger] tri_decroissant(s)[i],
{
    broadcast use vstd::seq_lib::group_to_multiset_ensures;

    loi_tri_stable(cles(s));
    let t = tri_stable(cles(s));
    assert(t.len() == cles(s).len()) by {
        assert(t.to_multiset().len() == cles(s).to_multiset().len());
    }
    assert forall|i: int| 0 <= i < s.len() implies exists|j: int|
        0 <= j < s.len() && s[j] == #[trigger] tri_decroissant(s)[i] by {
        assert(t.to_multiset().count(t[i]) > 0);
        assert(cles(s).to_multiset().count(t[i]) > 0);
        assert(cles(s).contains(t[i]));
        let j = choose|j: int| 0 <= j < cles(s).len() && cles(s)[j] == t[i];
        assert(s[j] == tri_decroissant(s)[i]);
    }
}


proof fn lemme_premiere_offre(o: Seq<(Seq<char>, u64)>, u: Seq<bool>, seuil: int, i: int)
    requires
        0 <= i <= o.len(),
        forall|j: int| 0 <= j < i ==> !(!u[j] && (#[trigger] o[j]).1 >= seuil),
    ensures
        premiere_offre(o, u, seuil, 0) == premiere_offre(o, u, seuil, i),
    decreases i,
{
    if i > 0 {
        lemme_premiere_offre(o, u, seuil, i - 1);
    }
}

/// The first offer of `o` still free (`!u[i]`) with at least `seuil` MB.
fn premiere_offre_exec(o: &Vec<(String, u64)>, u: &Vec<bool>, seuil: u128) -> (r: Option<usize>)
    requires
        u.len() == o.len(),
    ensures
        match r {
            Some(i) => premiere_offre(vue_offres(o@), u@, seuil as int, 0) == Some(i as int) && i
                < o.len(),
            None => premiere_offre(vue_offres(o@), u@, seuil as int, 0) is None,
        },
{
    let ghost vo = vue_offres(o@);
    let mut i: usize = 0;
    while i < o.len()
        invariant
            i <= o.len(),
            u.len() == o.len(),
            vo == vue_offres(o@),
            forall|j: int| 0 <= j < i ==> !(!u@[j] && (#[trigger] vo[j]).1 >= seuil),
        decreases o.len() - i,
    {
        if !u[i] && (o[i].1 as u128) >= seuil {
            proof {
                lemme_premiere_offre(vo, u@, seuil as int, i as int);
            }
            return Some(i);
        }
        assert(vo[i as int].1 == o@[i as int].1);
        i += 1;
    }
    proof {
        lemme_premiere_offre(vo, u@, seuil as int, i as int);
    }
    None
}

impl Agent {
    /// The offer with the most MB; among equal offers, the last one walked
    /// (what `max_by_key` keeps). `peers` lists the entries of a map from
    /// node to free MB, in the order in which the map is walked.
    pub fn choisir_offre(&self, peers: &Vec<(String, u64)>) -> (r: Option<(String, u64)>)
        ensures
            peers.len() == 0 <==> r is None,
            r matches Some((ip, mb)) ==> exists|i: int|
                0 <= i < peers.len() && (#[trigger] peers@[i]).0@ == ip@ && peers@[i].1 == mb && (
                forall|j: int| 0 <= j < peers.len() ==> (#[trigger] peers@[j]).1 <= mb) && (forall|
                    j: int,
                | i < j < peers.len() ==> (#[trigger] peers@[j]).1 < mb),
    {
        if peers.len() == 0 {
            return None;
        }
        let mut m: usize = 0;
        let mut i: usize = 1;
        while i < peers.len()
            invariant
                0 <= m < i <= peers.len(),
                forall|j: int| 0 <= j < i ==> (#[trigger] peers@[j]).1 <= peers@[m as int].1,
                forall|j: int| m < j < i ==> (#[trigger] peers@[j]).1 < peers@[m as int].1,
            decreases peers.len() - i,
        {
            if peers[i].1 >= peers[m].1 {
                m = i;
            }
            i += 1;
        }
        let r = (peers[m].0.clone(), peers[m].1);
        assert(peers@[m as int].0@ == r.0@);
        Some(r)
    }

    /// The largest of `tailles` that fits in the free MB of `mem`, with `mem`'s node.
    pub fn choisir_taille(&self, mem: &(String, u64), tailles: &[u64]) -> (r: Option<(String, u64)>)
        ensures
            r is None <==> (forall|i: int| 0 <= i < tailles.len() ==> tailles@[i] > mem.1),
            r matches Some((ip, t)) ==> ip@ == mem.0@ && t <= mem.1 && tailles@.contains(t) && (
            forall|i: int| 0 <= i < tailles.len() && tailles@[i] <= mem.1 ==> tailles@[i] <= t),
    {
        let available = mem.1;
        let mut meilleure: Option<u64> = None;
        let mut i: usize = 0;
        while i < tailles.len()
            invariant
                i <= tailles.len(),
                meilleure is None ==> (forall|j: int| 0 <= j < i ==> tailles@[j] > available),
                meilleure matches Some(t) ==> t <= available && tailles@.contains(t) && (forall|
                    j: int,
                | 0 <= j < i && tailles@[j] <= available ==> tailles@[j] <= t),
            decreases tailles.len() - i,
        {
            let t = tailles[i];
            if t <= available {
                match meilleure {
                    Some(m) => {
                        if t > m {
                            meilleure = Some(t);
                        }
                    },
                    None => {
                        meilleure = Some(t);
                    },
                }
            }
            i += 1;
        }
        match meilleure {
            Some(t) => Some((mem.0.clone(), t)),
            None => None,
        }
    }

    /// Matches the needs `ram_manquante` (MB missing on VMs) with the offers
    /// `offres` (free MB of nodes, listed in the order in which the map of
    /// offers is walked): the needs in decreasing order, each taking the first
    /// free offer, in the stable decreasing order of offers, that holds its swap
    /// (the need capped at 4096 MB, plus `marge_swap`) plus `marge_donneur`.
    /// Returns the node and the swap size of each match, in the order of needs.
    pub fn apparier_offres(
        &self,
        offres: &Vec<(String, u64)>,
        ram_manquante: &[u64],
        marge_donneur: u64,
        marge_swap: u64,
    ) -> (r: Vec<(String, u64)>)
        requires
            forall|i: int|
                0 <= i < ram_manquante.len() ==> plafonne(#[trigger] ram_manquante@[i]) + marge_swap
                    <= u64::MAX,
        ensures
            vue_offres(r@) == appariement(
                tri_decroissant(ram_manquante@),
                tri_stable(vue_offres(offres@)),
                Seq::new(offres.len() as nat, |i: int| false),
                marge_donneur,
                marge_swap,
            ),
    {
        let besoins = trier_decroissant(ram_manquante);
        let offres_triees = trier_offres(offres);
        proof {
            lemme_tri_elements(ram_manquante@);
            lemme_tri_longueur(vue_offres(offres@));
            assert(vue_offres(offres_triees@).len() == offres_triees@.len());
        }
        let mut utilisees: Vec<bool> = Vec::new();
        while utilisees.len() < offres_triees.len()
            invariant
                utilisees.len() <= offres_triees.len(),
                forall|j: int| 0 <= j < utilisees.len() ==> !(#[trigger] utilisees@[j]),
            decreases offres_triees.len() - utilisees.len(),
        {
            utilisees.push(false);
        }
        let ghost o = vue_offres(offres_triees@);
        let ghost tous = appariement(
            besoins@,
            o,
            Seq::new(offres.len() as nat, |i: int| false),
            marge_donneur,
            marge_swap,
        );
        assert(utilisees@ =~= Seq::new(offres.len() as nat, |i: int| false));
        let mut paires: Vec<(String, u64)> = Vec::new();
        let mut k: usize = 0;
        assert(besoins@.skip(0) == besoins@);
        while k < besoins.len()
            invariant
                k <= besoins.len(),
                besoins@ == tri_decroissant(ram_manquante@),
                besoins@.len() == ram_manquante@.len(),
                forall|i: int|
                    0 <= i < ram_manquante@.len() ==> exists|j: int|
                        0 <= j < ram_manquante@.len() && ram_manquante@[j]
                            == #[trigger] besoins@[i],
                forall|i: int|
                    0 <= i < ram_manquante.len() ==> plafonne(#[trigger] ram_manquante@[i])
                        + marge_swap <= u64::MAX,
                o == vue_offres(offres_triees@),
                utilisees.len() == offres_triees.len(),
                vue_offres(paires@) + appariement(
                    besoins@.skip(k as int),
                    o,
                    utilisees@,
                    marge_donneur,
                    marge_swap,
                ) == tous,
            decreases besoins.len() - k,
        {
            let b = besoins[k];
            proof {
                let j = choose|j: int|
                    0 <= j < ram_manquante@.len() && ram_manquante@[j] == besoins@[k as int];
                assert(plafonne(ram_manquante@[j]) + marge_swap <= u64::MAX);
            }
            let plafond = if b > 4096 {
                4096
            } else {
                b
            };
            let taille = plafond + marge_swap;
            let ghost reste = besoins@.skip(k as int);
            let ghost avant = vue_offres(paires@);
            assert(reste[0] == b);
            assert(reste.drop_first() == besoins@.skip(k + 1));
            match premiere_offre_exec(
                &offres_triees,
                &utilisees,
                (taille as u128) + (marge_donneur as u128),
            ) {
                Some(i) => {
                    paires.push((offres_triees[i].0.clone(), taille));
                    proof {
                        assert(vue_offres(paires@) =~= avant.push((o[i as int].0, taille)));
                    }
                    let ghost u0 = utilisees@;
                    utilisees.set(i, true);
                    proof {
                        assert(avant.push((o[i as int].0, taille)) + appariement(
                            besoins@.skip(k + 1),
                            o,
                            utilisees@,
                            marge_donneur,
                            marge_swap,
                        ) == avant + appariement(reste, o, u0, marge_donneur, marge_swap))
                            by {
                            assert(utilisees@ == u0.update(i as int, true));
                        }
                    }
                },
                None => {},
            }
            k += 1;
        }
        assert(besoins@.skip(k as int) == Seq::<u64>::empty());
        assert(vue_offres(paires@) + Seq::<(Seq<char>, u64)>::empty() == vue_offres(paires@));
        paires
    }
}

} // verus!
