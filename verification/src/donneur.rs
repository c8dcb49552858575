//! The donor's watch over the spaces it exposes: after a delay, each one is
//! offered for release (the receiver is asked whether it still needs it).
use vstd::prelude::*;
use crate::agent::{encore_saturee, params_liberation, requete_liberation, toujours_saturee};
use crate::message::{RpcRequest, RpcResponse};
use crate::nbd::{PlanArret, SwapExpose, config_expose, dossier_expose, plan_arret_de, port_tcp};

verus! {

/// An exposed space under watch, with the receiver to ask and the time (in
/// milliseconds of a monotonic clock) when the watch began.
pub struct SwapDonneurSuivi {
    pub expose: SwapExpose,
    pub receveur_ip: String,
    pub receveur_port_rpc: u16,
    pub cree_a: u64,
}

/// The watched spaces and the delay, in seconds, before one is due.
pub struct DonneurWatcher {
    pub suivis: Vec<SwapDonneurSuivi>,
    pub delai_secs: u64,
}

/// At `maintenant`, the watch begun at `debut` has lasted `delai_secs` seconds
/// (an instant before `debut` counts as no time at all).
pub open spec fn delai_ecoule(debut: u64, maintenant: u64, delai_secs: u64) -> bool {
    if maintenant >= debut {
        maintenant - debut >= delai_secs * 1000
    } else {
        delai_secs == 0
    }
}

/// What the snapshot gives of a watched space: its identifier, its receiver and port.
pub open spec fn resume(s: SwapDonneurSuivi) -> (Seq<char>, Seq<char>, u16) {
    (s.expose.swap_id@, s.receveur_ip@, s.receveur_port_rpc)
}

/// The plan stops the space `id`: its server on `port`, its directory and
/// its configuration.
pub open spec fn arret_de(plan: Option<PlanArret>, port: u16, id: Seq<char>) -> bool {
    plan matches Some(pl) && (pl.liberation_port matches Some(c) && c.vue() == ("fuser"@, seq!["-k"@, port_tcp(port)]))
        && pl.demontage.vue() == ("umount"@, seq![dossier_expose(id)]) && pl.chemin_dir@ == dossier_expose(id)
        && pl.chemin_config@ == config_expose(id)
}

/// The receiver still needs its space, from its answer to `ram_saturee`
/// (see `toujours_saturee`).
pub open spec fn saturee_selon(reponse: Result<RpcResponse, String>) -> bool {
    toujours_saturee(
        match reponse {
            Ok(resp) => Ok(resp),
            Err(e) => Err(e@),
        },
    )
}

/// The watched spaces that are due at `maintenant`, in order.
pub open spec fn dus(s: Seq<SwapDonneurSuivi>, delai_secs: u64, maintenant: u64) -> Seq<
    (Seq<char>, Seq<char>, u16),
>
    decreases s.len(),
{
    if s.len() == 0 {
        Seq::empty()
    } else {
        let avant = dus(s.drop_last(), delai_secs, maintenant);
        if delai_ecoule(s.last().cree_a, maintenant, delai_secs) {
            avant.push(resume(s.last()))
        } else {
            avant
        }
    }
}

/// The content of a snapshot.
pub open spec fn vue_instantane(v: Seq<(String, String, u16)>) -> Seq<(Seq<char>, Seq<char>, u16)> {
    Seq::new(v.len(), |i: int| (v[i].0@, v[i].1@, v[i].2))
}

/// The first watched space whose identifier is `id`, if any.
pub open spec fn premier_suivi(s: Seq<SwapDonneurSuivi>, id: Seq<char>) -> Option<int> {
    if exists|i: int| 0 <= i < s.len() && (#[trigger] s[i]).expose.swap_id@ == id {
        Some(
            choose|i: int|
                0 <= i < s.len() && (#[trigger] s[i]).expose.swap_id@ == id && (forall|j: int|
                    0 <= j < i ==> (#[trigger] s[j]).expose.swap_id@ != id),
        )
    } else {
        None
    }
}

/// `premier_suivi` is the first watched space named `id`, and `None` when
/// there is none.
pub proof fn lemme_premier_suivi(s: Seq<SwapDonneurSuivi>, id: Seq<char>)
    ensures
        match premier_suivi(s, id) {
            Some(k) => 0 <= k < s.len() && s[k].expose.swap_id@ == id && forall|j: int|
                0 <= j < k ==> (#[trigger] s[j]).expose.swap_id@ != id,
            None => forall|i: int| 0 <= i < s.len() ==> (#[trigger] s[i]).expose.swap_id@ != id,
        },
{
    if exists|i: int| 0 <= i < s.len() && (#[trigger] s[i]).expose.swap_id@ == id {
        let i = choose|i: int| 0 <= i < s.len() && (#[trigger] s[i]).expose.swap_id@ == id;
        let p = |x: SwapDonneurSuivi| x.expose.swap_id@ == id;
        crate::recherche::lemme_minimal(s, p, i);
        let m = choose|m: int| 0 <= m <= i && #[trigger] p(s[m]) && forall|j: int| 0 <= j < m ==> !p(#[trigger] s[j]);
        assert(0 <= m < s.len() && (s[m]).expose.swap_id@ == id && (forall|j: int|
            0 <= j < m ==> (#[trigger] s[j]).expose.swap_id@ != id));
    }
}

fn ecoule(debut: u64, maintenant: u64, delai_secs: u64) -> (r: bool)
    ensures
        r == delai_ecoule(debut, maintenant, delai_secs),
{
    if maintenant >= debut {
        (maintenant - debut) / 1000 >= delai_secs
    } else {
        delai_secs == 0
    }
}

impl DonneurWatcher {
    /// No space under watch; each becomes due after `delai_secs` seconds.
    pub fn new(delai_secs: u64) -> (r: Self)
        ensures
            r.suivis@.len() == 0,
            r.delai_secs == delai_secs,
    {
        DonneurWatcher { suivis: Vec::new(), delai_secs }
    }

    /// Puts `expose` under watch from `maintenant`, with its receiver.
    pub fn ajouter(
        &mut self,
        expose: SwapExpose,
        receveur_ip: String,
        receveur_port_rpc: u16,
        maintenant: u64,
    )
        ensures
            final(self).suivis@ == old(self).suivis@.push(
                SwapDonneurSuivi { expose, receveur_ip, receveur_port_rpc, cree_a: maintenant },
            ),
            final(self).delai_secs == old(self).delai_secs,
    {
        self.suivis.push(SwapDonneurSuivi { expose, receveur_ip, receveur_port_rpc, cree_a: maintenant });
    }

    /// The spaces due at `maintenant`: identifier, receiver and its port, in order.
    pub fn snapshot_expires(&self, maintenant: u64) -> (r: Vec<(String, String, u16)>)
        ensures
            vue_instantane(r@) == dus(self.suivis@, self.delai_secs, maintenant),
    {
        let mut r: Vec<(String, String, u16)> = Vec::new();
        let mut i: usize = 0;
        assert(self.suivis@.take(0) == Seq::<SwapDonneurSuivi>::empty());
        while i < self.suivis.len()
            invariant
                i <= self.suivis.len(),
                vue_instantane(r@) == dus(self.suivis@.take(i as int), self.delai_secs, maintenant),
            decreases self.suivis.len() - i,
        {
            let s = &self.suivis[i];
            assert(self.suivis@.take(i + 1).drop_last() == self.suivis@.take(i as int));
            if ecoule(s.cree_a, maintenant, self.delai_secs) {
                let ghost avant = vue_instantane(r@);
                r.push((s.expose.swap_id.clone(), s.receveur_ip.clone(), s.receveur_port_rpc));
                assert(vue_instantane(r@) =~= avant.push(resume(*s)));
            }
            i += 1;
        }
        assert(self.suivis@.take(i as int) == self.suivis@);
        r
    }

    /// Takes the first space named `swap_id` out of the watch and hands it back.
    pub fn retirer(&mut self, swap_id: &str) -> (r: Option<SwapDonneurSuivi>)
        ensures
            match premier_suivi(old(self).suivis@, swap_id@) {
                Some(p) => r == Some(old(self).suivis@[p]) && final(self).suivis@ == old(self).suivis@.remove(p),
                None => r is None && final(self).suivis@ == old(self).suivis@,
            },
            final(self).delai_secs == old(self).delai_secs,
    {
        match self.position(swap_id) {
            Some(i) => Some(self.suivis.remove(i)),
            None => None,
        }
    }

    /// The port of the server of the first watched space named `id`, if any.
    pub open spec fn port_a_arreter(s: Seq<SwapDonneurSuivi>, id: Seq<char>) -> Option<u16> {
        match premier_suivi(s, id) {
            Some(p) => Some(s[p].expose.port_nbd),
            None => None,
        }
    }

    /// The first watched space named `swap_id`.
    fn position(&self, swap_id: &str) -> (r: Option<usize>)
        ensures
            match r {
                Some(i) => premier_suivi(self.suivis@, swap_id@) == Some(i as int) && i < self.suivis.len(),
                None => premier_suivi(self.suivis@, swap_id@) is None,
            },
    {
        let mut i: usize = 0;
        while i < self.suivis.len()
            invariant
                i <= self.suivis.len(),
                forall|j: int| 0 <= j < i ==> (#[trigger] self.suivis@[j]).expose.swap_id@ != swap_id@,
            decreases self.suivis.len() - i,
        {
            if crate::texte::meme_texte(self.suivis[i].expose.swap_id.as_str(), swap_id) {
                proof {
                    lemme_premier_suivi(self.suivis@, swap_id@);
                }
                return Some(i);
            }
            i += 1;
        }
        None
    }

    /// A release of `swap_id` asked over RPC: the plan to stop the space, with
    /// the server on the port it was exposed on; a space that is not watched
    /// has no known server, and its directory and configuration are still
    /// cleaned. The space stays under watch.
    pub fn plan_liberation(&self, swap_id: &str) -> (r: PlanArret)
        ensures
            match Self::port_a_arreter(self.suivis@, swap_id@) {
                Some(port) => r.liberation_port matches Some(c) && c.vue() == ("fuser"@, seq!["-k"@, port_tcp(port)]),
                None => r.liberation_port is None,
            },
            r.demontage.vue() == ("umount"@, seq![dossier_expose(swap_id@)]),
            r.chemin_dir@ == dossier_expose(swap_id@),
            r.chemin_config@ == config_expose(swap_id@),
    {
        match self.position(swap_id) {
            Some(i) => plan_arret_de(swap_id, Some(self.suivis[i].expose.port_nbd)),
            None => plan_arret_de(swap_id, None),
        }
    }

    /// Takes the space `swap_id` out of the watch and plans its stop on the
    /// port it was exposed on; nothing when it is not watched.
    pub fn retirer_pour_arret(&mut self, swap_id: &str) -> (r: Option<PlanArret>)
        ensures
            final(self).delai_secs == old(self).delai_secs,
            match premier_suivi(old(self).suivis@, swap_id@) {
                Some(p) => final(self).suivis@ == old(self).suivis@.remove(p) && arret_de(
                    r,
                    old(self).suivis@[p].expose.port_nbd,
                    swap_id@,
                ),
                None => final(self).suivis@ == old(self).suivis@ && r is None,
            },
    {
        match self.position(swap_id) {
            Some(i) => {
                let port = self.suivis[i].expose.port_nbd;
                let _ = self.suivis.remove(i);
                Some(plan_arret_de(swap_id, Some(port)))
            },
            None => None,
        }
    }

    /// What the donor does with a due space `swap_id` once its receiver
    /// answered `ram_saturee` (or could not be reached): while the receiver is
    /// still saturated, nothing, and the space stays under watch (it is asked
    /// again later); otherwise the release request to send to the receiver
    /// (`liberer_swap`, identifier 100), with the space taken out of the watch
    /// and the plan to stop it (see `retirer_pour_arret`).
    pub fn apres_reponse(&mut self, swap_id: &str, reponse: &Result<RpcResponse, String>) -> (r: Option<
        (RpcRequest, Option<PlanArret>),
    >)
        ensures
            final(self).delai_secs == old(self).delai_secs,
            saturee_selon(*reponse) ==> r is None && final(self).suivis@ == old(self).suivis@,
            !saturee_selon(*reponse) ==> (r matches Some((req, plan)) && req.jsonrpc@ == "2.0"@ && req.method@
                == "liberer_swap"@ && req.id == 100 && req.params.vue() == params_liberation(swap_id@) && match premier_suivi(
                old(self).suivis@,
                swap_id@,
            ) {
                Some(p) => final(self).suivis@ == old(self).suivis@.remove(p) && arret_de(
                    plan,
                    old(self).suivis@[p].expose.port_nbd,
                    swap_id@,
                ),
                None => final(self).suivis@ == old(self).suivis@ && plan is None,
            }),
    {
        if encore_saturee(reponse) {
            return None;
        }
        let req = requete_liberation(swap_id, 100);
        let plan = self.retirer_pour_arret(swap_id);
        Some((req, plan))
    }

    /// The number of spaces under watch.
    pub fn nb_suivis(&self) -> (r: usize)
        ensures
            r == self.suivis@.len(),
    {
        self.suivis.len()
    }
}

} // verus!
