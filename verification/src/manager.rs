//! The set of RAM swap spaces of this node, within a total limit.
use vstd::prelude::*;
use crate::memoire::MemInfo;
use crate::commande::{
    Action, ActionVue, Evenement, detail, erreur_run_cmd, message_run_cmd, texte_detail, vue_commandes,
};
use crate::swap::{
    Activation, EtapeActivation, SwapBlock, bloc_apres_activation, creation_vue, entree_swaps, ou_zero, prochaine_activation,
    spec_chemin_tmpfs,
};
use crate::texte::{decimal, joindre, joindre3, texte_u64};

verus! {

/// Swap spaces of `taille_bloc_mb` MB each, at most `max_total_swap_mb` MB in all.
pub struct SwapManager {
    pub blocs: Vec<SwapBlock>,
    pub min_available_mb: u64,
    pub max_total_swap_mb: u64,
    pub taille_bloc_mb: u64,
}

/// The total size of a list of spaces.
pub open spec fn somme_tailles(b: Seq<SwapBlock>) -> int
    decreases b.len(),
{
    if b.len() == 0 {
        0
    } else {
        somme_tailles(b.drop_last()) + b.last().taille_mb
    }
}

/// The number of active spaces in a list.
pub open spec fn nombre_actifs(b: Seq<SwapBlock>) -> nat
    decreases b.len(),
{
    if b.len() == 0 {
        0
    } else {
        nombre_actifs(b.drop_last()) + if b.last().etat is Actif {
            1nat
        } else {
            0nat
        }
    }
}

/// The first space named `id`, if any.
pub open spec fn position_bloc(b: Seq<SwapBlock>, id: Seq<char>) -> Option<int> {
    if exists|i: int| 0 <= i < b.len() && (#[trigger] b[i]).id@ == id {
        Some(
            choose|i: int|
                0 <= i < b.len() && (#[trigger] b[i]).id@ == id && (forall|j: int|
                    0 <= j < i ==> (#[trigger] b[j]).id@ != id),
        )
    } else {
        None
    }
}

/// `position_bloc` is the first element named `id`, and `None` when there is none.
pub proof fn lemme_position_bloc(s: Seq<SwapBlock>, id: Seq<char>)
    ensures
        match position_bloc(s, id) {
            Some(k) => 0 <= k < s.len() && s[k].id@ == id && forall|j: int|
                0 <= j < k ==> (#[trigger] s[j]).id@ != id,
            None => forall|i: int| 0 <= i < s.len() ==> (#[trigger] s[i]).id@ != id,
        },
{
    if exists|i: int| 0 <= i < s.len() && (#[trigger] s[i]).id@ == id {
        let i = choose|i: int| 0 <= i < s.len() && (#[trigger] s[i]).id@ == id;
        let p = |x: SwapBlock| x.id@ == id;
        crate::recherche::lemme_minimal(s, p, i);
        let m = choose|m: int| 0 <= m <= i && #[trigger] p(s[m]) && forall|j: int| 0 <= j < m ==> !p(#[trigger] s[j]);
        assert(0 <= m < s.len() && (s[m]).id@ == id && (forall|j: int|
            0 <= j < m ==> (#[trigger] s[j]).id@ != id));
    }
}


pub proof fn lemme_somme_prefixe(b: Seq<SwapBlock>, k: int)
    requires
        0 <= k <= b.len(),
    ensures
        0 <= somme_tailles(b.take(k)) <= somme_tailles(b),
    decreases b.len(),
{
    if k < b.len() {
        lemme_somme_prefixe(b.drop_last(), k);
        assert(b.drop_last().take(k) == b.take(k));
    } else {
        assert(b.take(k) == b);
        if b.len() > 0 {
            lemme_somme_prefixe(b.drop_last(), k - 1);
            assert(b.drop_last().take(k - 1) == b.drop_last());
        }
    }
}

/// Removing the space at `p` takes its size off the total.
pub proof fn loi_somme_retrait(b: Seq<SwapBlock>, p: int)
    requires
        0 <= p < b.len(),
    ensures
        somme_tailles(b.remove(p)) == somme_tailles(b) - b[p].taille_mb,
    decreases b.len(),
{
    if p < b.len() - 1 {
        loi_somme_retrait(b.drop_last(), p);
        assert(b.remove(p).drop_last() == b.drop_last().remove(p));
        assert(b.remove(p).last() == b.last());
    } else {
        assert(b.remove(p) == b.drop_last());
    }
}

fn introuvable(id: &str) -> (r: String)
    ensures
        r@ == "Bloc "@ + id@ + " introuvable"@,
{
    joindre3("Bloc ", id, " introuvable")
}

/// The first space named `id`.
fn trouver(b: &Vec<SwapBlock>, id: &str) -> (r: Option<usize>)
    ensures
        match r {
            Some(p) => position_bloc(b@, id@) == Some(p as int) && p < b.len(),
            None => position_bloc(b@, id@) is None,
        },
{
    let mut i: usize = 0;
    while i < b.len()
        invariant
            i <= b.len(),
            forall|j: int| 0 <= j < i ==> (#[trigger] b@[j]).id@ != id@,
        decreases b.len() - i,
    {
        if crate::texte::meme_texte(b[i].id.as_str(), id) {
            proof {
                lemme_position_bloc(b@, id@);
            }
            return Some(i);
        }
        i += 1;
    }
    None
}

impl SwapManager {
    /// No space yet; at least 300 MB free to grow, at most 1024 MB of swap.
    pub fn new(taille_bloc_mb: u64) -> (r: Self)
        ensures
            r.blocs@.len() == 0,
            r.min_available_mb == 300,
            r.max_total_swap_mb == 1024,
            r.taille_bloc_mb == taille_bloc_mb,
    {
        SwapManager {
            blocs: Vec::new(),
            min_available_mb: 300,
            max_total_swap_mb: 1024,
            taille_bloc_mb,
        }
    }

    /// The total size of the spaces, in MB.
    pub fn total_swap_mb(&self) -> (r: u64)
        requires
            somme_tailles(self.blocs@) <= u64::MAX,
        ensures
            r == somme_tailles(self.blocs@),
    {
        let mut total: u64 = 0;
        let mut i: usize = 0;
        assert(self.blocs@.take(0) == Seq::<SwapBlock>::empty());
        while i < self.blocs.len()
            invariant
                i <= self.blocs.len(),
                somme_tailles(self.blocs@) <= u64::MAX,
                total == somme_tailles(self.blocs@.take(i as int)),
            decreases self.blocs.len() - i,
        {
            proof {
                lemme_somme_prefixe(self.blocs@, i + 1);
                assert(self.blocs@.take(i + 1).drop_last() == self.blocs@.take(i as int));
            }
            total = total + self.blocs[i].taille_mb;
            i += 1;
        }
        assert(self.blocs@.take(i as int) == self.blocs@);
        total
    }

    /// The number of active spaces.
    pub fn nb_actifs(&self) -> (r: usize)
        ensures
            r == nombre_actifs(self.blocs@),
    {
        let mut n: usize = 0;
        let mut i: usize = 0;
        assert(self.blocs@.take(0) == Seq::<SwapBlock>::empty());
        while i < self.blocs.len()
            invariant
                i <= self.blocs.len(),
                n == nombre_actifs(self.blocs@.take(i as int)),
                n <= i,
            decreases self.blocs.len() - i,
        {
            assert(self.blocs@.take(i + 1).drop_last() == self.blocs@.take(i as int));
            if self.blocs[i].est_actif() {
                n += 1;
            }
            i += 1;
        }
        assert(self.blocs@.take(i as int) == self.blocs@);
        n
    }

    /// A new space is refused when it would take the total above the limit,
    /// with `Limite atteinte : <total> Mo / <max> Mo max`.
    pub fn verifier_limite(&self) -> (r: Result<(), String>)
        requires
            somme_tailles(self.blocs@) + self.taille_bloc_mb <= u64::MAX,
        ensures
            somme_tailles(self.blocs@) + self.taille_bloc_mb > self.max_total_swap_mb ==> (r matches Err(
                e,
            ) && e@ == "Limite atteinte : "@ + decimal(somme_tailles(self.blocs@) as nat) + " Mo / "@
                + decimal(self.max_total_swap_mb as nat) + " Mo max"@),
            somme_tailles(self.blocs@) + self.taille_bloc_mb <= self.max_total_swap_mb ==> r is Ok,
    {
        let total = self.total_swap_mb();
        if total + self.taille_bloc_mb > self.max_total_swap_mb {
            let mut e = joindre3("Limite atteinte : ", texte_u64(total).as_str(), " Mo / ");
            e.append(texte_u64(self.max_total_swap_mb).as_str());
            e.append(" Mo max");
            return Err(e);
        }
        Ok(())
    }

    /// The swap priority of the next space: 10 less the number of spaces, at least 1.
    pub fn priorite(&self) -> (r: i32)
        requires
            self.blocs.len() <= i32::MAX,
        ensures
            r == if 10 - self.blocs.len() >= 1 {
                10 - self.blocs.len()
            } else {
                1
            },
    {
        let p = 10 - self.blocs.len() as i32;
        if p >= 1 {
            p
        } else {
            1
        }
    }

    /// Adds an active space of the manager's size at the end and gives back
    /// its identifier, unless the total
    /// would then exceed `max_total_swap_mb`: then the spaces are left as they
    /// were, with `Limite atteinte : <total> Mo / <max> Mo max`. A total within
    /// the limit stays within it.
    pub fn ajouter(&mut self, bloc: SwapBlock) -> (r: Result<String, String>)
        requires
            somme_tailles(old(self).blocs@) + bloc.taille_mb <= u64::MAX,
            bloc.taille_mb == old(self).taille_bloc_mb,
            bloc.etat is Actif,
        ensures
            somme_tailles(old(self).blocs@) + bloc.taille_mb > old(self).max_total_swap_mb ==> (r matches Err(e)
                && e@ == "Limite atteinte : "@ + decimal(somme_tailles(old(self).blocs@) as nat) + " Mo / "@
                + decimal(old(self).max_total_swap_mb as nat) + " Mo max"@) && final(self).blocs@ == old(self).blocs@,
            somme_tailles(old(self).blocs@) + bloc.taille_mb <= old(self).max_total_swap_mb ==> (r matches Ok(id)
                && id@ == bloc.id@) && final(self).blocs@ == old(self).blocs@.push(bloc)
                && somme_tailles(final(self).blocs@) <= final(self).max_total_swap_mb,
            final(self).min_available_mb == old(self).min_available_mb,
            final(self).max_total_swap_mb == old(self).max_total_swap_mb,
            final(self).taille_bloc_mb == old(self).taille_bloc_mb,
    {
        let total = self.total_swap_mb();
        if total + bloc.taille_mb > self.max_total_swap_mb {
            let mut e = joindre3("Limite atteinte : ", texte_u64(total).as_str(), " Mo / ");
            e.append(texte_u64(self.max_total_swap_mb).as_str());
            e.append(" Mo max");
            return Err(e);
        }
        let id = bloc.id.clone();
        let ghost avant = self.blocs@;
        self.blocs.push(bloc);
        assert(self.blocs@.drop_last() == avant);
        Ok(id)
    }

    /// The used and total kB of the first space named `id`, from the text of
    /// `/proc/swaps` (see `SwapBlock::utilisation`); `Bloc <id> introuvable` when
    /// there is none.
    pub fn utilisation(&self, id: &str, contenu_swaps: &str) -> (r: Result<Option<(u64, u64)>, String>)
        ensures
            match position_bloc(self.blocs@, id@) {
                Some(p) => r matches Ok(u) && u == match self.blocs@[p].loop_device {
                    Some(ld) => match entree_swaps(contenu_swaps@, ld@) {
                        Some((total, utilise)) => Some((ou_zero(utilise), ou_zero(total))),
                        None => None,
                    },
                    None => None,
                },
                None => r matches Err(e) && e@ == "Bloc "@ + id@ + " introuvable"@,
            },
    {
        match trouver(&self.blocs, id) {
            Some(p) => Ok(self.blocs[p].utilisation(contenu_swaps)),
            None => Err(introuvable(id)),
        }
    }

    /// Takes out the first space named `id` and hands it back;
    /// `Bloc <id> introuvable` when there is none.
    pub fn retirer(&mut self, id: &str) -> (r: Result<SwapBlock, String>)
        ensures
            match position_bloc(old(self).blocs@, id@) {
                Some(p) => r matches Ok(b) && b == old(self).blocs@[p] && final(self).blocs@ == old(self).blocs@.remove(p),
                None => (r matches Err(e) && e@ == "Bloc "@ + id@ + " introuvable"@) && final(self).blocs@ == old(self).blocs@,
            },
            final(self).min_available_mb == old(self).min_available_mb,
            final(self).max_total_swap_mb == old(self).max_total_swap_mb,
            final(self).taille_bloc_mb == old(self).taille_bloc_mb,
    {
        match trouver(&self.blocs, id) {
            Some(p) => Ok(self.blocs.remove(p)),
            None => Err(introuvable(id)),
        }
    }

    /// Takes out the oldest space and hands it back; `Aucun bloc à retirer`
    /// when there is none.
    pub fn retirer_ancien(&mut self) -> (r: Result<SwapBlock, String>)
        ensures
            old(self).blocs@.len() == 0 ==> (r matches Err(e) && e@ == "Aucun bloc à retirer"@)
                && final(self).blocs@ == old(self).blocs@,
            old(self).blocs@.len() > 0 ==> (r matches Ok(b) && b == old(self).blocs@[0]) && final(self).blocs@ == old(self).blocs@.remove(0),
            final(self).min_available_mb == old(self).min_available_mb,
            final(self).max_total_swap_mb == old(self).max_total_swap_mb,
            final(self).taille_bloc_mb == old(self).taille_bloc_mb,
    {
        if self.blocs.len() == 0 {
            return Err(String::from_str("Aucun bloc à retirer"));
        }
        let id = self.blocs[0].id.clone();
        proof {
            assert(position_bloc(self.blocs@, id@) == Some(0int)) by {
                assert(self.blocs@[0].id@ == id@);
                let w = choose|w: int|
                    0 <= w < self.blocs@.len() && (#[trigger] self.blocs@[w]).id@ == id@ && (forall|
                        j: int,
                    | 0 <= j < w ==> (#[trigger] self.blocs@[j]).id@ != id@);
                if w > 0 {
                    assert(self.blocs@[0].id@ != id@);
                }
            }
        }
        self.retirer(id.as_str())
    }

    /// Whether to add a space: more than `min_available_mb` MB available, and
    /// room for one more space under the limit.
    pub fn doit_creer(&self, info: &MemInfo) -> (r: bool)
        requires
            somme_tailles(self.blocs@) + self.taille_bloc_mb <= u64::MAX,
        ensures
            r == (info.available_kb / 1024 > self.min_available_mb && somme_tailles(self.blocs@)
                + self.taille_bloc_mb <= self.max_total_swap_mb),
    {
        let available_mb = info.available_kb / 1024;
        available_mb > self.min_available_mb && self.total_swap_mb() + self.taille_bloc_mb
            <= self.max_total_swap_mb
    }

    /// The space to take out: the oldest, when less than half of
    /// `min_available_mb` MB is available.
    pub fn bloc_a_supprimer(&self, info: &MemInfo) -> (r: Option<String>)
        ensures
            (info.available_kb / 1024 < self.min_available_mb / 2 && self.blocs@.len() > 0) ==> (r matches Some(
                id,
            ) && id@ == self.blocs@[0].id@),
            !(info.available_kb / 1024 < self.min_available_mb / 2 && self.blocs@.len() > 0)
                ==> r is None,
    {
        let available_mb = info.available_kb / 1024;
        if available_mb < self.min_available_mb / 2 && self.blocs.len() > 0 {
            Some(self.blocs[0].id.clone())
        } else {
            None
        }
    }
}

/// The swap priority of the space added after `n` spaces: 10 less `n`, at least 1.
pub open spec fn priorite_pour(n: int) -> int {
    if 10 - n >= 1 {
        10 - n
    } else {
        1
    }
}

/// Where the addition of a space stands.
pub enum EtapeAjout {
    Debut,
    Dossier,
    /// Running the creation command of this rank (see `creation_vue`).
    Creation(usize),
    /// Activating the space.
    Activation(Activation),
    Fini,
}

/// The addition of a new space to the manager, step by step: refused over
/// the limit; make its directory, run its creation commands, activate it with
/// the priority of the next space, record it.
pub struct AjoutBloc {
    pub bloc: SwapBlock,
    pub etape: EtapeAjout,
}

/// The limit's refusal of one more space of `taille` MB.
pub open spec fn message_limite(m: SwapManager) -> Seq<char> {
    "Limite atteinte : "@ + decimal(somme_tailles(m.blocs@) as nat) + " Mo / "@ + decimal(m.max_total_swap_mb as nat)
        + " Mo max"@
}

/// The manager `m1` holds the same spaces and limits as `m0`.
pub open spec fn meme_gestion(m1: SwapManager, m0: SwapManager) -> bool {
    m1.blocs@ == m0.blocs@ && m1.min_available_mb == m0.min_available_mb && m1.max_total_swap_mb == m0.max_total_swap_mb
        && m1.taille_bloc_mb == m0.taille_bloc_mb
}

/// A step of the activation, within an addition: the addition `x` after it,
/// its action `r` and the manager `m1` after it, from the manager `m0` and the
/// space `b` before it. When the activation succeeds, the space is recorded
/// (or refused by the limit, see `SwapManager::ajouter`); when it fails, the
/// addition fails with its error; otherwise the addition goes on.
pub open spec fn pas_activation(
    x: AjoutBloc,
    r: Action,
    m0: SwapManager,
    m1: SwapManager,
    etape: EtapeActivation,
    priorite: i32,
    b: SwapBlock,
    ev: Evenement,
) -> bool {
    let (e2, a2) = prochaine_activation(etape, priorite, b, ev);
    let b2 = bloc_apres_activation(etape, b, ev);
    &&& x.bloc == b2
    &&& match a2 {
        ActionVue::Reussir => x.etape is Fini && if somme_tailles(m0.blocs@) + b2.taille_mb > m0.max_total_swap_mb {
            r.vue() == ActionVue::Echouer(message_limite(m0)) && meme_gestion(m1, m0)
        } else {
            r.vue() == ActionVue::Reussir && m1.blocs@ == m0.blocs@.push(b2) && m1.min_available_mb
                == m0.min_available_mb && m1.max_total_swap_mb == m0.max_total_swap_mb && m1.taille_bloc_mb
                == m0.taille_bloc_mb
        },
        ActionVue::Echouer(e) => x.etape is Fini && r.vue() == ActionVue::Echouer(e) && meme_gestion(m1, m0),
        _ => (x.etape matches EtapeAjout::Activation(a) && a.etape.vue() == e2 && a.priorite == priorite)
            && r.vue() == a2 && meme_gestion(m1, m0),
    }
}

impl AjoutBloc {
    pub fn nouveau(bloc: SwapBlock) -> (r: AjoutBloc)
        ensures
            r.bloc == bloc,
            r.etape is Debut,
    {
        AjoutBloc { bloc, etape: EtapeAjout::Debut }
    }

    /// The next step of the addition to `m`, given what came of the last one.
    pub fn suite(&mut self, m: &mut SwapManager, ev: Evenement) -> (r: Action)
        requires
            !(old(self).etape is Fini),
            old(self).etape matches EtapeAjout::Creation(i) ==> i < 4,
            old(self).etape matches EtapeAjout::Activation(a) ==> !(a.etape is Fini),
            somme_tailles(old(m).blocs@) + old(self).bloc.taille_mb <= u64::MAX,
            old(self).bloc.taille_mb == old(m).taille_bloc_mb,
            old(m).blocs.len() <= i32::MAX,
        ensures
            final(self).etape matches EtapeAjout::Creation(i) ==> i < 4,
            final(self).etape matches EtapeAjout::Activation(a) ==> !(a.etape is Fini),
            match old(self).etape {
                EtapeAjout::Debut => final(self).bloc == old(self).bloc && *final(m) == *old(m) && if somme_tailles(
                    old(m).blocs@,
                ) + old(m).taille_bloc_mb > old(m).max_total_swap_mb {
                    final(self).etape is Fini && r.vue() == ActionVue::Echouer(message_limite(*old(m)))
                } else {
                    final(self).etape is Dossier && r.vue() == ActionVue::CreerDossier(spec_chemin_tmpfs(old(self).bloc.id@))
                },
                EtapeAjout::Dossier => final(self).bloc == old(self).bloc && *final(m) == *old(m) && if ev is Reussite {
                    final(self).etape == EtapeAjout::Creation(0) && r.vue() == ActionVue::Executer(
                        creation_vue(old(self).bloc)[0],
                    )
                } else {
                    final(self).etape is Fini && r.vue() == ActionVue::Echouer("mkdir échoué : "@ + detail(ev))
                },
                EtapeAjout::Creation(i) => if !(ev is Reussite) {
                    final(self).bloc == old(self).bloc && *final(m) == *old(m) && final(self).etape is Fini
                        && r.vue() == ActionVue::Echouer(erreur_run_cmd(creation_vue(old(self).bloc)[i as int].0, ev))
                } else if i + 1 < 4 {
                    final(self).bloc == old(self).bloc && *final(m) == *old(m) && final(self).etape
                        == EtapeAjout::Creation((i + 1) as usize) && r.vue() == ActionVue::Executer(
                        creation_vue(old(self).bloc)[i + 1],
                    )
                } else {
                    pas_activation(
                        *final(self),
                        r,
                        *old(m),
                        *final(m),
                        EtapeActivation::Debut,
                        priorite_pour(old(m).blocs.len() as int) as i32,
                        old(self).bloc,
                        ev,
                    )
                },
                EtapeAjout::Activation(a) => pas_activation(
                    *final(self),
                    r,
                    *old(m),
                    *final(m),
                    a.etape,
                    a.priorite,
                    old(self).bloc,
                    ev,
                ),
                EtapeAjout::Fini => false,
            },
    {
        let ok = matches!(ev, Evenement::Reussite(_));
        match &self.etape {
            EtapeAjout::Debut => {
                let total = m.total_swap_mb();
                if total + m.taille_bloc_mb > m.max_total_swap_mb {
                    self.etape = EtapeAjout::Fini;
                    let mut e = joindre3("Limite atteinte : ", texte_u64(total).as_str(), " Mo / ");
                    e.append(texte_u64(m.max_total_swap_mb).as_str());
                    e.append(" Mo max");
                    Action::Echouer(e)
                } else {
                    self.etape = EtapeAjout::Dossier;
                    Action::CreerDossier(self.bloc.chemin_tmpfs())
                }
            },
            EtapeAjout::Dossier => {
                if ok {
                    let mut cmds = self.bloc.commandes_creation();
                    assert(cmds@.len() == vue_commandes(cmds@).len());
                    self.etape = EtapeAjout::Creation(0);
                    Action::Executer(cmds.remove(0))
                } else {
                    self.etape = EtapeAjout::Fini;
                    Action::Echouer(joindre("mkdir échoué : ", texte_detail(&ev).as_str()))
                }
            },
            EtapeAjout::Creation(i) => {
                let i = *i;
                let mut cmds = self.bloc.commandes_creation();
                assert(cmds@.len() == vue_commandes(cmds@).len());
                if !ok {
                    let c = cmds.remove(i);
                    self.etape = EtapeAjout::Fini;
                    Action::Echouer(message_run_cmd(c.programme.as_str(), &ev))
                } else if i + 1 < 4 {
                    self.etape = EtapeAjout::Creation(i + 1);
                    Action::Executer(cmds.remove(i + 1))
                } else {
                    let act = Activation::nouvelle(m.priorite());
                    self.pas_activation(m, act, ev)
                }
            },
            EtapeAjout::Activation(a) => {
                let act = Activation { priorite: a.priorite, etape: a.etape.copie() };
                self.pas_activation(m, act, ev)
            },
            EtapeAjout::Fini => Action::Reussir,
        }
    }

    /// A step of the activation `act` of the space (see `pas_activation`).
    fn pas_activation(&mut self, m: &mut SwapManager, act: Activation, ev: Evenement) -> (r: Action)
        requires
            !(act.etape is Fini),
            somme_tailles(old(m).blocs@) + old(self).bloc.taille_mb <= u64::MAX,
            old(self).bloc.taille_mb == old(m).taille_bloc_mb,
        ensures
            final(self).etape matches EtapeAjout::Activation(a) ==> !(a.etape is Fini),
            !(final(self).etape is Creation),
            pas_activation(*final(self), r, *old(m), *final(m), act.etape, act.priorite, old(self).bloc, ev),
    {
        let mut act = act;
        let a = act.suite(&mut self.bloc, ev);
        match a {
            Action::Reussir => {
                self.etape = EtapeAjout::Fini;
                match m.ajouter(self.bloc.copie()) {
                    Ok(_) => Action::Reussir,
                    Err(e) => Action::Echouer(e),
                }
            },
            Action::Echouer(e) => {
                self.etape = EtapeAjout::Fini;
                Action::Echouer(e)
            },
            a => {
                proof {
                    assert(!(act.etape is Fini));
                }
                self.etape = EtapeAjout::Activation(act);
                a
            },
        }
    }
}

} // verus!
