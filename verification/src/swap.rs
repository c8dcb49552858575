//! Swap spaces made in RAM on this node: a tmpfs holding a swap file,
//! attached to a loop device.
use vstd::prelude::*;
use crate::commande::{
    Action, ActionVue, Commande, Evenement, commande, args1, args2, args3, args4, args6, detail, erreur_run_cmd,
    message_run_cmd, t, texte_detail, vue_commandes,
};
use crate::horloge::{identifiant_depuis_duree, lire_horloge, millisecondes};
use crate::texte::{
    analyse_u64, analyser_u64, bornes_lignes, bornes_mots, bornes_valides, commence, commence_par,
    decimal, decimal_signe, joindre, joindre3, lignes, morceaux, mots, rogner, texte_i32, texte_u64,
    vers_chars,
};

verus! {

/// Where the tmpfs of the swap spaces are mounted.
pub const BASE_PATH: &'static str = "/mnt/swapram";

/// The state of a swap space.
pub enum SwapState {
    Inactif,
    Actif,
}

/// A swap space in RAM.
pub struct SwapBlock {
    pub id: String,
    pub taille_mb: u64,
    pub etat: SwapState,
    pub loop_device: Option<String>,
}

/// The tmpfs directory of the space `id`: `/mnt/swapram/<id>`.
pub open spec fn spec_chemin_tmpfs(id: Seq<char>) -> Seq<char> {
    "/mnt/swapram"@ + "/"@ + id
}

/// The swap file of the space `id`: `/mnt/swapram/<id>/swapfile`.
pub open spec fn spec_chemin_fichier(id: Seq<char>) -> Seq<char> {
    "/mnt/swapram"@ + "/"@ + id + "/swapfile"@
}

/// A number, or 0 when there is none (a column that is not a `u64`, an unknown use).
pub open spec fn ou_zero(n: Option<u64>) -> u64 {
    match n {
        Some(v) => v,
        None => 0,
    }
}

/// In the lines of `/proc/swaps` after its header: the first line that starts
/// with `p` and has at least four columns, read as its third and fourth columns.
pub open spec fn ligne_swaps(ls: Seq<Seq<char>>, p: Seq<char>) -> Option<(Option<u64>, Option<u64>)>
    decreases ls.len(),
{
    if ls.len() == 0 {
        None
    } else if commence_par(ls[0], p) && mots(ls[0]).len() >= 4 {
        Some((analyse_u64(mots(ls[0])[2]), analyse_u64(mots(ls[0])[3])))
    } else {
        ligne_swaps(ls.drop_first(), p)
    }
}

/// The lines of a text but its first.
pub open spec fn apres_entete(ls: Seq<Seq<char>>) -> Seq<Seq<char>> {
    if ls.len() > 0 {
        ls.skip(1)
    } else {
        ls
    }
}

/// The size and use columns of the entry of `/proc/swaps` (text `contenu`)
/// whose line starts with `p`.
pub open spec fn entree_swaps(contenu: Seq<char>, p: Seq<char>) -> Option<(Option<u64>, Option<u64>)> {
    ligne_swaps(apres_entete(lignes(contenu)), p)
}

/// Reads, in the text of `/proc/swaps`, the size and use columns of the first
/// entry whose line starts with `prefixe` (see `entree_swaps`).
pub fn lire_entree_swaps(contenu: &str, prefixe: &str) -> (r: Option<(Option<u64>, Option<u64>)>)
    ensures
        r == entree_swaps(contenu@, prefixe@),
{
    let s = vers_chars(contenu);
    let p = vers_chars(prefixe);
    let bornes = bornes_lignes(&s);
    let ghost ls = morceaux(s@, bornes@);
    let mut k: usize = 1;
    if bornes.len() == 0 {
        return None;
    }
    assert(apres_entete(ls) == ls.skip(1));
    while k < bornes.len()
        invariant
            1 <= k <= bornes.len(),
            ls == morceaux(s@, bornes@),
            ls == lignes(s@),
            bornes_valides(bornes@, 0, s@.len() as int),
            p@ == prefixe@,
            s@ == contenu@,
            ligne_swaps(ls.skip(1), p@) == ligne_swaps(ls.skip(k as int), p@),
        decreases bornes.len() - k,
    {
        let (a, b) = bornes[k];
        let ghost l = s@.subrange(a as int, b as int);
        assert(ls.skip(k as int)[0] == l);
        assert(ls.skip(k as int).drop_first() == ls.skip(k + 1));
        if commence(&s, a, b, &p) {
            let w = bornes_mots(&s, a, b);
            assert(morceaux(s@, w@) == mots(l));
            if w.len() >= 4 {
                let (a2, b2) = w[2];
                let (a3, b3) = w[3];
                assert(mots(l)[2] == s@.subrange(a2 as int, b2 as int));
                assert(mots(l)[3] == s@.subrange(a3 as int, b3 as int));
                let c2 = analyser_u64(&s, a2, b2);
                let c3 = analyser_u64(&s, a3, b3);
                assert(ligne_swaps(ls.skip(k as int), p@) == Some((c2, c3)));
                return Some((c2, c3));
            }
        }
        k += 1;
    }
    assert(ls.skip(k as int) == Seq::<Seq<char>>::empty());
    None
}

/// The commands that make the space `b` once its directory exists: mount a
/// tmpfs of its size there, fill the swap file with zeros, restrict it to its
/// owner, format it as swap.
pub open spec fn creation_vue(b: SwapBlock) -> Seq<(Seq<char>, Seq<Seq<char>>)> {
    seq![
        ("mount"@, seq!["-t"@, "tmpfs"@, "-o"@, "size="@ + decimal(b.taille_mb as nat) + "M"@, "tmpfs"@, spec_chemin_tmpfs(b.id@)]),
        ("dd"@, seq!["if=/dev/zero"@, "of="@ + spec_chemin_fichier(b.id@), "bs=1M"@, "count="@ + decimal(b.taille_mb as nat)]),
        ("chmod"@, seq!["600"@, spec_chemin_fichier(b.id@)]),
        ("mkswap"@, seq![spec_chemin_fichier(b.id@)]),
    ]
}

impl SwapBlock {
    /// A new, inactive space.
    pub fn nouveau(id: String, taille_mb: u64) -> (r: SwapBlock)
        ensures
            r.id == id,
            r.taille_mb == taille_mb,
            r.etat is Inactif,
            r.loop_device is None,
    {
        SwapBlock { id, taille_mb, etat: SwapState::Inactif, loop_device: None }
    }

    /// A copy of the space.
    pub fn copie(&self) -> (r: SwapBlock)
        ensures
            r == *self,
    {
        SwapBlock {
            id: self.id.clone(),
            taille_mb: self.taille_mb,
            etat: match self.etat {
                SwapState::Inactif => SwapState::Inactif,
                SwapState::Actif => SwapState::Actif,
            },
            loop_device: match &self.loop_device {
                Some(l) => Some(l.clone()),
                None => None,
            },
        }
    }

    /// The tmpfs directory: `/mnt/swapram/<id>`.
    pub fn chemin_tmpfs(&self) -> (r: String)
        ensures
            r@ == spec_chemin_tmpfs(self.id@),
    {
        joindre3(BASE_PATH, "/", self.id.as_str())
    }

    /// The swap file: `/mnt/swapram/<id>/swapfile`.
    pub fn chemin_fichier(&self) -> (r: String)
        ensures
            r@ == spec_chemin_fichier(self.id@),
    {
        let mut r = joindre3(BASE_PATH, "/", self.id.as_str());
        r.append("/swapfile");
        r
    }

    /// The space is active.
    pub fn est_actif(&self) -> (r: bool)
        ensures
            r == self.etat is Actif,
    {
        match self.etat {
            SwapState::Actif => true,
            SwapState::Inactif => false,
        }
    }

    /// The used and total kB of the space, from the text of `/proc/swaps`:
    /// the entry of its loop device (see `entree_swaps`), a column that is not
    /// a number counting as 0; `None` with no loop device or no entry.
    pub fn utilisation(&self, contenu_swaps: &str) -> (r: Option<(u64, u64)>)
        ensures
            r == match self.loop_device {
                Some(ld) => match entree_swaps(contenu_swaps@, ld@) {
                    Some((total, utilise)) => Some((ou_zero(utilise), ou_zero(total))),
                    None => None,
                },
                None => None,
            },
    {
        match &self.loop_device {
            Some(ld) => match lire_entree_swaps(contenu_swaps, ld.as_str()) {
                Some((total, utilise)) => {
                    let u = match utilise {
                        Some(v) => v,
                        None => 0,
                    };
                    let t = match total {
                        Some(v) => v,
                        None => 0,
                    };
                    Some((u, t))
                },
                None => None,
            },
            None => None,
        }
    }
}


impl SwapBlock {
    /// A new, inactive space of `taille_mb` MB made `secs` seconds and `nanos`
    /// nanoseconds after the Unix epoch, named by `identifiant_depuis_duree`.
    pub fn nouveau_depuis_duree(secs: u64, nanos: u32, taille_mb: u64) -> (r: Option<SwapBlock>)
        requires
            nanos < 1_000_000_000,
        ensures
            secs > i64::MAX ==> r is None,
            secs <= 1_000_000_000_000 ==> r is Some,
            r matches Some(b) ==> b.id@ == "swap_"@ + decimal(millisecondes(secs, nanos)) && b.taille_mb == taille_mb
                && b.etat is Inactif && b.loop_device is None,
    {
        match identifiant_depuis_duree(secs, nanos) {
            Some(id) => Some(SwapBlock::nouveau(id, taille_mb)),
            None => None,
        }
    }

    /// A new, inactive space of `taille_mb` MB, named from the current time
    /// (see `nouveau_depuis_duree`); `None` when the clock is before the Unix
    /// epoch, or beyond the calendar.
    pub fn nouveau_horodate(taille_mb: u64) -> (r: Option<SwapBlock>)
        ensures
            r matches Some(b) ==> (exists|s: u64, n: u32|
                n < 1_000_000_000 && s <= i64::MAX && b.id@ == "swap_"@ + decimal(#[trigger] millisecondes(s, n)))
                && b.taille_mb == taille_mb && b.etat is Inactif && b.loop_device is None,
    {
        match lire_horloge() {
            Some((s, n)) => SwapBlock::nouveau_depuis_duree(s, n, taille_mb),
            None => None,
        }
    }

    /// The commands that make the space once its directory exists: mount a
    /// tmpfs of its size there, fill the swap file with zeros, restrict it to
    /// its owner, format it as swap.
    pub fn commandes_creation(&self) -> (r: Vec<Commande>)
        ensures
            vue_commandes(r@) == creation_vue(*self),
            vue_commandes(r@) == seq![
                ("mount"@, seq!["-t"@, "tmpfs"@, "-o"@, "size="@ + decimal(self.taille_mb as nat) + "M"@, "tmpfs"@, spec_chemin_tmpfs(self.id@)]),
                ("dd"@, seq!["if=/dev/zero"@, "of="@ + spec_chemin_fichier(self.id@), "bs=1M"@, "count="@ + decimal(self.taille_mb as nat)]),
                ("chmod"@, seq!["600"@, spec_chemin_fichier(self.id@)]),
                ("mkswap"@, seq![spec_chemin_fichier(self.id@)]),
            ],
    {
        let taille = texte_u64(self.taille_mb);
        let taille_arg = joindre3("size=", taille.as_str(), "M");
        let montage = commande(
            "mount",
            args6(t("-t"), t("tmpfs"), t("-o"), taille_arg, t("tmpfs"), self.chemin_tmpfs()),
        );
        let fichier = self.chemin_fichier();
        let remplissage = commande(
            "dd",
            args4(
                t("if=/dev/zero"),
                joindre("of=", fichier.as_str()),
                t("bs=1M"),
                joindre("count=", taille.as_str()),
            ),
        );
        let droits = commande("chmod", args2(t("600"), self.chemin_fichier()));
        let format = commande("mkswap", args1(self.chemin_fichier()));
        let r = vec![montage, remplissage, droits, format];
        assert(vue_commandes(r@) =~= seq![montage.vue(), remplissage.vue(), droits.vue(), format.vue()]);
        r
    }

    /// Activation is refused on an active space, with `Bloc <id> déjà actif`.
    pub fn verifier_activation(&self) -> (r: Result<(), String>)
        ensures
            self.etat is Actif ==> (r matches Err(e) && e@ == "Bloc "@ + self.id@ + " déjà actif"@),
            self.etat is Inactif ==> r is Ok,
    {
        if self.est_actif() {
            Err(joindre3("Bloc ", self.id.as_str(), " déjà actif"))
        } else {
            Ok(())
        }
    }

    /// `losetup -f --show <swap file>`: attaches the file to a free loop device
    /// and prints the device's name.
    pub fn commande_losetup(&self) -> (r: Commande)
        ensures
            r.vue() == ("losetup"@, seq!["-f"@, "--show"@, spec_chemin_fichier(self.id@)]),
    {
        commande("losetup", args3(t("-f"), t("--show"), self.chemin_fichier()))
    }

    /// The loop device named on the output of `losetup`, trimmed.
    pub fn device_de_sortie(sortie: &str) -> (r: String)
        ensures
            r@ == rogner(sortie@),
    {
        crate::texte::rogne(sortie)
    }

    /// `swapon -p <priorite> <loop_dev>`.
    pub fn commande_swapon(priorite: i32, loop_dev: &str) -> (r: Commande)
        ensures
            r.vue() == ("swapon"@, seq!["-p"@, decimal_signe(priorite as int), loop_dev@]),
    {
        commande("swapon", args3(t("-p"), texte_i32(priorite), t(loop_dev)))
    }

    /// `losetup -d <loop_dev>`: detaches a loop device.
    pub fn commande_detacher(loop_dev: &str) -> (r: Commande)
        ensures
            r.vue() == ("losetup"@, seq!["-d"@, loop_dev@]),
    {
        commande("losetup", args2(t("-d"), t(loop_dev)))
    }

    /// Records that the space is active on `loop_dev`.
    pub fn marquer_actif(&mut self, loop_dev: String)
        ensures
            final(self).id == old(self).id,
            final(self).taille_mb == old(self).taille_mb,
            final(self).etat is Actif,
            final(self).loop_device == Some(loop_dev),
    {
        self.loop_device = Some(loop_dev);
        self.etat = SwapState::Actif;
    }

    /// The commands that deactivate the space: `swapoff` and `losetup -d` on its
    /// loop device (none without one); refused on an inactive space with
    /// `Bloc <id> déjà inactif`.
    pub fn commandes_desactivation(&self) -> (r: Result<Vec<Commande>, String>)
        ensures
            self.etat is Inactif ==> (r matches Err(e) && e@ == "Bloc "@ + self.id@
                + " déjà inactif"@),
            self.etat is Actif ==> (r matches Ok(v) && vue_commandes(v@) == match self.loop_device {
                Some(ld) => seq![("swapoff"@, seq![ld@]), ("losetup"@, seq!["-d"@, ld@])],
                None => Seq::empty(),
            }),
    {
        if !self.est_actif() {
            return Err(joindre3("Bloc ", self.id.as_str(), " déjà inactif"));
        }
        match &self.loop_device {
            Some(ld) => {
                let arret = commande("swapoff", args1(ld.clone()));
                let detacher = SwapBlock::commande_detacher(ld.as_str());
                let r = vec![arret, detacher];
                assert(vue_commandes(r@) =~= seq![arret.vue(), detacher.vue()]);
                Ok(r)
            },
            None => {
                let r: Vec<Commande> = Vec::new();
                assert(vue_commandes(r@) =~= Seq::empty());
                Ok(r)
            },
        }
    }

    /// Records that the space is inactive, with no loop device.
    pub fn marquer_inactif(&mut self)
        ensures
            final(self).id == old(self).id,
            final(self).taille_mb == old(self).taille_mb,
            final(self).etat is Inactif,
            final(self).loop_device is None,
    {
        self.loop_device = None;
        self.etat = SwapState::Inactif;
    }

    /// `umount <tmpfs directory>`.
    pub fn commande_demontage(&self) -> (r: Commande)
        ensures
            r.vue() == ("umount"@, seq![spec_chemin_tmpfs(self.id@)]),
    {
        commande("umount", args1(self.chemin_tmpfs()))
    }
}

/// Where the activation of a space stands.
pub enum EtapeActivation {
    Debut,
    /// `losetup` is attaching the swap file.
    Losetup,
    /// `swapon` is enabling the loop device.
    Swapon(String),
    /// `swapon` failed with this error; the loop device is being detached.
    Detachement(String),
    Fini,
}

/// The activation of a space with a priority, step by step.
pub struct Activation {
    pub priorite: i32,
    pub etape: EtapeActivation,
}

/// The content of a stage of an activation.
pub enum EtapeActivationVue {
    Debut,
    Losetup,
    Swapon(Seq<char>),
    Detachement(Seq<char>),
    Fini,
}

impl EtapeActivation {
    /// A copy of the stage.
    pub fn copie(&self) -> (r: EtapeActivation)
        ensures
            r == *self,
    {
        match self {
            EtapeActivation::Debut => EtapeActivation::Debut,
            EtapeActivation::Losetup => EtapeActivation::Losetup,
            EtapeActivation::Swapon(ld) => EtapeActivation::Swapon(ld.clone()),
            EtapeActivation::Detachement(m) => EtapeActivation::Detachement(m.clone()),
            EtapeActivation::Fini => EtapeActivation::Fini,
        }
    }

    pub open spec fn vue(self) -> EtapeActivationVue {
        match self {
            EtapeActivation::Debut => EtapeActivationVue::Debut,
            EtapeActivation::Losetup => EtapeActivationVue::Losetup,
            EtapeActivation::Swapon(ld) => EtapeActivationVue::Swapon(ld@),
            EtapeActivation::Detachement(m) => EtapeActivationVue::Detachement(m@),
            EtapeActivation::Fini => EtapeActivationVue::Fini,
        }
    }
}

/// The next stage and step of the activation of `b` with `priorite`, given
/// what came of the last step: refused on an active space; attach the swap
/// file to a loop device (`losetup -f --show`, whose output names it), then
/// swap on it with the priority. When `losetup` fails, the activation fails;
/// when `swapon` cannot start, the activation fails; when it runs and fails,
/// the loop device is detached and the activation fails.
pub open spec fn prochaine_activation(etape: EtapeActivation, priorite: i32, b: SwapBlock, ev: Evenement) -> (
    EtapeActivationVue,
    ActionVue,
) {
    match etape {
        EtapeActivation::Debut => if b.etat is Actif {
            (EtapeActivationVue::Fini, ActionVue::Echouer("Bloc "@ + b.id@ + " déjà actif"@))
        } else {
            (
                EtapeActivationVue::Losetup,
                ActionVue::Executer(("losetup"@, seq!["-f"@, "--show"@, spec_chemin_fichier(b.id@)])),
            )
        },
        EtapeActivation::Losetup => match ev {
            Evenement::Reussite(s) => (
                EtapeActivationVue::Swapon(rogner(s@)),
                ActionVue::Executer(("swapon"@, seq!["-p"@, decimal_signe(priorite as int), rogner(s@)])),
            ),
            _ => (EtapeActivationVue::Fini, ActionVue::Echouer("losetup échoué : "@ + detail(ev))),
        },
        EtapeActivation::Swapon(ld) => if ev is Reussite {
            (EtapeActivationVue::Fini, ActionVue::Reussir)
        } else if ev is Impossible {
            (EtapeActivationVue::Fini, ActionVue::Echouer("swapon échoué : "@ + detail(ev)))
        } else {
            (
                EtapeActivationVue::Detachement("swapon échoué : "@ + detail(ev)),
                ActionVue::Executer(("losetup"@, seq!["-d"@, ld@])),
            )
        },
        EtapeActivation::Detachement(m) => (EtapeActivationVue::Fini, ActionVue::Echouer(m@)),
        EtapeActivation::Fini => (EtapeActivationVue::Fini, ActionVue::Reussir),
    }
}

/// The space after a step of its activation: recorded active on its loop
/// device once `swapon` succeeded, otherwise as it was.
pub open spec fn bloc_apres_activation(etape: EtapeActivation, b: SwapBlock, ev: Evenement) -> SwapBlock {
    match etape {
        EtapeActivation::Swapon(ld) => if ev is Reussite {
            SwapBlock { etat: SwapState::Actif, loop_device: Some(ld), ..b }
        } else {
            b
        },
        _ => b,
    }
}

impl Activation {
    pub fn nouvelle(priorite: i32) -> (r: Activation)
        ensures
            r.priorite == priorite,
            r.etape is Debut,
    {
        Activation { priorite, etape: EtapeActivation::Debut }
    }

    /// The next step of the activation of `bloc`: refused on an active
    /// space; attach the swap file to a loop device, then swap on it with the
    /// priority. When `losetup` fails, the activation fails; when `swapon`
    /// cannot start, the activation fails; when it runs and fails, the loop
    /// device is detached and the activation fails. The space
    /// is recorded active on its loop device only once `swapon` succeeded, and
    /// is otherwise left as it was.
    pub fn suite(&mut self, bloc: &mut SwapBlock, ev: Evenement) -> (r: Action)
        requires
            !(old(self).etape is Fini),
        ensures
            final(self).priorite == old(self).priorite,
            (final(self).etape.vue(), r.vue()) == prochaine_activation(old(self).etape, old(self).priorite, *old(bloc), ev),
            *final(bloc) == bloc_apres_activation(old(self).etape, *old(bloc), ev),
    {
        let ok = matches!(ev, Evenement::Reussite(_));
        match &self.etape {
            EtapeActivation::Debut => {
                if bloc.est_actif() {
                    self.etape = EtapeActivation::Fini;
                    Action::Echouer(joindre3("Bloc ", bloc.id.as_str(), " déjà actif"))
                } else {
                    self.etape = EtapeActivation::Losetup;
                    Action::Executer(bloc.commande_losetup())
                }
            },
            EtapeActivation::Losetup => match &ev {
                Evenement::Reussite(s) => {
                    let ld = SwapBlock::device_de_sortie(s.as_str());
                    let c = SwapBlock::commande_swapon(self.priorite, ld.as_str());
                    self.etape = EtapeActivation::Swapon(ld);
                    Action::Executer(c)
                },
                _ => {
                    self.etape = EtapeActivation::Fini;
                    Action::Echouer(joindre("losetup échoué : ", texte_detail(&ev).as_str()))
                },
            },
            EtapeActivation::Swapon(ld) => {
                let ld = ld.clone();
                if ok {
                    bloc.marquer_actif(ld);
                    self.etape = EtapeActivation::Fini;
                    Action::Reussir
                } else if matches!(ev, Evenement::Impossible(_)) {
                    self.etape = EtapeActivation::Fini;
                    Action::Echouer(joindre("swapon échoué : ", texte_detail(&ev).as_str()))
                } else {
                    let c = SwapBlock::commande_detacher(ld.as_str());
                    self.etape = EtapeActivation::Detachement(joindre("swapon échoué : ", texte_detail(&ev).as_str()));
                    Action::Executer(c)
                }
            },
            EtapeActivation::Detachement(m) => {
                let m = m.clone();
                self.etape = EtapeActivation::Fini;
                Action::Echouer(m)
            },
            EtapeActivation::Fini => Action::Reussir,
        }
    }
}

/// Where the deactivation of a space stands.
pub enum EtapeDesactivation {
    Debut,
    /// `swapoff` is disabling the loop device.
    Swapoff(String),
    /// `losetup -d` is detaching the loop device.
    Detachement(String),
    Fini,
}

impl EtapeDesactivation {
    /// The next step of the deactivation of `bloc`: refused on an inactive
    /// space; swap off its loop device and detach it (none without one). The
    /// first failure ends it with its error and leaves the space as it was;
    /// the space is recorded inactive, with no loop device, once both succeeded.
    pub fn suite(&mut self, bloc: &mut SwapBlock, ev: Evenement) -> (r: Action)
        requires
            !(*old(self) is Fini),
        ensures
            match *old(self) {
                EtapeDesactivation::Debut => if old(bloc).etat is Inactif {
                    *final(self) is Fini && r.vue() == ActionVue::Echouer("Bloc "@ + old(bloc).id@ + " déjà inactif"@)
                        && *final(bloc) == *old(bloc)
                } else {
                    match old(bloc).loop_device {
                        Some(ld) => (*final(self) matches EtapeDesactivation::Swapoff(l) && l@ == ld@)
                            && r.vue() == ActionVue::Executer(("swapoff"@, seq![ld@])) && *final(bloc) == *old(bloc),
                        None => *final(self) is Fini && r.vue() == ActionVue::Reussir,
                    }
                },
                EtapeDesactivation::Swapoff(ld) => if ev is Reussite {
                    (*final(self) matches EtapeDesactivation::Detachement(l) && l@ == ld@)
                        && r.vue() == ActionVue::Executer(("losetup"@, seq!["-d"@, ld@])) && *final(bloc) == *old(bloc)
                } else {
                    *final(self) is Fini && r.vue() == ActionVue::Echouer(erreur_run_cmd("swapoff"@, ev))
                        && *final(bloc) == *old(bloc)
                },
                EtapeDesactivation::Detachement(ld) => if ev is Reussite {
                    *final(self) is Fini && r.vue() == ActionVue::Reussir
                } else {
                    *final(self) is Fini && r.vue() == ActionVue::Echouer(erreur_run_cmd("losetup"@, ev))
                        && *final(bloc) == *old(bloc)
                },
                EtapeDesactivation::Fini => false,
            },
            ((*old(self) is Debut && old(bloc).etat is Actif && old(bloc).loop_device is None)
                || (*old(self) is Detachement && ev is Reussite)) ==> (final(bloc).id == old(bloc).id
                && final(bloc).taille_mb == old(bloc).taille_mb && final(bloc).etat is Inactif
                && final(bloc).loop_device is None),
    {
        let ok = matches!(ev, Evenement::Reussite(_));
        match self {
            EtapeDesactivation::Debut => {
                if !bloc.est_actif() {
                    *self = EtapeDesactivation::Fini;
                    return Action::Echouer(joindre3("Bloc ", bloc.id.as_str(), " déjà inactif"));
                }
                match &bloc.loop_device {
                    Some(ld) => {
                        let c = commande("swapoff", args1(ld.clone()));
                        *self = EtapeDesactivation::Swapoff(ld.clone());
                        Action::Executer(c)
                    },
                    None => {
                        bloc.marquer_inactif();
                        *self = EtapeDesactivation::Fini;
                        Action::Reussir
                    },
                }
            },
            EtapeDesactivation::Swapoff(ld) => {
                if ok {
                    let c = SwapBlock::commande_detacher(ld.as_str());
                    let l = ld.clone();
                    *self = EtapeDesactivation::Detachement(l);
                    Action::Executer(c)
                } else {
                    *self = EtapeDesactivation::Fini;
                    Action::Echouer(message_run_cmd("swapoff", &ev))
                }
            },
            EtapeDesactivation::Detachement(_) => {
                *self = EtapeDesactivation::Fini;
                if ok {
                    bloc.marquer_inactif();
                    Action::Reussir
                } else {
                    Action::Echouer(message_run_cmd("losetup", &ev))
                }
            },
            EtapeDesactivation::Fini => Action::Reussir,
        }
    }
}

} // verus!
