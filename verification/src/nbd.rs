//! Swap spaces shared over the network with NBD: the donor exposes a swap
//! file in a tmpfs through `nbd-server`; the receiver attaches it with
//! `nbd-client` and swaps on it.
use vstd::prelude::*;
use crate::commande::{
    Action, ActionVue, Commande, Evenement, commande, args1, args2, args4, args5, args6, detail, erreur_run,
    message_run, t, texte_detail, vue_commandes,
};
use crate::texte::{
    contient, contient_motif, decimal, joindre, joindre3, rogner, rogne, sans_fin, sans_fin_exec,
    texte_u64, vers_chars, analyse_u64, analyser_u64_texte,
};

verus! {

/// A swap space that this node (the donor) exposes to a receiver.
pub struct SwapExpose {
    pub swap_id: String,
    pub port_nbd: u16,
    pub receveur_ip: String,
    pub taille_mb: u64,
    pub chemin_fichier: String,
}

/// A swap space of a donor that this node (the receiver) uses.
pub struct SwapDistant {
    pub swap_id: String,
    pub donneur_ip: String,
    pub port_nbd: u16,
    pub device: String,
    pub taille_mb: u64,
}

/// Where the tmpfs of exposed spaces are mounted.
pub const BASE_PATH: &'static str = "/mnt/swapram";

/// The first port given to an exposed space.
pub const PORT_NBD_BASE: u16 = 10809;

/// Where the `nbd-server` configurations are written.
pub const CONFIG_PATH: &'static str = "/etc/nbd-server";


/// How many times the donor looks for the server's port before giving up.
pub const NB_ESSAIS_DEMARRAGE: u32 = 15;

/// How many NBD devices the receiver tries.
pub const NB_DEVICES_NBD: u32 = 16;

/// A space's size is capped at 4096 MB.
pub open spec fn taille_effective(taille_mb: u64) -> u64 {
    if taille_mb > 4096 {
        4096
    } else {
        taille_mb
    }
}

/// The directory of the exposed space `id`.
pub open spec fn dossier_expose(id: Seq<char>) -> Seq<char> {
    "/mnt/swapram"@ + "/"@ + id
}

/// The swap file of the exposed space `id`.
pub open spec fn fichier_expose(id: Seq<char>) -> Seq<char> {
    dossier_expose(id) + "/swapfile"@
}

/// The `nbd-server` configuration of the exposed space `id`.
pub open spec fn config_expose(id: Seq<char>) -> Seq<char> {
    "/etc/nbd-server"@ + "/"@ + id + ".conf"@
}

/// `<port>/tcp`, the argument of `fuser` for a port.
pub open spec fn port_tcp(port: u16) -> Seq<char> {
    decimal(port as nat) + "/tcp"@
}

/// The text of the `nbd-server` configuration that exports `fichier` as `id` on `port`.
pub open spec fn texte_config(id: Seq<char>, fichier: Seq<char>, port: u16) -> Seq<char> {
    "[generic]\n    user = root\n    group = root\n\n["@ + id + "]\n    exportname = "@ + fichier
        + "\n    port = "@ + decimal(port as nat) + "\n"@
}

/// What exposing a space takes: its paths, its size, and the steps that the
/// donor runs in order.
pub struct PlanExposition {
    pub chemin_dir: String,
    pub chemin_fichier: String,
    pub chemin_config: String,
    pub taille_effective: u64,
    /// Mounts a tmpfs of the space's size on its directory.
    pub montage: Commande,
    /// Fills the swap file with zeros.
    pub remplissage: Commande,
    /// Stops whatever listens on the port.
    pub liberation_port: Commande,
    /// The server's configuration.
    pub config: String,
    /// Starts the server.
    pub lancement: Commande,
    /// Lists the listening sockets, to see the server up.
    pub controle: Commande,
}

/// `fuser -k <port>/tcp`.
fn commande_fuser(port: u16) -> (r: Commande)
    ensures
        r.vue() == ("fuser"@, seq!["-k"@, port_tcp(port)]),
{
    let p = texte_u64(port as u64);
    commande("fuser", args2(t("-k"), joindre(p.as_str(), "/tcp")))
}

/// The plan to expose `swap_id` with `taille_mb` MB on `port`.
pub fn plan_exposition(swap_id: &str, taille_mb: u64, port: u16) -> (r: PlanExposition)
    ensures
        r.chemin_dir@ == dossier_expose(swap_id@),
        r.chemin_fichier@ == fichier_expose(swap_id@),
        r.chemin_config@ == config_expose(swap_id@),
        r.taille_effective == taille_effective(taille_mb),
        r.montage.vue() == ("mount"@, seq![
            "-t"@,
            "tmpfs"@,
            "-o"@,
            "size="@ + decimal(taille_effective(taille_mb) as nat) + "M"@,
            "tmpfs"@,
            dossier_expose(swap_id@),
        ]),
        r.remplissage.vue() == ("dd"@, seq![
            "if=/dev/zero"@,
            "of="@ + fichier_expose(swap_id@),
            "bs=1M"@,
            "count="@ + decimal(taille_effective(taille_mb) as nat),
        ]),
        r.liberation_port.vue() == ("fuser"@, seq!["-k"@, port_tcp(port)]),
        r.config@ == texte_config(swap_id@, fichier_expose(swap_id@), port),
        r.lancement.vue() == ("nbd-server"@, seq!["-C"@, config_expose(swap_id@)]),
        r.controle.vue() == ("ss"@, seq!["-tlnp"@]),
{
    let chemin_dir = joindre3(BASE_PATH, "/", swap_id);
    let chemin_fichier = joindre(chemin_dir.as_str(), "/swapfile");
    let mut chemin_config = joindre3(CONFIG_PATH, "/", swap_id);
    chemin_config.append(".conf");
    let taille = if taille_mb > 4096 {
        4096
    } else {
        taille_mb
    };
    let taille_txt = texte_u64(taille);
    let montage = commande(
        "mount",
        args6(
            t("-t"),
            t("tmpfs"),
            t("-o"),
            joindre3("size=", taille_txt.as_str(), "M"),
            t("tmpfs"),
            chemin_dir.clone(),
        ),
    );
    let remplissage = commande(
        "dd",
        args4(
            t("if=/dev/zero"),
            joindre("of=", chemin_fichier.as_str()),
            t("bs=1M"),
            joindre("count=", taille_txt.as_str()),
        ),
    );
    let port_txt = texte_u64(port as u64);
    let mut config = joindre3(
        "[generic]\n    user = root\n    group = root\n\n[",
        swap_id,
        "]\n    exportname = ",
    );
    config.append(chemin_fichier.as_str());
    config.append("\n    port = ");
    config.append(port_txt.as_str());
    config.append("\n");
    let lancement = commande("nbd-server", args2(t("-C"), chemin_config.clone()));
    let controle = commande("ss", args1(t("-tlnp")));
    PlanExposition {
        chemin_dir,
        chemin_fichier,
        chemin_config,
        taille_effective: taille,
        montage,
        remplissage,
        liberation_port: commande_fuser(port),
        config,
        lancement,
        controle,
    }
}

/// The server listens on `port`: the output of `ss` holds `:<port>`.
pub fn port_ouvert(sortie_ss: &str, port: u16) -> (r: bool)
    ensures
        r == contient(sortie_ss@, ":"@ + decimal(port as nat)),
{
    let s = vers_chars(sortie_ss);
    let motif_txt = joindre(":", texte_u64(port as u64).as_str());
    let motif = vers_chars(motif_txt.as_str());
    assert(s@.subrange(0, s@.len() as int) == s@);
    contient_motif(&s, 0, s.len(), &motif)
}

/// The error when the server did not come up: `nbd-server n'a pas démarré sur le port <port>`.
pub fn erreur_demarrage(port: u16) -> (r: String)
    ensures
        r@ == "nbd-server n'a pas démarré sur le port "@ + decimal(port as nat),
{
    joindre("nbd-server n'a pas démarré sur le port ", texte_u64(port as u64).as_str())
}

impl SwapExpose {
    /// The exposed space that a plan describes, once its server is up.
    pub fn depuis_plan(plan: PlanExposition, swap_id: &str, port: u16, receveur_ip: &str) -> (r: SwapExpose)
        ensures
            r.swap_id@ == swap_id@,
            r.port_nbd == port,
            r.receveur_ip@ == receveur_ip@,
            r.taille_mb == plan.taille_effective,
            r.chemin_fichier == plan.chemin_fichier,
    {
        SwapExpose {
            swap_id: String::from_str(swap_id),
            port_nbd: port,
            receveur_ip: String::from_str(receveur_ip),
            taille_mb: plan.taille_effective,
            chemin_fichier: plan.chemin_fichier,
        }
    }
}

/// Where the exposure of a space stands.
pub enum EtapeExposition {
    Debut,
    Dossier,
    Montage,
    Remplissage,
    LiberationPort,
    Pause,
    DossierConfig,
    Config,
    Lancement,
    /// Waiting before a look at the listening sockets; so many looks are left.
    Attente(u32),
    /// Looking at the listening sockets; so many looks are left after this one.
    Controle(u32),
    Demontage,
    SuppressionDossier,
    SuppressionConfig,
    Fini,
}

/// The exposure of a space, step by step: the node runs each step that
/// `suite` gives and hands back what came of it.
pub struct Exposition {
    pub plan: PlanExposition,
    pub swap_id: String,
    pub port: u16,
    pub receveur_ip: String,
    pub etape: EtapeExposition,
}

/// A stage that the exposure can be in: at most `NB_ESSAIS_DEMARRAGE` looks.
pub open spec fn etape_valide(e: EtapeExposition) -> bool {
    match e {
        EtapeExposition::Attente(n) => 1 <= n <= 15,
        EtapeExposition::Controle(k) => k < 15,
        _ => true,
    }
}

/// How far the exposure is from its end: each step brings it closer.
pub open spec fn reste(e: EtapeExposition) -> nat {
    match e {
        EtapeExposition::Debut => 48,
        EtapeExposition::Dossier => 47,
        EtapeExposition::Montage => 46,
        EtapeExposition::Remplissage => 45,
        EtapeExposition::LiberationPort => 44,
        EtapeExposition::Pause => 43,
        EtapeExposition::DossierConfig => 42,
        EtapeExposition::Config => 41,
        EtapeExposition::Lancement => 40,
        EtapeExposition::Attente(n) => (2 * n + 5) as nat,
        EtapeExposition::Controle(k) => (2 * k + 6) as nat,
        EtapeExposition::Demontage => 3,
        EtapeExposition::SuppressionDossier => 2,
        EtapeExposition::SuppressionConfig => 1,
        EtapeExposition::Fini => 0,
    }
}

/// The next stage and step of an exposure, given what came of the last step:
/// make the directory, mount the tmpfs, fill the swap file (the first failure
/// ends it with its error); stop whatever listens on the port and wait 1 s;
/// make the configuration's directory, write the configuration, start the
/// server (again, the first failure ends it); then up to 15 times, wait 2 s
/// and look whether the port is listened on; when it never is, unmount and
/// remove the directory, remove the configuration, and fail.
pub open spec fn prochaine_exposition(x: Exposition, ev: Evenement) -> (EtapeExposition, ActionVue) {
    let p = x.plan;
    let ok = ev is Reussite;
    match x.etape {
        EtapeExposition::Debut => (EtapeExposition::Dossier, ActionVue::CreerDossier(p.chemin_dir@)),
        EtapeExposition::Dossier => if ok {
            (EtapeExposition::Montage, ActionVue::Executer(p.montage.vue()))
        } else {
            (EtapeExposition::Fini, ActionVue::Echouer("mkdir échoué : "@ + detail(ev)))
        },
        EtapeExposition::Montage => if ok {
            (EtapeExposition::Remplissage, ActionVue::Executer(p.remplissage.vue()))
        } else {
            (EtapeExposition::Fini, ActionVue::Echouer(erreur_run("mount"@, ev)))
        },
        EtapeExposition::Remplissage => if ok {
            (EtapeExposition::LiberationPort, ActionVue::Executer(p.liberation_port.vue()))
        } else {
            (EtapeExposition::Fini, ActionVue::Echouer(erreur_run("dd"@, ev)))
        },
        EtapeExposition::LiberationPort => (EtapeExposition::Pause, ActionVue::Attendre(1)),
        EtapeExposition::Pause => (EtapeExposition::DossierConfig, ActionVue::CreerDossier("/etc/nbd-server"@)),
        EtapeExposition::DossierConfig => if ok {
            (EtapeExposition::Config, ActionVue::EcrireFichier(p.chemin_config@, p.config@))
        } else {
            (EtapeExposition::Fini, ActionVue::Echouer("mkdir config échoué : "@ + detail(ev)))
        },
        EtapeExposition::Config => if ok {
            (EtapeExposition::Lancement, ActionVue::Executer(p.lancement.vue()))
        } else {
            (EtapeExposition::Fini, ActionVue::Echouer("Écriture config échouée : "@ + detail(ev)))
        },
        EtapeExposition::Lancement => if ok {
            (EtapeExposition::Attente(15), ActionVue::Attendre(2))
        } else {
            (EtapeExposition::Fini, ActionVue::Echouer(erreur_run("nbd-server"@, ev)))
        },
        EtapeExposition::Attente(n) => (EtapeExposition::Controle((n - 1) as u32), ActionVue::Observer(p.controle.vue())),
        EtapeExposition::Controle(k) => if ev matches Evenement::Reussite(s) && contient(s@, ":"@ + decimal(x.port as nat)) {
            (EtapeExposition::Fini, ActionVue::Reussir)
        } else if k > 0 {
            (EtapeExposition::Attente(k), ActionVue::Attendre(2))
        } else {
            (EtapeExposition::Demontage, ActionVue::Executer(("umount"@, seq![p.chemin_dir@])))
        },
        EtapeExposition::Demontage => (EtapeExposition::SuppressionDossier, ActionVue::SupprimerDossier(p.chemin_dir@)),
        EtapeExposition::SuppressionDossier => (EtapeExposition::SuppressionConfig, ActionVue::SupprimerFichier(p.chemin_config@)),
        EtapeExposition::SuppressionConfig => (
            EtapeExposition::Fini,
            ActionVue::Echouer("nbd-server n'a pas démarré sur le port "@ + decimal(x.port as nat)),
        ),
        EtapeExposition::Fini => (EtapeExposition::Fini, ActionVue::Echouer(Seq::empty())),
    }
}

impl Exposition {
    /// The exposure of `swap_id` with `taille_mb` MB on `port` for
    /// `receveur_ip`, not begun (see `plan_exposition`).
    pub fn nouvelle(swap_id: &str, taille_mb: u64, port: u16, receveur_ip: &str) -> (r: Exposition)
        ensures
            r.etape is Debut,
            r.swap_id@ == swap_id@,
            r.port == port,
            r.receveur_ip@ == receveur_ip@,
            r.plan.chemin_dir@ == dossier_expose(swap_id@),
            r.plan.chemin_fichier@ == fichier_expose(swap_id@),
            r.plan.chemin_config@ == config_expose(swap_id@),
            r.plan.taille_effective == taille_effective(taille_mb),
            r.plan.montage.vue() == ("mount"@, seq![
                "-t"@,
                "tmpfs"@,
                "-o"@,
                "size="@ + decimal(taille_effective(taille_mb) as nat) + "M"@,
                "tmpfs"@,
                dossier_expose(swap_id@),
            ]),
            r.plan.remplissage.vue() == ("dd"@, seq![
                "if=/dev/zero"@,
                "of="@ + fichier_expose(swap_id@),
                "bs=1M"@,
                "count="@ + decimal(taille_effective(taille_mb) as nat),
            ]),
            r.plan.liberation_port.vue() == ("fuser"@, seq!["-k"@, port_tcp(port)]),
            r.plan.config@ == texte_config(swap_id@, fichier_expose(swap_id@), port),
            r.plan.lancement.vue() == ("nbd-server"@, seq!["-C"@, config_expose(swap_id@)]),
            r.plan.controle.vue() == ("ss"@, seq!["-tlnp"@]),
    {
        Exposition {
            plan: plan_exposition(swap_id, taille_mb, port),
            swap_id: String::from_str(swap_id),
            port,
            receveur_ip: String::from_str(receveur_ip),
            etape: EtapeExposition::Debut,
        }
    }

    /// The next step, given what came of the last one (see `prochaine_exposition`).
    pub fn suite(&mut self, ev: Evenement) -> (r: Action)
        requires
            !(old(self).etape is Fini),
            etape_valide(old(self).etape),
        ensures
            (final(self).etape, r.vue()) == prochaine_exposition(*old(self), ev),
            etape_valide(final(self).etape),
            reste(final(self).etape) < reste(old(self).etape),
            final(self).plan == old(self).plan,
            final(self).swap_id == old(self).swap_id,
            final(self).port == old(self).port,
            final(self).receveur_ip == old(self).receveur_ip,
    {
        let ok = matches!(ev, Evenement::Reussite(_));
        let p = &self.plan;
        let (etape, action) = match self.etape {
            EtapeExposition::Debut => (EtapeExposition::Dossier, Action::CreerDossier(p.chemin_dir.clone())),
            EtapeExposition::Dossier => if ok {
                (EtapeExposition::Montage, Action::Executer(p.montage.copie()))
            } else {
                (EtapeExposition::Fini, Action::Echouer(crate::texte::joindre("mkdir échoué : ", texte_detail(&ev).as_str())))
            },
            EtapeExposition::Montage => if ok {
                (EtapeExposition::Remplissage, Action::Executer(p.remplissage.copie()))
            } else {
                (EtapeExposition::Fini, Action::Echouer(message_run("mount", &ev)))
            },
            EtapeExposition::Remplissage => if ok {
                (EtapeExposition::LiberationPort, Action::Executer(p.liberation_port.copie()))
            } else {
                (EtapeExposition::Fini, Action::Echouer(message_run("dd", &ev)))
            },
            EtapeExposition::LiberationPort => (EtapeExposition::Pause, Action::Attendre(1)),
            EtapeExposition::Pause => (EtapeExposition::DossierConfig, Action::CreerDossier(t(CONFIG_PATH))),
            EtapeExposition::DossierConfig => if ok {
                (EtapeExposition::Config, Action::EcrireFichier(p.chemin_config.clone(), p.config.clone()))
            } else {
                (EtapeExposition::Fini, Action::Echouer(crate::texte::joindre("mkdir config échoué : ", texte_detail(&ev).as_str())))
            },
            EtapeExposition::Config => if ok {
                (EtapeExposition::Lancement, Action::Executer(p.lancement.copie()))
            } else {
                (EtapeExposition::Fini, Action::Echouer(crate::texte::joindre("Écriture config échouée : ", texte_detail(&ev).as_str())))
            },
            EtapeExposition::Lancement => if ok {
                (EtapeExposition::Attente(NB_ESSAIS_DEMARRAGE), Action::Attendre(2))
            } else {
                (EtapeExposition::Fini, Action::Echouer(message_run("nbd-server", &ev)))
            },
            EtapeExposition::Attente(n) => (EtapeExposition::Controle(n - 1), Action::Observer(p.controle.copie())),
            EtapeExposition::Controle(k) => {
                let pret = match &ev {
                    Evenement::Reussite(s) => port_ouvert(s.as_str(), self.port),
                    _ => false,
                };
                if pret {
                    (EtapeExposition::Fini, Action::Reussir)
                } else if k > 0 {
                    (EtapeExposition::Attente(k), Action::Attendre(2))
                } else {
                    (EtapeExposition::Demontage, Action::Executer(commande("umount", args1(p.chemin_dir.clone()))))
                }
            },
            EtapeExposition::Demontage => (EtapeExposition::SuppressionDossier, Action::SupprimerDossier(p.chemin_dir.clone())),
            EtapeExposition::SuppressionDossier => (EtapeExposition::SuppressionConfig, Action::SupprimerFichier(p.chemin_config.clone())),
            EtapeExposition::SuppressionConfig => (EtapeExposition::Fini, Action::Echouer(erreur_demarrage(self.port))),
            EtapeExposition::Fini => (EtapeExposition::Fini, Action::Echouer(String::new())),
        };
        self.etape = etape;
        action
    }

    /// The exposed space, once the exposure succeeded.
    pub fn exposee(self) -> (r: SwapExpose)
        ensures
            r.swap_id == self.swap_id,
            r.port_nbd == self.port,
            r.receveur_ip == self.receveur_ip,
            r.taille_mb == self.plan.taille_effective,
            r.chemin_fichier == self.plan.chemin_fichier,
    {
        SwapExpose {
            swap_id: self.swap_id,
            port_nbd: self.port,
            receveur_ip: self.receveur_ip,
            taille_mb: self.plan.taille_effective,
            chemin_fichier: self.plan.chemin_fichier,
        }
    }
}

/// What stopping an exposed space takes: stop the server that serves it (when
/// its port is known), unmount and remove its directory, remove its
/// configuration.
pub struct PlanArret {
    pub liberation_port: Option<Commande>,
    pub demontage: Commande,
    pub chemin_dir: String,
    pub chemin_config: String,
}

/// The plan to stop the space `swap_id`, whose server listens on `port` when
/// it is known.
pub fn plan_arret_de(swap_id: &str, port: Option<u16>) -> (r: PlanArret)
    ensures
        match port {
            Some(p) => r.liberation_port matches Some(c) && c.vue() == ("fuser"@, seq!["-k"@, port_tcp(p)]),
            None => r.liberation_port is None,
        },
        r.demontage.vue() == ("umount"@, seq![dossier_expose(swap_id@)]),
        r.chemin_dir@ == dossier_expose(swap_id@),
        r.chemin_config@ == config_expose(swap_id@),
{
    let chemin_dir = joindre3(BASE_PATH, "/", swap_id);
    let mut chemin_config = joindre3(CONFIG_PATH, "/", swap_id);
    chemin_config.append(".conf");
    let liberation_port = match port {
        Some(p) => Some(commande_fuser(p)),
        None => None,
    };
    PlanArret { liberation_port, demontage: commande("umount", args1(chemin_dir.clone())), chemin_dir, chemin_config }
}

/// The plan to stop `expose`: its server on its port, its directory and configuration.
pub fn plan_arret(expose: &SwapExpose) -> (r: PlanArret)
    ensures
        r.liberation_port matches Some(c) && c.vue() == ("fuser"@, seq!["-k"@, port_tcp(expose.port_nbd)]),
        r.demontage.vue() == ("umount"@, seq![dossier_expose(expose.swap_id@)]),
        r.chemin_dir@ == dossier_expose(expose.swap_id@),
        r.chemin_config@ == config_expose(expose.swap_id@),
{
    plan_arret_de(expose.swap_id.as_str(), Some(expose.port_nbd))
}

/// A donor's address as written: trimmed, without trailing commas.
pub open spec fn ip_nettoyee(ip: Seq<char>) -> Seq<char> {
    sans_fin(rogner(ip), ',')
}

/// `ip.trim().trim_end_matches(',')`.
pub fn nettoyer_ip(ip: &str) -> (r: String)
    ensures
        r@ == ip_nettoyee(ip@),
{
    let x = rogne(ip);
    sans_fin_exec(x.as_str(), ',')
}

/// The commands that attach the space `swap_id` of the donor `donneur_ip` on
/// `device` and swap on it: load the module, connect, format, enable with
/// priority 100.
pub fn commandes_connexion(donneur_ip: &str, port: u16, device: &str, swap_id: &str) -> (r: Vec<Commande>)
    ensures
        vue_commandes(r@) == seq![
            ("modprobe"@, seq!["nbd"@]),
            ("nbd-client"@, seq![ip_nettoyee(donneur_ip@), decimal(port as nat), "-N"@, swap_id@, device@]),
            ("mkswap"@, seq![device@]),
            ("swapon"@, seq!["-p"@, "100"@, device@]),
        ],
{
    let ip = nettoyer_ip(donneur_ip);
    let module = commande("modprobe", args1(t("nbd")));
    let connexion = commande("nbd-client", args5(ip, texte_u64(port as u64), t("-N"), t(swap_id), t(device)));
    let format = commande("mkswap", args1(t(device)));
    let activation = commande("swapon", crate::commande::args3(t("-p"), t("100"), t(device)));
    let r = vec![module, connexion, format, activation];
    assert(vue_commandes(r@) =~= seq![module.vue(), connexion.vue(), format.vue(), activation.vue()]);
    r
}

impl SwapDistant {
    /// The space in use once attached.
    pub fn nouveau(swap_id: &str, donneur_ip: &str, port_nbd: u16, device: &str, taille_mb: u64) -> (r: SwapDistant)
        ensures
            r.swap_id@ == swap_id@,
            r.donneur_ip@ == donneur_ip@,
            r.port_nbd == port_nbd,
            r.device@ == device@,
            r.taille_mb == taille_mb,
    {
        SwapDistant {
            swap_id: String::from_str(swap_id),
            donneur_ip: String::from_str(donneur_ip),
            port_nbd,
            device: String::from_str(device),
            taille_mb,
        }
    }
}

/// The commands that stop using a remote space: swap off it (its pages come
/// back), then detach the device.
pub fn commandes_deconnexion(distant: &SwapDistant) -> (r: Vec<Commande>)
    ensures
        vue_commandes(r@) == seq![
            ("swapoff"@, seq![distant.device@]),
            ("nbd-client"@, seq!["-d"@, distant.device@]),
        ],
{
    let arret = commande("swapoff", args1(distant.device.clone()));
    let detacher = commande("nbd-client", args2(t("-d"), distant.device.clone()));
    let r = vec![arret, detacher];
    assert(vue_commandes(r@) =~= seq![arret.vue(), detacher.vue()]);
    r
}

/// The NBD device number `i`: `/dev/nbd<i>`.
pub fn device_nbd(i: u32) -> (r: String)
    ensures
        r@ == "/dev/nbd"@ + decimal(i as nat),
{
    joindre("/dev/nbd", texte_u64(i as u64).as_str())
}

/// `blockdev --getsize64 <device>`: prints the device's size in bytes.
pub fn commande_blockdev(device: &str) -> (r: Commande)
    ensures
        r.vue() == ("blockdev"@, seq!["--getsize64"@, device@]),
{
    commande("blockdev", args2(t("--getsize64"), t(device)))
}

/// The size that `blockdev` printed, trimmed and read, or 0.
pub fn taille_blockdev(sortie: &str) -> (r: u64)
    ensures
        r == match analyse_u64(rogner(sortie@)) {
            Some(n) => n,
            None => 0,
        },
{
    let x = rogne(sortie);
    match analyser_u64_texte(x.as_str()) {
        Some(n) => n,
        None => 0,
    }
}

/// A device of size 0 is free.
pub fn device_libre(taille: u64) -> (r: bool)
    ensures
        r == (taille == 0),
{
    taille == 0
}

/// What the search of a free NBD device asks next.
pub enum PasRecherche {
    /// Read the size of a device: `Reussite(output)`, whatever its exit
    /// status, or `Impossible(error)`.
    Observer(Commande),
    /// This device is free.
    Trouve(String),
    /// No device is free, or a size could not be read.
    Echec(String),
}

/// The search of a free NBD device: `/dev/nbd0` to `/dev/nbd15` in turn; the
/// first of size 0 is free.
pub struct RechercheDevice {
    /// The number of the device being read.
    pub i: u32,
}

impl RechercheDevice {
    /// The search, at its first device.
    pub fn debut() -> (r: (RechercheDevice, PasRecherche))
        ensures
            r.0.i == 0,
            r.1 matches PasRecherche::Observer(c) && c.vue() == ("blockdev"@, seq!["--getsize64"@, "/dev/nbd"@ + decimal(0)]),
    {
        let d = device_nbd(0);
        (RechercheDevice { i: 0 }, PasRecherche::Observer(commande_blockdev(d.as_str())))
    }

    /// The next step, given what reading the size of the current device gave:
    /// a size of 0 (what `taille_blockdev` reads) means the device is free;
    /// another size goes on with the next device, up to the last one; a
    /// command that could not run ends the search with `blockdev échoué : <error>`.
    pub fn suite(&mut self, ev: Evenement) -> (r: PasRecherche)
        requires
            old(self).i < 16,
        ensures
            match ev {
                Evenement::Reussite(s) => if taille_lue(s@) == 0 {
                    (r matches PasRecherche::Trouve(d) && d@ == "/dev/nbd"@ + decimal(old(self).i as nat))
                        && final(self).i == old(self).i
                } else if old(self).i + 1 < 16 {
                    (r matches PasRecherche::Observer(c) && c.vue() == ("blockdev"@, seq![
                        "--getsize64"@,
                        "/dev/nbd"@ + decimal((old(self).i + 1) as nat),
                    ])) && final(self).i == old(self).i + 1
                } else {
                    (r matches PasRecherche::Echec(e) && e@ == "Aucun /dev/nbdX libre"@) && final(self).i == old(self).i
                },
                _ => (r matches PasRecherche::Echec(e) && e@ == "blockdev échoué : "@ + detail(ev))
                    && final(self).i == old(self).i,
            },
    {
        match &ev {
            Evenement::Reussite(s) => {
                if device_libre(taille_blockdev(s.as_str())) {
                    PasRecherche::Trouve(device_nbd(self.i))
                } else if self.i + 1 < NB_DEVICES_NBD {
                    self.i = self.i + 1;
                    let d = device_nbd(self.i);
                    PasRecherche::Observer(commande_blockdev(d.as_str()))
                } else {
                    PasRecherche::Echec(t("Aucun /dev/nbdX libre"))
                }
            },
            _ => PasRecherche::Echec(crate::texte::joindre("blockdev échoué : ", texte_detail(&ev).as_str())),
        }
    }
}

/// The size that `blockdev` printed, trimmed and read, or 0.
pub open spec fn taille_lue(sortie: Seq<char>) -> u64 {
    match analyse_u64(rogner(sortie)) {
        Some(n) => n,
        None => 0,
    }
}

} // verus!
