//! The answers of the agent's RPC service: which method a request names,
//! what it reads in the parameters and what it answers.
use vstd::prelude::*;
use crate::agent::Agent;
use crate::appariement::vue_offres;
use crate::json::{
    Json, JsonVue, champ_json, en_texte, en_u64, lemme_vue_liste, lemme_vue_paires, objet, objet1,
    valeur_texte, valeur_u64, vue_liste, vue_paires,
};
use crate::message::{RpcRequest, RpcResponse};
use crate::texte::{decimal, joindre, rogner, rogne, texte_u64};
use crate::swap::ou_zero;
use crate::watcher::{SwapSuivi, SwapWatcher};

verus! {

/// The methods of the service.
pub enum Methode {
    RamAvailable,
    RamSaturee,
    PeersRam,
    CreerSwap,
    LibererSwap,
    ListeSwaps,
    UtilisationSwap,
    Statut,
    GetVmStatus,
    Inconnue,
}

/// The method that a name designates.
pub open spec fn methode_de(nom: Seq<char>) -> Methode {
    if nom == "ram_available"@ {
        Methode::RamAvailable
    } else if nom == "ram_saturee"@ {
        Methode::RamSaturee
    } else if nom == "peers_ram"@ {
        Methode::PeersRam
    } else if nom == "creer_swap"@ {
        Methode::CreerSwap
    } else if nom == "liberer_swap"@ {
        Methode::LibererSwap
    } else if nom == "liste_swaps"@ {
        Methode::ListeSwaps
    } else if nom == "utilisation_swap"@ {
        Methode::UtilisationSwap
    } else if nom == "statut"@ {
        Methode::Statut
    } else if nom == "get_vm_status"@ {
        Methode::GetVmStatus
    } else {
        Methode::Inconnue
    }
}

fn est(nom: &String, attendu: &str) -> (r: bool)
    ensures
        r == (nom@ == attendu@),
{
    *nom == String::from_str(attendu)
}

/// The method that the request names.
pub fn methode(req: &RpcRequest) -> (r: Methode)
    ensures
        r == methode_de(req.method@),
{
    let m = &req.method;
    if est(m, "ram_available") {
        Methode::RamAvailable
    } else if est(m, "ram_saturee") {
        Methode::RamSaturee
    } else if est(m, "peers_ram") {
        Methode::PeersRam
    } else if est(m, "creer_swap") {
        Methode::CreerSwap
    } else if est(m, "liberer_swap") {
        Methode::LibererSwap
    } else if est(m, "liste_swaps") {
        Methode::ListeSwaps
    } else if est(m, "utilisation_swap") {
        Methode::UtilisationSwap
    } else if est(m, "statut") {
        Methode::Statut
    } else if est(m, "get_vm_status") {
        Methode::GetVmStatus
    } else {
        Methode::Inconnue
    }
}

/// The answer to an unknown method: error -32601.
pub fn reponse_methode_inconnue(id: u64) -> (r: RpcResponse)
    ensures
        r.id == id,
        r.result is None,
        r.error matches Some(e) && e.code == -32601 && e.message@ == "Méthode inconnue"@,
{
    RpcResponse::error(id, -32601, "Méthode inconnue")
}

/// The answer to a line that is not a request: error -32700, id 0.
pub fn reponse_json_invalide(erreur: &str) -> (r: RpcResponse)
    ensures
        r.id == 0,
        r.result is None,
        r.error matches Some(e) && e.code == -32700 && e.message@ == "JSON invalide: "@ + erreur@,
{
    RpcResponse::error(0, -32700, joindre("JSON invalide: ", erreur).as_str())
}

/// A received line is a request to answer unless it is blank.
pub fn ligne_a_traiter(ligne: &str) -> (r: bool)
    ensures
        r == (rogner(ligne@).len() > 0),
{
    let x = rogne(ligne);
    x.as_str().unicode_len() > 0
}

fn entree(cle: &str, valeur: Json) -> (r: (String, Json))
    ensures
        r.0@ == cle@,
        r.1 == valeur,
{
    (String::from_str(cle), valeur)
}

/// The result of `ram_available`: `{"available_mb": mb}`.
pub open spec fn resultat_ram(mb: u64) -> JsonVue {
    JsonVue::Objet(seq![("available_mb"@, JsonVue::Entier(mb))])
}

/// The result of `ram_saturee`: `{"saturee": saturee}`.
pub open spec fn resultat_saturee(saturee: bool) -> JsonVue {
    JsonVue::Objet(seq![("saturee"@, JsonVue::Booleen(saturee))])
}

/// The result of `creer_swap`: `{"port_nbd": port, "swap_id": swap_id}`.
pub open spec fn resultat_swap_cree(port: u16, swap_id: Seq<char>) -> JsonVue {
    JsonVue::Objet(seq![("port_nbd"@, JsonVue::Entier(port as u64)), ("swap_id"@, JsonVue::Texte(swap_id))])
}

/// Answers `ram_available`: `{"available_mb": mb}`.
pub fn reponse_ram_available(id: u64, mb: u64) -> (r: RpcResponse)
    ensures
        r.id == id,
        r.error is None,
        r.result matches Some(j) && j.vue() == resultat_ram(mb),
{
    RpcResponse::success(id, objet1("available_mb", Json::Entier(mb)))
}

/// Answers `ram_saturee`: `{"saturee": saturee}`.
pub fn reponse_ram_saturee(id: u64, saturee: bool) -> (r: RpcResponse)
    ensures
        r.id == id,
        r.error is None,
        r.result matches Some(j) && j.vue() == resultat_saturee(saturee),
{
    RpcResponse::success(id, objet1("saturee", Json::Booleen(saturee)))
}

/// The object `{ip: mb, ...}` of a list of offers.
pub open spec fn objet_offres(o: Seq<(Seq<char>, u64)>) -> Seq<(Seq<char>, JsonVue)> {
    Seq::new(o.len(), |i: int| (o[i].0, JsonVue::Entier(o[i].1)))
}

/// Answers `peers_ram`: `{"peers": {ip: mb, ...}}`, the peers that answered.
pub fn reponse_peers_ram(id: u64, peers: &Vec<(String, u64)>) -> (r: RpcResponse)
    ensures
        r.id == id,
        r.error is None,
        r.result matches Some(j) && j.vue() == JsonVue::Objet(seq![("peers"@, JsonVue::Objet(objet_offres(vue_offres(peers@))))]),
{
    let mut paires: Vec<(String, Json)> = Vec::new();
    let mut i: usize = 0;
    while i < peers.len()
        invariant
            i <= peers.len(),
            paires@.len() == i,
            forall|k: int| 0 <= k < i ==> (#[trigger] paires@[k]).0@ == peers@[k].0@ && paires@[k].1.vue() == JsonVue::Entier(peers@[k].1),
        decreases peers.len() - i,
    {
        paires.push((peers[i].0.clone(), Json::Entier(peers[i].1)));
        i += 1;
    }
    proof {
        lemme_vue_paires(paires@);
        assert(vue_paires(paires@) =~= objet_offres(vue_offres(peers@)));
    }
    RpcResponse::success(id, objet1("peers", objet(paires)))
}

/// The parameters of `creer_swap`.
pub struct ParamsCreerSwap {
    pub taille_mb: u64,
    pub receveur_ip: String,
    pub receveur_port_rpc: u16,
}

/// A string parameter, or the empty string.
pub open spec fn texte_ou_vide(j: JsonVue, cle: Seq<char>) -> Seq<char> {
    match en_texte(champ_json(j, cle)) {
        Some(s) => s,
        None => Seq::empty(),
    }
}

/// Reads the parameters of `creer_swap`: `taille_mb` is needed (else error
/// -32602), `receveur_ip` defaults to the empty string, `receveur_port_rpc`
/// to 7878 (and is taken modulo 2^16).
pub fn lire_params_creer_swap(req: &RpcRequest) -> (r: Result<ParamsCreerSwap, RpcResponse>)
    ensures
        match en_u64(champ_json(req.params.vue(), "taille_mb"@)) {
            None => r matches Err(e) && e.id == req.id && e.result is None && (e.error matches Some(er) && er.code == -32602 && er.message@ == "taille_mb manquant"@),
            Some(t) => r matches Ok(p) && p.taille_mb == t && p.receveur_ip@ == texte_ou_vide(req.params.vue(), "receveur_ip"@) && p.receveur_port_rpc == match en_u64(champ_json(req.params.vue(), "receveur_port_rpc"@)) {
                Some(n) => n as u16,
                None => 7878u16,
            },
        },
{
    let taille_mb = match valeur_u64(req.params.champ("taille_mb")) {
        Some(t) => t,
        None => return Err(RpcResponse::error(req.id, -32602, "taille_mb manquant")),
    };
    let receveur_ip = match valeur_texte(req.params.champ("receveur_ip")) {
        Some(s) => s.clone(),
        None => String::new(),
    };
    let port = match valeur_u64(req.params.champ("receveur_port_rpc")) {
        Some(n) => n as u16,
        None => 7878,
    };
    Ok(ParamsCreerSwap { taille_mb, receveur_ip, receveur_port_rpc: port })
}

/// A donor refuses a space when it would keep less than 500 MB available:
/// error -1 `RAM insuffisante : <available> Mo dispo, <taille> Mo demandés + 500 Mo marge`.
pub fn refus_ram(id: u64, available: u64, taille_mb: u64) -> (r: Option<RpcResponse>)
    requires
        taille_mb + 500 <= u64::MAX,
    ensures
        available >= taille_mb + 500 ==> r is None,
        available < taille_mb + 500 ==> (r matches Some(e) && e.id == id && e.result is None && (e.error matches Some(er) && er.code == -1 && er.message@ == "RAM insuffisante : "@ + decimal(available as nat) + " Mo dispo, "@ + decimal(taille_mb as nat) + " Mo demandés + 500 Mo marge"@)),
{
    if available < taille_mb + 500 {
        let mut m = joindre("RAM insuffisante : ", texte_u64(available).as_str());
        m.append(" Mo dispo, ");
        m.append(texte_u64(taille_mb).as_str());
        m.append(" Mo demandés + 500 Mo marge");
        Some(RpcResponse::error(id, -1, m.as_str()))
    } else {
        None
    }
}

/// Answers a made space: `{"port_nbd": port, "swap_id": swap_id}`.
pub fn reponse_swap_cree(id: u64, port: u16, swap_id: &str) -> (r: RpcResponse)
    ensures
        r.id == id,
        r.error is None,
        r.result matches Some(j) && j.vue() == resultat_swap_cree(port, swap_id@),
{
    let paires = vec![
        entree("port_nbd", Json::Entier(port as u64)),
        entree("swap_id", Json::Texte(String::from_str(swap_id))),
    ];
    proof {
        lemme_vue_paires(paires@);
        assert(vue_paires(paires@) =~= seq![
            ("port_nbd"@, JsonVue::Entier(port as u64)),
            ("swap_id"@, JsonVue::Texte(swap_id@)),
        ]);
    }
    RpcResponse::success(id, objet(paires))
}

/// Answers a failed creation: error -1 `Création échouée : <e>`.
pub fn reponse_creation_echouee(id: u64, e: &str) -> (r: RpcResponse)
    ensures
        r.id == id,
        r.result is None,
        r.error matches Some(er) && er.code == -1 && er.message@ == "Création échouée : "@ + e@,
{
    RpcResponse::error(id, -1, joindre("Création échouée : ", e).as_str())
}

/// Reads the `swap_id` parameter; error -32602 `swap_id manquant` without it.
pub fn lire_swap_id(req: &RpcRequest) -> (r: Result<String, RpcResponse>)
    ensures
        match en_texte(champ_json(req.params.vue(), "swap_id"@)) {
            Some(s) => r matches Ok(x) && x@ == s,
            None => r matches Err(e) && e.id == req.id && e.result is None && (e.error matches Some(er) && er.code == -32602 && er.message@ == "swap_id manquant"@),
        },
{
    match valeur_texte(req.params.champ("swap_id")) {
        Some(s) => Ok(s.clone()),
        None => Err(RpcResponse::error(req.id, -32602, "swap_id manquant")),
    }
}

/// Answers a release: `{"ok": true}`, or error -1 `Libération échouée : <e>`.
pub fn reponse_liberation(id: u64, resultat: &Result<(), String>) -> (r: RpcResponse)
    ensures
        r.id == id,
        match resultat {
            Ok(()) => r.error is None && (r.result matches Some(j) && j.vue() == JsonVue::Objet(seq![("ok"@, JsonVue::Booleen(true))])),
            Err(e) => r.result is None && (r.error matches Some(er) && er.code == -1 && er.message@ == "Libération échouée : "@ + e@),
        },
{
    match resultat {
        Ok(()) => RpcResponse::success(id, objet1("ok", Json::Booleen(true))),
        Err(e) => RpcResponse::error(id, -1, joindre("Libération échouée : ", e.as_str()).as_str()),
    }
}

/// How `liste_swaps` shows a watched space.
pub open spec fn vue_suivi_liste(s: SwapSuivi) -> JsonVue {
    JsonVue::Objet(seq![
        ("swap_id"@, JsonVue::Texte(s.swap_id@)),
        ("device"@, JsonVue::Texte(s.device@)),
        ("donneur_ip"@, JsonVue::Texte(s.donneur_ip@)),
        ("vide"@, JsonVue::Booleen(s.vide_depuis is Some)),
    ])
}

fn json_suivi_liste(s: &SwapSuivi) -> (r: Json)
    ensures
        r.vue() == vue_suivi_liste(*s),
{
    let paires = vec![
        entree("swap_id", Json::Texte(s.swap_id.clone())),
        entree("device", Json::Texte(s.device.clone())),
        entree("donneur_ip", Json::Texte(s.donneur_ip.clone())),
        entree("vide", Json::Booleen(s.vide_depuis.is_some())),
    ];
    proof {
        lemme_vue_paires(paires@);
        assert(vue_paires(paires@) =~= seq![
            ("swap_id"@, JsonVue::Texte(s.swap_id@)),
            ("device"@, JsonVue::Texte(s.device@)),
            ("donneur_ip"@, JsonVue::Texte(s.donneur_ip@)),
            ("vide"@, JsonVue::Booleen(s.vide_depuis is Some)),
        ]);
    }
    objet(paires)
}

/// Answers `liste_swaps`: `{"nb_swaps": n, "swaps": [...]}`, every watched space.
pub fn reponse_liste_swaps(watcher: &SwapWatcher, id: u64) -> (r: RpcResponse)
    ensures
        r.id == id,
        r.error is None,
        r.result matches Some(j) && j.vue() == JsonVue::Objet(seq![
            ("nb_swaps"@, JsonVue::Entier(watcher.suivis@.len() as u64)),
            ("swaps"@, JsonVue::Liste(Seq::new(watcher.suivis@.len(), |i: int| vue_suivi_liste(watcher.suivis@[i])))),
        ]),
{
    let mut liste: Vec<Json> = Vec::new();
    let mut i: usize = 0;
    while i < watcher.suivis.len()
        invariant
            i <= watcher.suivis.len(),
            liste@.len() == i,
            forall|k: int| 0 <= k < i ==> #[trigger] liste@[k].vue() == vue_suivi_liste(watcher.suivis@[k]),
        decreases watcher.suivis.len() - i,
    {
        liste.push(json_suivi_liste(&watcher.suivis[i]));
        i += 1;
    }
    let n = liste.len() as u64;
    proof {
        lemme_vue_liste(liste@);
        assert(vue_liste(liste@) =~= Seq::new(watcher.suivis@.len(), |i: int| vue_suivi_liste(watcher.suivis@[i])));
    }
    let paires = vec![entree("nb_swaps", Json::Entier(n)), entree("swaps", Json::Liste(liste))];
    proof {
        lemme_vue_paires(paires@);
        assert(vue_paires(paires@) =~= seq![
            ("nb_swaps"@, JsonVue::Entier(watcher.suivis@.len() as u64)),
            ("swaps"@, JsonVue::Liste(Seq::new(watcher.suivis@.len(), |i: int| vue_suivi_liste(watcher.suivis@[i])))),
        ]);
    }
    RpcResponse::success(id, objet(paires))
}

/// The first watched space named `swap_id`.
pub open spec fn premier_suivi_nomme(s: Seq<SwapSuivi>, swap_id: Seq<char>) -> Option<int> {
    if exists|i: int| 0 <= i < s.len() && (#[trigger] s[i]).swap_id@ == swap_id {
        Some(choose|i: int| 0 <= i < s.len() && (#[trigger] s[i]).swap_id@ == swap_id && (forall|j: int| 0 <= j < i ==> (#[trigger] s[j]).swap_id@ != swap_id))
    } else {
        None
    }
}

/// `premier_suivi_nomme` is the first element named `id`, and `None` when there is none.
pub proof fn lemme_premier_suivi_nomme(s: Seq<SwapSuivi>, id: Seq<char>)
    ensures
        match premier_suivi_nomme(s, id) {
            Some(k) => 0 <= k < s.len() && s[k].swap_id@ == id && forall|j: int|
                0 <= j < k ==> (#[trigger] s[j]).swap_id@ != id,
            None => forall|i: int| 0 <= i < s.len() ==> (#[trigger] s[i]).swap_id@ != id,
        },
{
    if exists|i: int| 0 <= i < s.len() && (#[trigger] s[i]).swap_id@ == id {
        let i = choose|i: int| 0 <= i < s.len() && (#[trigger] s[i]).swap_id@ == id;
        let p = |x: SwapSuivi| x.swap_id@ == id;
        crate::recherche::lemme_minimal(s, p, i);
        let m = choose|m: int| 0 <= m <= i && #[trigger] p(s[m]) && forall|j: int| 0 <= j < m ==> !p(#[trigger] s[j]);
        assert(0 <= m < s.len() && (s[m]).swap_id@ == id && (forall|j: int|
            0 <= j < m ==> (#[trigger] s[j]).swap_id@ != id));
    }
}


impl SwapWatcher {
    /// The position of the first watched space named `swap_id`.
    pub fn trouver(&self, swap_id: &str) -> (r: Option<usize>)
        ensures
            match r {
                Some(p) => premier_suivi_nomme(self.suivis@, swap_id@) == Some(p as int) && p < self.suivis@.len(),
                None => premier_suivi_nomme(self.suivis@, swap_id@) is None,
            },
    {
        let mut i: usize = 0;
        while i < self.suivis.len()
            invariant
                i <= self.suivis.len(),
                forall|j: int| 0 <= j < i ==> (#[trigger] self.suivis@[j]).swap_id@ != swap_id@,
            decreases self.suivis.len() - i,
        {
            if crate::texte::meme_texte(self.suivis[i].swap_id.as_str(), swap_id) {
                proof {
                    lemme_premier_suivi_nomme(self.suivis@, swap_id@);
                }
                return Some(i);
            }
            i += 1;
        }
        None
    }
}

/// Answers `utilisation_swap` for a watched space and the kB in use on it
/// (`None` when unknown, shown as 0).
pub fn reponse_utilisation(id: u64, suivi: &SwapSuivi, usage: Option<u64>) -> (r: RpcResponse)
    ensures
        r.id == id,
        r.error is None,
        r.result matches Some(j) && j.vue() == JsonVue::Objet(seq![
            ("swap_id"@, JsonVue::Texte(suivi.swap_id@)),
            ("device"@, JsonVue::Texte(suivi.device@)),
            ("used_kb"@, JsonVue::Entier(ou_zero(usage))),
            ("vide"@, JsonVue::Booleen(suivi.vide_depuis is Some)),
        ]),
{
    let u = match usage {
        Some(u) => u,
        None => 0,
    };
    let paires = vec![
        entree("swap_id", Json::Texte(suivi.swap_id.clone())),
        entree("device", Json::Texte(suivi.device.clone())),
        entree("used_kb", Json::Entier(u)),
        entree("vide", Json::Booleen(suivi.vide_depuis.is_some())),
    ];
    proof {
        lemme_vue_paires(paires@);
        assert(vue_paires(paires@) =~= seq![
            ("swap_id"@, JsonVue::Texte(suivi.swap_id@)),
            ("device"@, JsonVue::Texte(suivi.device@)),
            ("used_kb"@, JsonVue::Entier(u)),
            ("vide"@, JsonVue::Booleen(suivi.vide_depuis is Some)),
        ]);
    }
    RpcResponse::success(id, objet(paires))
}

/// The answer when no watched space has the name: error -1 `Swap introuvable`.
pub fn reponse_swap_introuvable(id: u64) -> (r: RpcResponse)
    ensures
        r.id == id,
        r.result is None,
        r.error matches Some(er) && er.code == -1 && er.message@ == "Swap introuvable"@,
{
    RpcResponse::error(id, -1, "Swap introuvable")
}

/// How `statut` shows a watched space with the kB in use on it.
pub open spec fn vue_suivi_statut(s: SwapSuivi, usage: Option<u64>) -> JsonVue {
    JsonVue::Objet(seq![
        ("swap_id"@, JsonVue::Texte(s.swap_id@)),
        ("device"@, JsonVue::Texte(s.device@)),
        ("donneur_ip"@, JsonVue::Texte(s.donneur_ip@)),
        ("used_kb"@, JsonVue::Entier(ou_zero(usage))),
    ])
}

fn json_suivi_statut(s: &SwapSuivi, usage: Option<u64>) -> (r: Json)
    ensures
        r.vue() == vue_suivi_statut(*s, usage),
{
    let u = match usage {
        Some(u) => u,
        None => 0,
    };
    let paires = vec![
        entree("swap_id", Json::Texte(s.swap_id.clone())),
        entree("device", Json::Texte(s.device.clone())),
        entree("donneur_ip", Json::Texte(s.donneur_ip.clone())),
        entree("used_kb", Json::Entier(u)),
    ];
    proof {
        lemme_vue_paires(paires@);
        assert(vue_paires(paires@) =~= seq![
            ("swap_id"@, JsonVue::Texte(s.swap_id@)),
            ("device"@, JsonVue::Texte(s.device@)),
            ("donneur_ip"@, JsonVue::Texte(s.donneur_ip@)),
            ("used_kb"@, JsonVue::Entier(u)),
        ]);
    }
    objet(paires)
}

/// Answers `statut`: the node's address, its available MB, whether it is
/// saturated, and each watched space with the kB in use on it (`usages`, one
/// per space).
pub fn reponse_statut(agent: &Agent, id: u64, available: u64, saturee: bool, watcher: &SwapWatcher, usages: &Vec<Option<u64>>) -> (r: RpcResponse)
    requires
        usages@.len() == watcher.suivis@.len(),
    ensures
        r.id == id,
        r.error is None,
        r.result matches Some(j) && j.vue() == JsonVue::Objet(seq![
            ("ip"@, JsonVue::Texte(agent.ip@)),
            ("available_mb"@, JsonVue::Entier(available)),
            ("saturee"@, JsonVue::Booleen(saturee)),
            ("nb_swaps"@, JsonVue::Entier(watcher.suivis@.len() as u64)),
            ("swaps"@, JsonVue::Liste(Seq::new(watcher.suivis@.len(), |i: int| vue_suivi_statut(watcher.suivis@[i], usages@[i])))),
        ]),
{
    let mut liste: Vec<Json> = Vec::new();
    let mut i: usize = 0;
    while i < watcher.suivis.len()
        invariant
            i <= watcher.suivis.len(),
            usages@.len() == watcher.suivis@.len(),
            liste@.len() == i,
            forall|k: int| 0 <= k < i ==> #[trigger] liste@[k].vue() == vue_suivi_statut(watcher.suivis@[k], usages@[k]),
        decreases watcher.suivis.len() - i,
    {
        liste.push(json_suivi_statut(&watcher.suivis[i], usages[i]));
        i += 1;
    }
    let n = liste.len() as u64;
    proof {
        lemme_vue_liste(liste@);
        assert(vue_liste(liste@) =~= Seq::new(watcher.suivis@.len(), |i: int| vue_suivi_statut(watcher.suivis@[i], usages@[i])));
    }
    let paires = vec![
        entree("ip", Json::Texte(agent.ip.clone())),
        entree("available_mb", Json::Entier(available)),
        entree("saturee", Json::Booleen(saturee)),
        entree("nb_swaps", Json::Entier(n)),
        entree("swaps", Json::Liste(liste)),
    ];
    proof {
        lemme_vue_paires(paires@);
        assert(vue_paires(paires@) =~= seq![
            ("ip"@, JsonVue::Texte(agent.ip@)),
            ("available_mb"@, JsonVue::Entier(available)),
            ("saturee"@, JsonVue::Booleen(saturee)),
            ("nb_swaps"@, JsonVue::Entier(watcher.suivis@.len() as u64)),
            ("swaps"@, JsonVue::Liste(Seq::new(watcher.suivis@.len(), |i: int| vue_suivi_statut(watcher.suivis@[i], usages@[i])))),
        ]);
    }
    RpcResponse::success(id, objet(paires))
}

/// The parameters of `get_vm_status`, with their defaults.
pub struct ParamsVmStatus {
    pub proxmox_ip: String,
    pub token_user: String,
    pub token_name: String,
    pub token_value: String,
    pub node_name: Option<String>,
    pub node_ip: Option<String>,
}

/// A string parameter, or `defaut`.
pub open spec fn texte_ou(j: JsonVue, cle: Seq<char>, defaut: Seq<char>) -> Seq<char> {
    match en_texte(champ_json(j, cle)) {
        Some(s) => s,
        None => defaut,
    }
}

fn parametre_texte(params: &Json, cle: &str, defaut: &str) -> (r: String)
    ensures
        r@ == texte_ou(params.vue(), cle@, defaut@),
{
    match valeur_texte(params.champ(cle)) {
        Some(s) => s.clone(),
        None => String::from_str(defaut),
    }
}

fn parametre_option(params: &Json, cle: &str) -> (r: Option<String>)
    ensures
        match r {
            Some(s) => en_texte(champ_json(params.vue(), cle@)) == Some(s@),
            None => en_texte(champ_json(params.vue(), cle@)) is None,
        },
{
    match valeur_texte(params.champ(cle)) {
        Some(s) => Some(s.clone()),
        None => None,
    }
}

/// Reads the parameters of `get_vm_status`: `proxmox_ip` defaults to
/// `192.168.123.101`, `token_user` to `root@pam`, `token_name` to
/// `monitoring`, `token_value` to the empty string; `node_name` and
/// `node_ip` are optional.
pub fn lire_params_vm_status(req: &RpcRequest) -> (r: ParamsVmStatus)
    ensures
        r.proxmox_ip@ == texte_ou(req.params.vue(), "proxmox_ip"@, "192.168.123.101"@),
        r.token_user@ == texte_ou(req.params.vue(), "token_user"@, "root@pam"@),
        r.token_name@ == texte_ou(req.params.vue(), "token_name"@, "monitoring"@),
        r.token_value@ == texte_ou(req.params.vue(), "token_value"@, ""@),
        match r.node_name {
            Some(s) => en_texte(champ_json(req.params.vue(), "node_name"@)) == Some(s@),
            None => en_texte(champ_json(req.params.vue(), "node_name"@)) is None,
        },
        match r.node_ip {
            Some(s) => en_texte(champ_json(req.params.vue(), "node_ip"@)) == Some(s@),
            None => en_texte(champ_json(req.params.vue(), "node_ip"@)) is None,
        },
{
    ParamsVmStatus {
        proxmox_ip: parametre_texte(&req.params, "proxmox_ip", "192.168.123.101"),
        token_user: parametre_texte(&req.params, "token_user", "root@pam"),
        token_name: parametre_texte(&req.params, "token_name", "monitoring"),
        token_value: parametre_texte(&req.params, "token_value", ""),
        node_name: parametre_option(&req.params, "node_name"),
        node_ip: parametre_option(&req.params, "node_ip"),
    }
}

/// Answers `get_vm_status`: `{"vms": [{"ram_free": mb}, ...]}`.
pub fn reponse_vm_status(id: u64, ram: &Vec<u64>) -> (r: RpcResponse)
    ensures
        r.id == id,
        r.error is None,
        r.result matches Some(j) && j.vue() == JsonVue::Objet(seq![
            ("vms"@, JsonVue::Liste(Seq::new(ram@.len(), |i: int| JsonVue::Objet(seq![("ram_free"@, JsonVue::Entier(ram@[i]))])))),
        ]),
{
    let mut liste: Vec<Json> = Vec::new();
    let mut i: usize = 0;
    while i < ram.len()
        invariant
            i <= ram.len(),
            liste@.len() == i,
            forall|k: int| 0 <= k < i ==> #[trigger] liste@[k].vue() == JsonVue::Objet(seq![("ram_free"@, JsonVue::Entier(ram@[k]))]),
        decreases ram.len() - i,
    {
        liste.push(objet1("ram_free", Json::Entier(ram[i])));
        i += 1;
    }
    proof {
        lemme_vue_liste(liste@);
        assert(vue_liste(liste@) =~= Seq::new(ram@.len(), |i: int| JsonVue::Objet(seq![("ram_free"@, JsonVue::Entier(ram@[i]))])));
    }
    RpcResponse::success(id, objet1("vms", Json::Liste(liste)))
}

} // verus!
