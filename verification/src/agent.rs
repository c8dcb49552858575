//! The agent of a node: its address, its RPC port and its peers; what it
//! asks its peers and how it reads their answers.
use vstd::prelude::*;
use crate::json::{
    Json, JsonVue, champ_json, en_booleen, en_texte, en_u64, objet, texte_json, valeur_booleen,
    valeur_texte, valeur_u64, vue_paires,
};
use crate::memoire::{MemInfo, au_dessus};
use crate::message::{RpcRequest, RpcResponse};
use crate::nbd::SwapDistant;
use crate::texte::{bornes_mots, bornes_rognees, chercher, jusqu_a, mots, rogner, texte_de, vers_chars};

verus! {

/// A node's agent.
pub struct Agent {
    pub ip: String,
    pub port_rpc: u16,
    pub peers: Vec<String>,
}

/// The parameters of `creer_swap`: `{"taille_mb": .., "receveur_ip": .., "receveur_port_rpc": ..}`.
pub open spec fn params_creer_swap(taille_mb: u64, ip: Seq<char>, port_rpc: u16) -> JsonVue {
    JsonVue::Objet(
        seq![
            ("taille_mb"@, JsonVue::Entier(taille_mb)),
            ("receveur_ip"@, JsonVue::Texte(ip)),
            ("receveur_port_rpc"@, JsonVue::Entier(port_rpc as u64)),
        ],
    )
}

/// The parameters of `liberer_swap`: `{"swap_id": ..}`.
pub open spec fn params_liberation(swap_id: Seq<char>) -> JsonVue {
    JsonVue::Objet(seq![("swap_id"@, JsonVue::Texte(swap_id))])
}

/// The message of an error response, or `defaut` when it carries none.
pub open spec fn message_ou(resp: RpcResponse, defaut: Seq<char>) -> Seq<char> {
    match resp.error {
        Some(e) => e.message@,
        None => defaut,
    }
}

fn message_erreur(resp: &RpcResponse, defaut: &str) -> (r: String)
    ensures
        r@ == message_ou(*resp, defaut@),
{
    match &resp.error {
        Some(e) => e.message.clone(),
        None => String::from_str(defaut),
    }
}

impl Agent {
    pub fn new(ip: String, port_rpc: u16, peers: Vec<String>) -> (r: Self)
        ensures
            r.ip == ip,
            r.port_rpc == port_rpc,
            r.peers == peers,
    {
        Agent { ip, port_rpc, peers }
    }

    /// Memory is saturated: the report was read and more than 80 % of memory
    /// is in use (`lecture` is the reading of `/proc/meminfo`).
    pub fn ram_saturee(&self, lecture: &Result<MemInfo, String>) -> (r: bool)
        ensures
            r == match lecture {
                Ok(info) => au_dessus(*info, 80),
                Err(_) => false,
            },
    {
        match lecture {
            Ok(info) => info.utilisation_au_dessus(80),
            Err(_) => false,
        }
    }

    /// The available memory in MB, 0 when the report could not be read.
    pub fn ram_available_mb(&self, lecture: &Result<MemInfo, String>) -> (r: u64)
        ensures
            r == match lecture {
                Ok(info) => info.available_kb / 1024,
                Err(_) => 0,
            },
    {
        match lecture {
            Ok(info) => info.available_kb / 1024,
            Err(_) => 0,
        }
    }

    /// Whether to look for a remote swap space: memory is saturated and no
    /// remote space is in use yet (one at a time).
    pub fn doit_chercher_swap(&self, saturee: bool, nb_suivis: usize) -> (r: bool)
        ensures
            r == (saturee && nb_suivis == 0),
    {
        saturee && nb_suivis == 0
    }

    /// The request to a donor for a swap space of `taille_mb` MB for this node.
    pub fn requete_creer_swap(&self, taille_mb: u64) -> (r: RpcRequest)
        ensures
            r.jsonrpc@ == "2.0"@,
            r.method@ == "creer_swap"@,
            r.id == 2,
            r.params.vue() == params_creer_swap(taille_mb, self.ip@, self.port_rpc),
    {
        let paires = vec![
            (String::from_str("taille_mb"), Json::Entier(taille_mb)),
            (String::from_str("receveur_ip"), Json::Texte(self.ip.clone())),
            (String::from_str("receveur_port_rpc"), Json::Entier(self.port_rpc as u64)),
        ];
        proof {
            crate::json::lemme_vue_paires(paires@);
            assert(vue_paires(paires@) =~= seq![
                ("taille_mb"@, JsonVue::Entier(taille_mb)),
                ("receveur_ip"@, JsonVue::Texte(self.ip@)),
                ("receveur_port_rpc"@, JsonVue::Entier(self.port_rpc as u64)),
            ]);
        }
        RpcRequest::new("creer_swap", objet(paires), 2)
    }
}

/// A donor's answer to `creer_swap`: the NBD port (taken modulo 2^16, as
/// `as u16` does) and the space's identifier; or why there is none.
pub open spec fn lecture_reponse_swap(resp: RpcResponse) -> Result<(u16, Seq<char>), Seq<char>> {
    match resp.result {
        Some(j) => match en_u64(champ_json(j.vue(), "port_nbd"@)) {
            None => Err("port_nbd manquant"@),
            Some(p) => match en_texte(champ_json(j.vue(), "swap_id"@)) {
                None => Err("swap_id manquant"@),
                Some(s) => Ok((p as u16, s)),
            },
        },
        None => Err(message_ou(resp, "Erreur inconnue"@)),
    }
}

/// Reads a donor's answer to `creer_swap` (see `lecture_reponse_swap`).
pub fn interpreter_reponse_swap(resp: &RpcResponse) -> (r: Result<(u16, String), String>)
    ensures
        match r {
            Ok((p, s)) => lecture_reponse_swap(*resp) == Ok::<(u16, Seq<char>), Seq<char>>((p, s@)),
            Err(e) => lecture_reponse_swap(*resp) == Err::<(u16, Seq<char>), Seq<char>>(e@),
        },
{
    match &resp.result {
        Some(j) => {
            let port = match valeur_u64(j.champ("port_nbd")) {
                Some(p) => p,
                None => return Err(String::from_str("port_nbd manquant")),
            };
            let swap_id = match valeur_texte(j.champ("swap_id")) {
                Some(s) => s.clone(),
                None => return Err(String::from_str("swap_id manquant")),
            };
            Ok((port as u16, swap_id))
        },
        None => Err(message_erreur(resp, "Erreur inconnue")),
    }
}

/// The request for a peer's available memory.
pub fn requete_ram() -> (r: RpcRequest)
    ensures
        r.jsonrpc@ == "2.0"@,
        r.method@ == "ram_available"@,
        r.id == 1,
        r.params.vue() == JsonVue::Objet(Seq::empty()),
{
    let paires: Vec<(String, Json)> = Vec::new();
    assert(vue_paires(paires@) =~= Seq::empty());
    RpcRequest::new("ram_available", objet(paires), 1)
}

/// A peer's answer to `ram_available`: its available MB, or why there is none.
pub open spec fn lecture_reponse_ram(resp: RpcResponse) -> Result<u64, Seq<char>> {
    match resp.result {
        Some(j) => match en_u64(champ_json(j.vue(), "available_mb"@)) {
            Some(n) => Ok(n),
            None => Err("Champ manquant"@),
        },
        None => Err(message_ou(resp, "Erreur"@)),
    }
}

/// Reads a peer's answer to `ram_available` (see `lecture_reponse_ram`).
pub fn interpreter_reponse_ram(resp: &RpcResponse) -> (r: Result<u64, String>)
    ensures
        match r {
            Ok(n) => lecture_reponse_ram(*resp) == Ok::<u64, Seq<char>>(n),
            Err(e) => lecture_reponse_ram(*resp) == Err::<u64, Seq<char>>(e@),
        },
{
    match &resp.result {
        Some(j) => match valeur_u64(j.champ("available_mb")) {
            Some(n) => Ok(n),
            None => Err(String::from_str("Champ manquant")),
        },
        None => Err(message_erreur(resp, "Erreur")),
    }
}

/// The request to a receiver: is its memory still saturated?
pub fn requete_ram_saturee() -> (r: RpcRequest)
    ensures
        r.jsonrpc@ == "2.0"@,
        r.method@ == "ram_saturee"@,
        r.id == 99,
        r.params.vue() == JsonVue::Objet(Seq::empty()),
{
    let paires: Vec<(String, Json)> = Vec::new();
    assert(vue_paires(paires@) =~= Seq::empty());
    RpcRequest::new("ram_saturee", objet(paires), 99)
}

/// The receiver still needs its space: it answered, with `saturee` true.
/// No answer counts as no need.
pub open spec fn toujours_saturee(reponse: Result<RpcResponse, Seq<char>>) -> bool {
    match reponse {
        Ok(resp) => match resp.result {
            Some(j) => en_booleen(champ_json(j.vue(), "saturee"@)) == Some(true),
            None => false,
        },
        Err(_) => false,
    }
}

/// Reads a receiver's answer to `ram_saturee` (see `toujours_saturee`).
pub fn encore_saturee(reponse: &Result<RpcResponse, String>) -> (r: bool)
    ensures
        r == toujours_saturee(
            match reponse {
                Ok(resp) => Ok(*resp),
                Err(e) => Err(e@),
            },
        ),
{
    match reponse {
        Ok(resp) => match &resp.result {
            Some(j) => match valeur_booleen(j.champ("saturee")) {
                Some(b) => b,
                None => false,
            },
            None => false,
        },
        Err(_) => false,
    }
}

/// The request to release the space `swap_id`.
pub fn requete_liberation(swap_id: &str, id: u64) -> (r: RpcRequest)
    ensures
        r.jsonrpc@ == "2.0"@,
        r.method@ == "liberer_swap"@,
        r.id == id,
        r.params.vue() == params_liberation(swap_id@),
{
    RpcRequest::new("liberer_swap", crate::json::objet1("swap_id", texte_json(swap_id)), id)
}

/// The first address that `hostname -I` printed, or `127.0.0.1`.
pub open spec fn premiere_adresse(sortie: Seq<char>) -> Seq<char> {
    if mots(sortie).len() > 0 {
        mots(sortie)[0]
    } else {
        "127.0.0.1"@
    }
}

/// This node's address from the output of `hostname -I` (see `premiere_adresse`).
pub fn adresse_de_sortie(sortie: &str) -> (r: String)
    ensures
        r@ == premiere_adresse(sortie@),
{
    let s = vers_chars(sortie);
    let w = bornes_mots(&s, 0, s.len());
    assert(s@.subrange(0, s@.len() as int) == s@);
    if w.len() > 0 {
        let (a, b) = w[0];
        texte_de(&s, a, b)
    } else {
        String::from_str("127.0.0.1")
    }
}

/// The comma-separated pieces of `s`, trimmed, without the empty ones.
pub open spec fn liste_de(s: Seq<char>) -> Seq<Seq<char>>
    decreases s.len(),
{
    let k = jusqu_a(s, ',');
    let p = rogner(s.take(k as int));
    let suite = if k < s.len() {
        liste_de(s.skip(k + 1 as int))
    } else {
        Seq::empty()
    };
    if p.len() > 0 {
        seq![p] + suite
    } else {
        suite
    }
}

/// The content of a list of strings.
pub open spec fn vue_liste_textes(v: Seq<String>) -> Seq<Seq<char>> {
    Seq::new(v.len(), |i: int| v[i]@)
}

/// The list that a comma-separated text gives (see `liste_de`).
pub fn liste_depuis_texte(texte: &str) -> (r: Vec<String>)
    ensures
        vue_liste_textes(r@) == liste_de(texte@),
{
    let s = vers_chars(texte);
    let n = s.len();
    let mut r: Vec<String> = Vec::new();
    let mut debut: usize = 0;
    let mut fini = false;
    assert(s@.skip(0) == s@);
    while !fini
        invariant
            n == s.len(),
            debut <= n,
            !fini ==> vue_liste_textes(r@) + liste_de(s@.skip(debut as int)) == liste_de(s@),
            fini ==> vue_liste_textes(r@) == liste_de(s@),
        decreases n - debut + if fini {
            0int
        } else {
            1int
        },
    {
        let ghost reste = s@.skip(debut as int);
        let ghost avant = vue_liste_textes(r@);
        let k = chercher(&s, debut, n, ',');
        assert(s@.subrange(debut as int, n as int) == reste);
        assert(reste.take(k - debut) == s@.subrange(debut as int, k as int));
        let (a, b) = bornes_rognees(&s, debut, k);
        let ghost p = rogner(reste.take(k - debut));
        if a < b {
            let morceau = texte_de(&s, a, b);
            r.push(morceau);
            assert(vue_liste_textes(r@) =~= avant.push(p));
        } else {
            assert(vue_liste_textes(r@) =~= avant);
        }
        if k < n {
            assert(reste.skip(k - debut + 1) == s@.skip(k + 1));
            proof {
                if a < b {
                    assert(avant.push(p) + liste_de(s@.skip(k + 1)) == avant + (seq![p] + liste_de(
                        s@.skip(k + 1),
                    )));
                }
            }
            debut = k + 1;
        } else {
            proof {
                if a < b {
                    assert(avant.push(p) == avant + (seq![p] + Seq::<Seq<char>>::empty()));
                } else {
                    assert(avant == avant + Seq::<Seq<char>>::empty());
                }
            }
            fini = true;
        }
    }
    r
}

/// The requests for a remote swap space, one matched donor after the other,
/// until one space is in use (one at a time).
pub struct Demandes {
    /// The matches, in order: a donor and the size to ask it.
    pub paires: Vec<(String, u64)>,
    /// The match being tried.
    pub k: usize,
}

impl Demandes {
    pub fn nouvelles(paires: Vec<(String, u64)>) -> (r: Demandes)
        ensures
            r.paires == paires,
            r.k == 0,
    {
        Demandes { paires, k: 0 }
    }

    /// The donor to ask and the size to ask it, while a match is left.
    pub fn suivante(&self) -> (r: Option<(String, u64)>)
        ensures
            self.k < self.paires.len() ==> (r matches Some((ip, t)) && ip@ == self.paires@[self.k as int].0@
                && t == self.paires@[self.k as int].1),
            self.k >= self.paires.len() ==> r is None,
    {
        if self.k < self.paires.len() {
            Some((self.paires[self.k].0.clone(), self.paires[self.k].1))
        } else {
            None
        }
    }

    /// After the donor of the current match answered: when it made the space
    /// (its NBD port and identifier), what to attach here (donor, port,
    /// identifier, size); when it refused, or could not be reached, the next
    /// match is tried.
    pub fn apres_demande(&mut self, reponse: Result<(u16, String), String>) -> (r: Option<(String, u16, String, u64)>)
        requires
            old(self).k < old(self).paires.len(),
        ensures
            final(self).paires == old(self).paires,
            match reponse {
                Ok((port, id)) => (r matches Some((ip, p, i, t)) && ip@ == old(self).paires@[old(self).k as int].0@
                    && p == port && i@ == id@ && t == old(self).paires@[old(self).k as int].1)
                    && final(self).k == old(self).k,
                Err(_) => r is None && final(self).k == old(self).k + 1,
            },
    {
        match reponse {
            Ok((port, id)) => Some((self.paires[self.k].0.clone(), port, id, self.paires[self.k].1)),
            Err(_) => {
                self.k = self.k + 1;
                None
            },
        }
    }

    /// After attaching the space of the current match: done when it is in use
    /// (then it is watched); otherwise the next match is tried.
    pub fn apres_configuration(&mut self, resultat: &Result<SwapDistant, String>) -> (fini: bool)
        requires
            old(self).k < old(self).paires.len(),
        ensures
            final(self).paires == old(self).paires,
            fini == (resultat is Ok),
            fini ==> final(self).k == old(self).k,
            !fini ==> final(self).k == old(self).k + 1,
    {
        match resultat {
            Ok(_) => true,
            Err(_) => {
                self.k = self.k + 1;
                false
            },
        }
    }
}

} // verus!
