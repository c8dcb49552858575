//! What the agent reads from the Proxmox API: the nodes of the cluster and
//! the memory of their VMs.
use vstd::prelude::*;
use crate::json::{Json, JsonVue, champ_json, en_liste, en_texte, en_u64, lemme_vue_liste, valeur_liste, valeur_texte, valeur_u64, vue_liste};
use crate::texte::{joindre, joindre3, meme_texte};

verus! {

/// The authorization of an API token: `PVEAPIToken=<user>!<name>=<value>`.
pub open spec fn spec_auth(user: Seq<char>, name: Seq<char>, value: Seq<char>) -> Seq<char> {
    "PVEAPIToken="@ + user + "!"@ + name + "="@ + value
}

/// The token's authorization (see `spec_auth`).
pub fn auth_proxmox(token_user: &str, token_name: &str, token_value: &str) -> (r: String)
    ensures
        r@ == spec_auth(token_user@, token_name@, token_value@),
{
    let mut r = joindre3("PVEAPIToken=", token_user, "!");
    r.append(token_name);
    r.append("=");
    r.append(token_value);
    r
}

/// The list of the cluster's nodes: `https://<ip>:8006/api2/json/nodes`.
pub fn url_noeuds(proxmox_ip: &str) -> (r: String)
    ensures
        r@ == "https://"@ + proxmox_ip@ + ":8006/api2/json/nodes"@,
{
    joindre3("https://", proxmox_ip, ":8006/api2/json/nodes")
}

/// The VMs of a node: `https://<ip>:8006/api2/json/nodes/<node>/qemu`.
pub fn url_vms(proxmox_ip: &str, node_name: &str) -> (r: String)
    ensures
        r@ == "https://"@ + proxmox_ip@ + ":8006/api2/json/nodes/"@ + node_name@ + "/qemu"@,
{
    let mut r = joindre3("https://", proxmox_ip, ":8006/api2/json/nodes/");
    r.append(node_name);
    r.append("/qemu");
    r
}

/// The arguments of `curl` for a silent, unchecked GET of `url` with the token.
pub fn arguments_curl(auth: &str, url: &str) -> (r: Vec<String>)
    ensures
        crate::commande::vue_textes(r@) == seq!["-s"@, "-k"@, "-H"@, "Authorization: "@ + auth@, url@],
{
    crate::commande::args5(
        String::from_str("-s"),
        String::from_str("-k"),
        String::from_str("-H"),
        joindre("Authorization: ", auth),
        String::from_str(url),
    )
}

/// A number field of a VM, 0 when it is missing or not a `u64`.
pub open spec fn champ_nombre(vm: JsonVue, cle: Seq<char>) -> u64 {
    match en_u64(champ_json(vm, cle)) {
        Some(n) => n,
        None => 0,
    }
}

/// The free memory of a VM in MB: its maximum less its use (each in whole
/// MiB), or 0.
pub open spec fn ram_libre_vm(vm: JsonVue) -> u64 {
    let utilise = champ_nombre(vm, "mem"@) / 1048576u64;
    let total = champ_nombre(vm, "maxmem"@) / 1048576u64;
    if total >= utilise {
        (total - utilise) as u64
    } else {
        0
    }
}

/// The free memory of each VM of the answer's `data` list, in order; `None`
/// when `data` is not a list.
pub open spec fn ram_libre(vms: JsonVue) -> Option<Seq<u64>> {
    match en_liste(champ_json(vms, "data"@)) {
        Some(l) => Some(Seq::new(l.len(), |i: int| ram_libre_vm(l[i]))),
        None => None,
    }
}

/// Reads the free memory of the VMs of a node (see `ram_libre`).
pub fn ram_libre_vms(vms: &Json) -> (r: Option<Vec<u64>>)
    ensures
        match r {
            Some(v) => ram_libre(vms.vue()) == Some(v@),
            None => ram_libre(vms.vue()) is None,
        },
{
    let liste = match valeur_liste(vms.champ("data")) {
        Some(l) => l,
        None => return None,
    };
    proof {
        lemme_vue_liste(liste@);
    }
    let ghost l = vue_liste(liste@);
    let mut r: Vec<u64> = Vec::new();
    let mut i: usize = 0;
    while i < liste.len()
        invariant
            i <= liste.len(),
            l == vue_liste(liste@),
            l.len() == liste@.len(),
            forall|j: int| 0 <= j < liste@.len() ==> #[trigger] l[j] == liste@[j].vue(),
            r@ == Seq::new(i as nat, |j: int| ram_libre_vm(l[j])),
        decreases liste.len() - i,
    {
        let vm = &liste[i];
        let utilise = match valeur_u64(vm.champ("mem")) {
            Some(n) => n,
            None => 0,
        } / (1024 * 1024);
        let total = match valeur_u64(vm.champ("maxmem")) {
            Some(n) => n,
            None => 0,
        } / (1024 * 1024);
        let libre = total.saturating_sub(utilise);
        r.push(libre);
        assert(r@ =~= Seq::new((i + 1) as nat, |j: int| ram_libre_vm(l[j])));
        i += 1;
    }
    Some(r)
}

/// The content of the answers of several nodes (`None`: no answer could be read).
pub open spec fn vue_reponses(v: Seq<Option<Json>>) -> Seq<Option<JsonVue>> {
    Seq::new(
        v.len(),
        |i: int|
            match v[i] {
                Some(j) => Some(j.vue()),
                None => None,
            },
    )
}

/// The free memory of the VMs of several nodes, node after node: a node whose
/// answer could not be read, or has no `data` list, adds nothing.
pub open spec fn ram_libre_noeuds(r: Seq<Option<JsonVue>>) -> Seq<u64>
    decreases r.len(),
{
    if r.len() == 0 {
        Seq::empty()
    } else {
        ram_libre_noeuds(r.drop_last()) + match r.last() {
            Some(j) => match ram_libre(j) {
                Some(l) => l,
                None => Seq::empty(),
            },
            None => Seq::empty(),
        }
    }
}

/// Joins the free memory of the VMs of each node (see `ram_libre_noeuds`).
pub fn ram_libre_cluster(reponses: &Vec<Option<Json>>) -> (r: Vec<u64>)
    ensures
        r@ == ram_libre_noeuds(vue_reponses(reponses@)),
{
    let mut r: Vec<u64> = Vec::new();
    let mut i: usize = 0;
    while i < reponses.len()
        invariant
            i <= reponses.len(),
            r@ == ram_libre_noeuds(vue_reponses(reponses@).take(i as int)),
        decreases reponses.len() - i,
    {
        let ghost avant = r@;
        assert(vue_reponses(reponses@).take(i + 1).drop_last() == vue_reponses(reponses@).take(i as int));
        match &reponses[i] {
            Some(j) => match ram_libre_vms(j) {
                Some(l) => {
                    let mut k: usize = 0;
                    while k < l.len()
                        invariant
                            k <= l.len(),
                            r@ == avant + l@.take(k as int),
                        decreases l.len() - k,
                    {
                        r.push(l[k]);
                        assert(l@.take(k + 1) == l@.take(k as int).push(l@[k as int]));
                        k += 1;
                    }
                    assert(l@.take(k as int) == l@);
                },
                None => {
                    assert(r@ == avant + Seq::<u64>::empty());
                },
            },
            None => {
                assert(r@ == avant + Seq::<u64>::empty());
            },
        }
        i += 1;
    }
    assert(vue_reponses(reponses@).take(i as int) == vue_reponses(reponses@));
    r
}

/// The names of the nodes of the answer's `data` list that have one, in order;
/// `None` when `data` is not a list.
pub open spec fn noms_de(l: Seq<JsonVue>) -> Seq<Seq<char>>
    decreases l.len(),
{
    if l.len() == 0 {
        Seq::empty()
    } else {
        let avant = noms_de(l.drop_last());
        match en_texte(champ_json(l.last(), "node"@)) {
            Some(n) => avant.push(n),
            None => avant,
        }
    }
}

/// The names of the nodes of a cluster's answer (see `noms_de`).
pub fn noms_noeuds(nodes: &Json) -> (r: Option<Vec<String>>)
    ensures
        match r {
            Some(v) => en_liste(champ_json(nodes.vue(), "data"@)) matches Some(l) && crate::agent::vue_liste_textes(v@) == noms_de(l),
            None => en_liste(champ_json(nodes.vue(), "data"@)) is None,
        },
{
    let liste = match valeur_liste(nodes.champ("data")) {
        Some(l) => l,
        None => return None,
    };
    proof {
        lemme_vue_liste(liste@);
    }
    let ghost l = vue_liste(liste@);
    let mut r: Vec<String> = Vec::new();
    let mut i: usize = 0;
    assert(l.take(0) == Seq::<JsonVue>::empty());
    while i < liste.len()
        invariant
            i <= liste.len(),
            l == vue_liste(liste@),
            l.len() == liste@.len(),
            forall|j: int| 0 <= j < liste@.len() ==> #[trigger] l[j] == liste@[j].vue(),
            crate::agent::vue_liste_textes(r@) == noms_de(l.take(i as int)),
        decreases liste.len() - i,
    {
        assert(l.take(i + 1).drop_last() == l.take(i as int));
        assert(l.take(i + 1).last() == liste@[i as int].vue());
        match valeur_texte(liste[i].champ("node")) {
            Some(n) => {
                let ghost avant = crate::agent::vue_liste_textes(r@);
                r.push(n.clone());
                assert(crate::agent::vue_liste_textes(r@) =~= avant.push(n@));
            },
            None => {},
        }
        i += 1;
    }
    assert(l.take(i as int) == l);
    Some(r)
}

/// What a node of the list says of the address `ip`: `Some(name)` when one of
/// its `node`, `address`, `ip`, `fqdn` fields (in this order) is `ip` — the
/// name being its `node` field as a string, if it is one — `None` when none is.
pub open spec fn noeud_pour(n: JsonVue, ip: Seq<char>) -> Option<Option<Seq<char>>> {
    if en_texte(champ_json(n, "node"@)) == Some(ip) {
        Some(Some(ip))
    } else if en_texte(champ_json(n, "address"@)) == Some(ip) {
        Some(en_texte(champ_json(n, "node"@)))
    } else if en_texte(champ_json(n, "ip"@)) == Some(ip) {
        Some(en_texte(champ_json(n, "node"@)))
    } else if en_texte(champ_json(n, "fqdn"@)) == Some(ip) {
        Some(en_texte(champ_json(n, "node"@)))
    } else {
        None
    }
}

/// The answer of the first node of the list that says anything of `ip`.
pub open spec fn resoudre(l: Seq<JsonVue>, ip: Seq<char>) -> Option<Seq<char>>
    decreases l.len(),
{
    if l.len() == 0 {
        None
    } else {
        match noeud_pour(l[0], ip) {
            Some(r) => r,
            None => resoudre(l.drop_first(), ip),
        }
    }
}

/// The name of the node whose name or address is `ip`, from the cluster's answer.
pub open spec fn nom_du_noeud(nodes: JsonVue, ip: Seq<char>) -> Option<Seq<char>> {
    match en_liste(champ_json(nodes, "data"@)) {
        Some(l) => resoudre(l, ip),
        None => None,
    }
}

/// Whether the string field `cle` of `n` is `ip`.
fn champ_vaut(n: &Json, cle: &str, ip: &str) -> (r: bool)
    ensures
        r == (en_texte(champ_json(n.vue(), cle@)) == Some(ip@)),
{
    match valeur_texte(n.champ(cle)) {
        Some(s) => meme_texte(s.as_str(), ip),
        None => false,
    }
}

/// The node's name, as a new string.
fn nom_de(n: &Json) -> (r: Option<String>)
    ensures
        match r {
            Some(s) => en_texte(champ_json(n.vue(), "node"@)) == Some(s@),
            None => en_texte(champ_json(n.vue(), "node"@)) is None,
        },
{
    match valeur_texte(n.champ("node")) {
        Some(s) => Some(s.clone()),
        None => None,
    }
}

/// Finds the name of the node whose name or address is `node_ip` in the
/// cluster's answer `nodes` (see `nom_du_noeud`).
pub fn resolve_node_name_from_ip(nodes: &Json, node_ip: &str) -> (r: Option<String>)
    ensures
        match r {
            Some(s) => nom_du_noeud(nodes.vue(), node_ip@) == Some(s@),
            None => nom_du_noeud(nodes.vue(), node_ip@) is None,
        },
{
    let liste = match valeur_liste(nodes.champ("data")) {
        Some(l) => l,
        None => return None,
    };
    proof {
        lemme_vue_liste(liste@);
    }
    let ghost l = vue_liste(liste@);
    let mut i: usize = 0;
    assert(l.skip(0) == l);
    while i < liste.len()
        invariant
            i <= liste.len(),
            l == vue_liste(liste@),
            l.len() == liste@.len(),
            forall|j: int| 0 <= j < liste@.len() ==> #[trigger] l[j] == liste@[j].vue(),
            nom_du_noeud(nodes.vue(), node_ip@) == resoudre(l.skip(i as int), node_ip@),
        decreases liste.len() - i,
    {
        let n = &liste[i];
        assert(l.skip(i as int)[0] == n.vue());
        assert(l.skip(i as int).drop_first() == l.skip(i + 1));
        if champ_vaut(n, "node", node_ip) {
            return Some(String::from_str(node_ip));
        }
        if champ_vaut(n, "address", node_ip) || champ_vaut(n, "ip", node_ip) || champ_vaut(
            n,
            "fqdn",
            node_ip,
        ) {
            return nom_de(n);
        }
        i += 1;
    }
    assert(l.skip(i as int) == Seq::<JsonVue>::empty());
    None
}

/// Which VMs to read: those of a named node, those of the node found by its
/// address, or those of every node.
pub enum Cible {
    Noeud(String),
    ParAdresse(String),
    Tous,
}

/// The node name when one is given, else its address when one is given, else every node.
pub fn cible(node_name: Option<&str>, node_ip: Option<&str>) -> (r: Cible)
    ensures
        match node_name {
            Some(n) => r matches Cible::Noeud(s) && s@ == n@,
            None => match node_ip {
                Some(ip) => r matches Cible::ParAdresse(s) && s@ == ip@,
                None => r is Tous,
            },
        },
{
    match node_name {
        Some(n) => Cible::Noeud(String::from_str(n)),
        None => match node_ip {
            Some(ip) => Cible::ParAdresse(String::from_str(ip)),
            None => Cible::Tous,
        },
    }
}

/// The node whose VMs to read: the named node; for an address, the node
/// found by it in the cluster's list of nodes (`noeuds`, when it could be
/// read); `None` means every node of the cluster, which is also what an
/// address that finds no node gives.
pub fn noeud_a_lire(c: &Cible, noeuds: Option<&Json>) -> (r: Option<String>)
    ensures
        match c {
            Cible::Noeud(n) => r matches Some(s) && s@ == n@,
            Cible::ParAdresse(ip) => match noeuds {
                Some(j) => match nom_du_noeud(j.vue(), ip@) {
                    Some(nom) => r matches Some(s) && s@ == nom,
                    None => r is None,
                },
                None => r is None,
            },
            Cible::Tous => r is None,
        },
{
    match c {
        Cible::Noeud(n) => Some(n.clone()),
        Cible::ParAdresse(ip) => match noeuds {
            Some(j) => resolve_node_name_from_ip(j, ip.as_str()),
            None => None,
        },
        Cible::Tous => None,
    }
}

} // verus!
