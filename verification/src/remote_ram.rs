//! RAM shared over NFS: the donor exports a file in a tmpfs, the receiver
//! mounts it.
use vstd::prelude::*;
use crate::commande::{Commande, commande, args1, args4, args6, t, vue_commandes};
use crate::texte::{
    bornes_lignes, contient, contient_motif, decimal, joindre, joindre3, lignes, morceaux,
    texte_de, texte_u64, vers_chars,
};

verus! {

/// Where the donor mounts its shared RAM.
pub const SHARED_RAM_PATH: &'static str = "/mnt/shared-ram";

/// Where the receiver mounts the RAM of a donor.
pub const REMOTE_RAM_PATH: &'static str = "/mnt/remote-ram";

/// RAM that this node exports.
pub struct RamExport {
    pub id: String,
    pub taille_mb: u64,
    pub chemin: String,
}

/// RAM of a donor that this node mounts.
pub struct RamDistante {
    pub id: String,
    pub donneur_ip: String,
    pub chemin_local: String,
    pub chemin_fichier: String,
    pub taille_mb: u64,
}

/// The directory of the export `id`.
pub open spec fn chemin_export(id: Seq<char>) -> Seq<char> {
    "/mnt/shared-ram"@ + "/"@ + id
}

/// The line of `/etc/exports` that shares `chemin`.
pub open spec fn ligne_export(chemin: Seq<char>) -> Seq<char> {
    chemin + " *(rw,sync,no_subtree_check,no_root_squash)\n"@
}

/// What exporting RAM takes, in order once the directory exists: mount a
/// tmpfs, fill the data file, add the export line, reload the exports.
pub struct PlanExport {
    pub chemin: String,
    pub montage: Commande,
    pub remplissage: Commande,
    pub ligne_export: String,
    pub rechargement: Commande,
}

/// `exportfs -ra`.
fn commande_exportfs() -> (r: Commande)
    ensures
        r.vue() == ("exportfs"@, seq!["-ra"@]),
{
    commande("exportfs", args1(t("-ra")))
}

/// The plan to export `taille_mb` MB as `id`.
pub fn plan_export(id: &str, taille_mb: u64) -> (r: PlanExport)
    ensures
        r.chemin@ == chemin_export(id@),
        r.montage.vue() == ("mount"@, seq![
            "-t"@,
            "tmpfs"@,
            "-o"@,
            "size="@ + decimal(taille_mb as nat) + "M"@,
            "tmpfs"@,
            chemin_export(id@),
        ]),
        r.remplissage.vue() == ("dd"@, seq![
            "if=/dev/zero"@,
            "of="@ + chemin_export(id@) + "/data"@,
            "bs=1M"@,
            "count="@ + decimal(taille_mb as nat),
        ]),
        r.ligne_export@ == ligne_export(chemin_export(id@)),
        r.rechargement.vue() == ("exportfs"@, seq!["-ra"@]),
{
    let chemin = joindre3(SHARED_RAM_PATH, "/", id);
    let taille = texte_u64(taille_mb);
    let montage = commande(
        "mount",
        args6(t("-t"), t("tmpfs"), t("-o"), joindre3("size=", taille.as_str(), "M"), t("tmpfs"), chemin.clone()),
    );
    let remplissage = commande(
        "dd",
        args4(
            t("if=/dev/zero"),
            joindre3("of=", chemin.as_str(), "/data"),
            t("bs=1M"),
            joindre("count=", taille.as_str()),
        ),
    );
    let ligne = joindre(chemin.as_str(), " *(rw,sync,no_subtree_check,no_root_squash)\n");
    PlanExport { chemin, montage, remplissage, ligne_export: ligne, rechargement: commande_exportfs() }
}

impl RamExport {
    /// The export that a plan made.
    pub fn depuis_plan(id: &str, taille_mb: u64, plan: PlanExport) -> (r: RamExport)
        ensures
            r.id@ == id@,
            r.taille_mb == taille_mb,
            r.chemin == plan.chemin,
    {
        RamExport { id: String::from_str(id), taille_mb, chemin: plan.chemin }
    }
}

/// Lines joined by `'\n'`.
pub open spec fn joindre_lignes(ls: Seq<Seq<char>>) -> Seq<char>
    decreases ls.len(),
{
    if ls.len() == 0 {
        Seq::empty()
    } else if ls.len() == 1 {
        ls[0]
    } else {
        joindre_lignes(ls.drop_last()) + "\n"@ + ls.last()
    }
}

/// The lines of `ls` that do not hold `motif`, in order.
pub open spec fn lignes_sans(ls: Seq<Seq<char>>, motif: Seq<char>) -> Seq<Seq<char>>
    decreases ls.len(),
{
    if ls.len() == 0 {
        Seq::empty()
    } else if contient(ls.last(), motif) {
        lignes_sans(ls.drop_last(), motif)
    } else {
        lignes_sans(ls.drop_last(), motif).push(ls.last())
    }
}

/// `/etc/exports` without the lines that hold `chemin`: the other lines
/// joined by `'\n'`, and a final `'\n'`.
pub open spec fn exports_sans(contenu: Seq<char>, chemin: Seq<char>) -> Seq<char> {
    joindre_lignes(lignes_sans(lignes(contenu), chemin)) + "\n"@
}

/// The text of `/etc/exports` once the export at `chemin` is taken out (see `exports_sans`).
pub fn filtrer_exports(contenu: &str, chemin: &str) -> (r: String)
    ensures
        r@ == exports_sans(contenu@, chemin@),
{
    let s = vers_chars(contenu);
    let motif = vers_chars(chemin);
    let bornes = bornes_lignes(&s);
    let ghost ls = morceaux(s@, bornes@);
    let mut r = String::new();
    let mut gardees: usize = 0;
    let mut k: usize = 0;
    assert(ls.take(0) == Seq::<Seq<char>>::empty());
    while k < bornes.len()
        invariant
            k <= bornes.len(),
            ls == morceaux(s@, bornes@),
            crate::texte::bornes_valides(bornes@, 0, s@.len() as int),
            motif@ == chemin@,
            gardees == lignes_sans(ls.take(k as int), chemin@).len(),
            gardees <= k,
            r@ == joindre_lignes(lignes_sans(ls.take(k as int), chemin@)),
        decreases bornes.len() - k,
    {
        let (a, b) = bornes[k];
        let ghost l = s@.subrange(a as int, b as int);
        assert(ls[k as int] == l);
        assert(ls.take(k + 1).drop_last() == ls.take(k as int));
        assert(ls.take(k + 1).last() == l);
        if !contient_motif(&s, a, b, &motif) {
            let ghost avant = lignes_sans(ls.take(k as int), chemin@);
            let ligne = texte_de(&s, a, b);
            let ghost r0 = r@;
            if gardees > 0 {
                r.append("\n");
            }
            r.append(ligne.as_str());
            proof {
                let apres = avant.push(l);
                assert(apres.drop_last() == avant);
                assert(apres.last() == l);
                if avant.len() == 0 {
                    assert(apres.len() == 1);
                    assert(apres[0] == l);
                    assert(r@ == r0 + l);
                } else {
                    assert(r@ == r0 + "\n"@ + l);
                }
                assert(lignes_sans(ls.take(k + 1), chemin@) == apres);
            }
            gardees = gardees + 1;
        }
        k += 1;
    }
    assert(ls.take(k as int) == ls);
    r.append("\n");
    r
}

/// The plan to stop an export, once `/etc/exports` is rewritten: reload the
/// exports, unmount the directory (then remove it).
pub fn commandes_arret_export(export: &RamExport) -> (r: Vec<Commande>)
    ensures
        vue_commandes(r@) == seq![("exportfs"@, seq!["-ra"@]), ("umount"@, seq![export.chemin@])],
{
    let recharger = commande_exportfs();
    let demonter = commande("umount", args1(export.chemin.clone()));
    let r = vec![recharger, demonter];
    assert(vue_commandes(r@) =~= seq![recharger.vue(), demonter.vue()]);
    r
}

/// The directory where the export `id` of a donor is mounted here.
pub open spec fn chemin_montage(id: Seq<char>) -> Seq<char> {
    "/mnt/remote-ram"@ + "/"@ + id
}

/// What mounting a donor's RAM takes, once the local directory exists:
/// mount the donor's export over NFS.
pub struct PlanMontage {
    pub chemin_local: String,
    pub montage: Commande,
    pub chemin_fichier: String,
}

/// The plan to mount the export `export_id` of `donneur_ip`.
pub fn plan_montage(donneur_ip: &str, export_id: &str) -> (r: PlanMontage)
    ensures
        r.chemin_local@ == chemin_montage(export_id@),
        r.montage.vue() == ("mount"@, seq![
            "-t"@,
            "nfs"@,
            donneur_ip@ + ":"@ + ("/mnt/shared-ram/"@ + export_id@),
            chemin_montage(export_id@),
        ]),
        r.chemin_fichier@ == chemin_montage(export_id@) + "/data"@,
{
    let chemin_distant = joindre("/mnt/shared-ram/", export_id);
    let chemin_local = joindre3(REMOTE_RAM_PATH, "/", export_id);
    let source = joindre3(donneur_ip, ":", chemin_distant.as_str());
    let montage = commande("mount", args4(t("-t"), t("nfs"), source, chemin_local.clone()));
    let chemin_fichier = joindre(chemin_local.as_str(), "/data");
    PlanMontage { chemin_local, montage, chemin_fichier }
}

impl RamDistante {
    /// The donor's RAM once mounted.
    pub fn depuis_plan(export_id: &str, donneur_ip: &str, taille_mb: u64, plan: PlanMontage) -> (r: RamDistante)
        ensures
            r.id@ == export_id@,
            r.donneur_ip@ == donneur_ip@,
            r.chemin_local == plan.chemin_local,
            r.chemin_fichier == plan.chemin_fichier,
            r.taille_mb == taille_mb,
    {
        RamDistante {
            id: String::from_str(export_id),
            donneur_ip: String::from_str(donneur_ip),
            chemin_local: plan.chemin_local,
            chemin_fichier: plan.chemin_fichier,
            taille_mb,
        }
    }
}

/// `umount <local directory>`.
pub fn commande_demontage(distant: &RamDistante) -> (r: Commande)
    ensures
        r.vue() == ("umount"@, seq![distant.chemin_local@]),
{
    commande("umount", args1(distant.chemin_local.clone()))
}

/// The file to map: the data file of the mounted export.
pub fn chemin_mmap(distant: &RamDistante) -> (r: String)
    ensures
        r == distant.chemin_fichier,
{
    distant.chemin_fichier.clone()
}

} // verus!
