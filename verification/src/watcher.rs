//! The receiver's watch over the remote swap spaces it uses: a space that
//! stays empty for a delay, or is nearly empty while memory is comfortable,
//! is released.
use vstd::prelude::*;
use crate::memoire::{MemInfo, en_dessous};
use crate::swap::entree_swaps;

verus! {

/// A remote space under watch; `vide_depuis` is the instant (milliseconds of a
/// monotonic clock) from which it has been seen empty.
pub struct SwapSuivi {
    pub swap_id: String,
    pub device: String,
    pub donneur_ip: String,
    pub port_rpc: u16,
    pub vide_depuis: Option<u64>,
}

/// The watched spaces; a space empty for `delai_liberation` seconds is
/// released, and memory is comfortable below `seuil_ram_confortable` percent
/// in use.
pub struct SwapWatcher {
    pub suivis: Vec<SwapSuivi>,
    pub delai_liberation: u64,
    pub seuil_ram_confortable: u64,
}

/// At `maintenant`, what began at `debut` has lasted `delai_secs` seconds
/// (an instant before `debut` counts as no time at all).
pub open spec fn a_dure(debut: u64, maintenant: u64, delai_secs: u64) -> bool {
    if maintenant >= debut {
        maintenant - debut >= delai_secs * 1000
    } else {
        delai_secs == 0
    }
}

/// Whether a space is released, given the kB in use on it (`None` when it is
/// not in `/proc/swaps`): empty since the delay, or under 1024 kB while memory
/// is comfortable.
pub open spec fn a_liberer(s: SwapSuivi, usage: Option<u64>, confortable: bool, maintenant: u64, delai: u64) -> bool {
    match usage {
        Some(u) => if u == 0 {
            match s.vide_depuis {
                Some(d) => a_dure(d, maintenant, delai),
                None => false,
            }
        } else {
            confortable && u < 1024
        },
        None => false,
    }
}

/// A kept space after a check: first seen empty now, no longer empty, or unchanged.
pub open spec fn apres_controle(s: SwapSuivi, usage: Option<u64>, maintenant: u64) -> SwapSuivi {
    match usage {
        Some(u) => if u == 0 {
            if s.vide_depuis is None {
                SwapSuivi { vide_depuis: Some(maintenant), ..s }
            } else {
                s
            }
        } else {
            SwapSuivi { vide_depuis: None, ..s }
        },
        None => s,
    }
}

/// The released spaces, from the last watched to the first.
pub open spec fn liberes(s: Seq<SwapSuivi>, u: Seq<Option<u64>>, confortable: bool, maintenant: u64, delai: u64) -> Seq<SwapSuivi>
    decreases s.len(),
{
    if s.len() == 0 {
        Seq::empty()
    } else {
        let suite = liberes(s.drop_first(), u.drop_first(), confortable, maintenant, delai);
        if a_liberer(s[0], u[0], confortable, maintenant, delai) {
            suite.push(s[0])
        } else {
            suite
        }
    }
}

/// The kept spaces after the check, in order.
pub open spec fn gardes(s: Seq<SwapSuivi>, u: Seq<Option<u64>>, confortable: bool, maintenant: u64, delai: u64) -> Seq<SwapSuivi>
    decreases s.len(),
{
    if s.len() == 0 {
        Seq::empty()
    } else {
        let suite = gardes(s.drop_first(), u.drop_first(), confortable, maintenant, delai);
        if a_liberer(s[0], u[0], confortable, maintenant, delai) {
            suite
        } else {
            seq![apres_controle(s[0], u[0], maintenant)] + suite
        }
    }
}

/// The kB in use on `device`, from the text of `/proc/swaps`: the fourth
/// column of its entry, `None` when it is not a number or there is no entry.
pub open spec fn usage_de(contenu: Seq<char>, device: Seq<char>) -> Option<u64> {
    match entree_swaps(contenu, device) {
        Some((_, u)) => u,
        None => None,
    }
}

fn dure(debut: u64, maintenant: u64, delai_secs: u64) -> (r: bool)
    ensures
        r == a_dure(debut, maintenant, delai_secs),
{
    if maintenant >= debut {
        (maintenant - debut) / 1000 >= delai_secs
    } else {
        delai_secs == 0
    }
}

impl SwapWatcher {
    /// No space under watch; release after `delai_secs` seconds empty;
    /// memory comfortable below 50 % in use.
    pub fn new(delai_secs: u64) -> (r: Self)
        ensures
            r.suivis@.len() == 0,
            r.delai_liberation == delai_secs,
            r.seuil_ram_confortable == 50,
    {
        SwapWatcher { suivis: Vec::new(), delai_liberation: delai_secs, seuil_ram_confortable: 50 }
    }

    /// Puts the space `swap_id` on `device`, from `donneur_ip`, under watch.
    pub fn ajouter(&mut self, swap_id: &str, device: &str, donneur_ip: &str, port_rpc: u16)
        ensures
            final(self).suivis@.len() == old(self).suivis@.len() + 1,
            final(self).suivis@.drop_last() == old(self).suivis@,
            final(self).suivis@.last().swap_id@ == swap_id@,
            final(self).suivis@.last().device@ == device@,
            final(self).suivis@.last().donneur_ip@ == donneur_ip@,
            final(self).suivis@.last().port_rpc == port_rpc,
            final(self).suivis@.last().vide_depuis is None,
            final(self).delai_liberation == old(self).delai_liberation,
            final(self).seuil_ram_confortable == old(self).seuil_ram_confortable,
    {
        self.suivis.push(
            SwapSuivi {
                swap_id: String::from_str(swap_id),
                device: String::from_str(device),
                donneur_ip: String::from_str(donneur_ip),
                port_rpc,
                vide_depuis: None,
            },
        );
        assert(self.suivis@.drop_last() == old(self).suivis@);
    }

    /// The kB in use on `device`, from the text of `/proc/swaps` (see `usage_de`).
    pub fn lire_usage_pub(contenu_swaps: &str, device: &str) -> (r: Option<u64>)
        ensures
            r == usage_de(contenu_swaps@, device@),
    {
        match crate::swap::lire_entree_swaps(contenu_swaps, device) {
            Some((_, u)) => u,
            None => None,
        }
    }

    /// Memory is comfortable: the report was read and less than
    /// `seuil_ram_confortable` percent of memory is in use.
    pub fn ram_confortable(&self, lecture: &Result<MemInfo, String>) -> (r: bool)
        ensures
            r == match lecture {
                Ok(info) => en_dessous(*info, self.seuil_ram_confortable),
                Err(_) => false,
            },
    {
        match lecture {
            Ok(info) => info.utilisation_en_dessous(self.seuil_ram_confortable),
            Err(_) => false,
        }
    }

    /// Checks each space against the kB in use on it (`usages`, one per space,
    /// `None` when it is not in `/proc/swaps`) at `maintenant`: releases those
    /// due (see `a_liberer`) and hands them back from the last to the first;
    /// the others stay, updated (see `apres_controle`).
    pub fn verifier_suivis(&mut self, confortable: bool, usages: &Vec<Option<u64>>, maintenant: u64) -> (r: Vec<SwapSuivi>)
        requires
            usages@.len() == old(self).suivis@.len(),
        ensures
            r@ == liberes(old(self).suivis@, usages@, confortable, maintenant, old(self).delai_liberation),
            final(self).suivis@ == gardes(old(self).suivis@, usages@, confortable, maintenant, old(self).delai_liberation),
            final(self).delai_liberation == old(self).delai_liberation,
            final(self).seuil_ram_confortable == old(self).seuil_ram_confortable,
    {
        let ghost anciens = self.suivis@;
        let mut reste: Vec<SwapSuivi> = Vec::new();
        std::mem::swap(&mut reste, &mut self.suivis);
        let mut liberes_v: Vec<SwapSuivi> = Vec::new();
        let mut gardes_v: Vec<SwapSuivi> = Vec::new();
        let delai = self.delai_liberation;
        let n = reste.len();
        assert(anciens.skip(n as int) == Seq::<SwapSuivi>::empty());
        assert(usages@.skip(n as int) == Seq::<Option<u64>>::empty());
        while reste.len() > 0
            invariant
                reste@ == anciens.take(reste@.len() as int),
                reste@.len() <= anciens.len(),
                usages@.len() == anciens.len(),
                delai == old(self).delai_liberation,
                liberes_v@ == liberes(anciens.skip(reste@.len() as int), usages@.skip(reste@.len() as int), confortable, maintenant, delai),
                gardes_v@ == gardes(anciens.skip(reste@.len() as int), usages@.skip(reste@.len() as int), confortable, maintenant, delai),
            decreases reste.len(),
        {
            let k = reste.len() - 1;
            let s = reste.pop().unwrap();
            let u = usages[k];
            proof {
                assert(s == anciens[k as int]);
                assert(anciens.skip(k as int).drop_first() == anciens.skip(k + 1));
                assert(anciens.skip(k as int)[0] == anciens[k as int]);
                assert(usages@.skip(k as int).drop_first() == usages@.skip(k + 1));
                assert(usages@.skip(k as int)[0] == usages@[k as int]);
                assert(reste@ == anciens.take(k as int));
            }
            let liberer = match u {
                Some(used) => if used == 0 {
                    match s.vide_depuis {
                        Some(d) => dure(d, maintenant, delai),
                        None => false,
                    }
                } else {
                    confortable && used < 1024
                },
                None => false,
            };
            if liberer {
                liberes_v.push(s);
            } else {
                let ghost g0 = gardes_v@;
                let garde = match u {
                    Some(used) => if used == 0 {
                        match s.vide_depuis {
                            None => SwapSuivi { vide_depuis: Some(maintenant), ..s },
                            Some(_) => s,
                        }
                    } else {
                        SwapSuivi { vide_depuis: None, ..s }
                    },
                    None => s,
                };
                gardes_v.insert(0, garde);
                assert(gardes_v@ =~= seq![garde] + g0);
            }
        }
        assert(anciens.skip(0) == anciens);
        assert(usages@.skip(0) == usages@);
        self.suivis = gardes_v;
        liberes_v
    }

    /// The number of spaces under watch.
    pub fn nb_suivis(&self) -> (r: usize)
        ensures
            r == self.suivis@.len(),
    {
        self.suivis.len()
    }
}

} // verus!
