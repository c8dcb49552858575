//! JSON values as the agent exchanges them, with the reading operations of
//! `serde_json::Value` that it uses (`v["key"]`, `as_u64`, `as_str`, ...).
use vstd::prelude::*;
use crate::texte::meme_texte;

verus! {

/// A JSON value. Numbers are held as integers: a number with a fraction or an
/// exponent is `Reel`, whose value the agent never reads.
pub enum Json {
    Nul,
    Booleen(bool),
    Entier(u64),
    EntierNegatif(i64),
    Reel,
    Texte(String),
    Liste(Vec<Json>),
    Objet(Vec<(String, Json)>),
}

/// The mathematical content of a JSON value.
pub enum JsonVue {
    Nul,
    Booleen(bool),
    Entier(u64),
    EntierNegatif(i64),
    Reel,
    Texte(Seq<char>),
    Liste(Seq<JsonVue>),
    Objet(Seq<(Seq<char>, JsonVue)>),
}

impl Json {
    pub open spec fn vue(self) -> JsonVue
        decreases self,
    {
        match self {
            Json::Nul => JsonVue::Nul,
            Json::Booleen(b) => JsonVue::Booleen(b),
            Json::Entier(n) => JsonVue::Entier(n),
            Json::EntierNegatif(n) => JsonVue::EntierNegatif(n),
            Json::Reel => JsonVue::Reel,
            Json::Texte(s) => JsonVue::Texte(s@),
            Json::Liste(v) => JsonVue::Liste(vue_liste(v@)),
            Json::Objet(v) => JsonVue::Objet(vue_paires(v@)),
        }
    }
}

pub open spec fn vue_liste(v: Seq<Json>) -> Seq<JsonVue>
    decreases v,
{
    if v.len() == 0 {
        Seq::empty()
    } else {
        seq![v[0].vue()] + vue_liste(v.drop_first())
    }
}

pub open spec fn vue_paires(v: Seq<(String, Json)>) -> Seq<(Seq<char>, JsonVue)>
    decreases v,
{
    if v.len() == 0 {
        Seq::empty()
    } else {
        seq![(v[0].0@, v[0].1.vue())] + vue_paires(v.drop_first())
    }
}

/// `v[cle]` on an object: the value of the first entry named `cle`.
pub open spec fn chercher_cle(v: Seq<(Seq<char>, JsonVue)>, cle: Seq<char>) -> Option<JsonVue>
    decreases v.len(),
{
    if v.len() == 0 {
        None
    } else if v[0].0 == cle {
        Some(v[0].1)
    } else {
        chercher_cle(v.drop_first(), cle)
    }
}

/// `j[cle]`: the value under `cle` when `j` is an object that has it;
/// `None` stands for what `serde_json` answers then, `Null`.
pub open spec fn champ_json(j: JsonVue, cle: Seq<char>) -> Option<JsonVue> {
    match j {
        JsonVue::Objet(v) => chercher_cle(v, cle),
        _ => None,
    }
}

/// `as_u64`.
pub open spec fn en_u64(j: Option<JsonVue>) -> Option<u64> {
    match j {
        Some(JsonVue::Entier(n)) => Some(n),
        _ => None,
    }
}

/// `as_str`.
pub open spec fn en_texte(j: Option<JsonVue>) -> Option<Seq<char>> {
    match j {
        Some(JsonVue::Texte(s)) => Some(s),
        _ => None,
    }
}

/// `as_bool`.
pub open spec fn en_booleen(j: Option<JsonVue>) -> Option<bool> {
    match j {
        Some(JsonVue::Booleen(b)) => Some(b),
        _ => None,
    }
}

/// `as_array`.
pub open spec fn en_liste(j: Option<JsonVue>) -> Option<Seq<JsonVue>> {
    match j {
        Some(JsonVue::Liste(v)) => Some(v),
        _ => None,
    }
}

pub proof fn lemme_vue_liste(v: Seq<Json>)
    ensures
        vue_liste(v).len() == v.len(),
        forall|i: int| 0 <= i < v.len() ==> #[trigger] vue_liste(v)[i] == v[i].vue(),
    decreases v.len(),
{
    if v.len() > 0 {
        lemme_vue_liste(v.drop_first());
        assert forall|i: int| 0 <= i < v.len() implies #[trigger] vue_liste(v)[i] == v[i].vue() by {
            if i > 0 {
                assert(v.drop_first()[i - 1] == v[i]);
            }
        }
    }
}

pub proof fn lemme_vue_paires(v: Seq<(String, Json)>)
    ensures
        vue_paires(v).len() == v.len(),
        forall|i: int|
            0 <= i < v.len() ==> #[trigger] vue_paires(v)[i] == (v[i].0@, v[i].1.vue()),
    decreases v.len(),
{
    if v.len() > 0 {
        lemme_vue_paires(v.drop_first());
        assert forall|i: int| 0 <= i < v.len() implies #[trigger] vue_paires(v)[i] == (
            v[i].0@,
            v[i].1.vue(),
        ) by {
            if i > 0 {
                assert(v.drop_first()[i - 1] == v[i]);
            }
        }
    }
}

proof fn lemme_chercher_cle(v: Seq<(Seq<char>, JsonVue)>, cle: Seq<char>, k: int)
    requires
        0 <= k <= v.len(),
        forall|j: int| 0 <= j < k ==> (#[trigger] v[j]).0 != cle,
    ensures
        chercher_cle(v, cle) == chercher_cle(v.skip(k), cle),
    decreases k,
{
    if k > 0 {
        let t = v.drop_first();
        assert forall|j: int| 0 <= j < k - 1 implies (#[trigger] t[j]).0 != cle by {
            assert(t[j] == v[j + 1]);
        }
        assert(v[0].0 != cle);
        lemme_chercher_cle(t, cle, k - 1);
        assert(t.skip(k - 1) == v.skip(k));
    } else {
        assert(v.skip(0) == v);
    }
}

impl Json {
    /// `self[cle]`: the entry's value, or `None` where `serde_json` gives `Null`.
    pub fn champ(&self, cle: &str) -> (r: Option<&Json>)
        ensures
            match r {
                Some(x) => champ_json(self.vue(), cle@) == Some(x.vue()),
                None => champ_json(self.vue(), cle@) is None,
            },
    {
        match self {
            Json::Objet(v) => {
                proof {
                    lemme_vue_paires(v@);
                }
                let ghost w = vue_paires(v@);
                let mut i: usize = 0;
                assert(w.skip(0) == w);
                while i < v.len()
                    invariant
                        i <= v.len(),
                        self.vue() == JsonVue::Objet(w),
                        w == vue_paires(v@),
                        w.len() == v@.len(),
                        forall|j: int|
                            0 <= j < v@.len() ==> #[trigger] w[j] == (v@[j].0@, v@[j].1.vue()),
                        chercher_cle(w, cle@) == chercher_cle(w.skip(i as int), cle@),
                    decreases v.len() - i,
                {
                    assert(w.skip(i as int)[0] == w[i as int]);
                    if meme_texte(v[i].0.as_str(), cle) {
                        assert(chercher_cle(w.skip(i as int), cle@) == Some(w[i as int].1));
                        return Some(&v[i].1);
                    }
                    assert(w.skip(i as int).drop_first() == w.skip(i + 1));
                    i += 1;
                }
                assert(w.skip(i as int) == Seq::<(Seq<char>, JsonVue)>::empty());
                None
            },
            _ => None,
        }
    }
}

/// The content of a value that may be absent.
pub open spec fn vue_option(j: Option<&Json>) -> Option<JsonVue> {
    match j {
        Some(x) => Some(x.vue()),
        None => None,
    }
}

/// `as_u64`.
pub fn valeur_u64(j: Option<&Json>) -> (r: Option<u64>)
    ensures
        r == en_u64(vue_option(j)),
{
    match j {
        Some(Json::Entier(n)) => Some(*n),
        _ => None,
    }
}

/// `as_str`.
pub fn valeur_texte(j: Option<&Json>) -> (r: Option<&String>)
    ensures
        match r {
            Some(s) => en_texte(vue_option(j)) == Some(s@),
            None => en_texte(vue_option(j)) is None,
        },
{
    match j {
        Some(Json::Texte(s)) => Some(s),
        _ => None,
    }
}

/// `as_bool`.
pub fn valeur_booleen(j: Option<&Json>) -> (r: Option<bool>)
    ensures
        r == en_booleen(vue_option(j)),
{
    match j {
        Some(Json::Booleen(b)) => Some(*b),
        _ => None,
    }
}

/// `as_array`.
pub fn valeur_liste(j: Option<&Json>) -> (r: Option<&Vec<Json>>)
    ensures
        match r {
            Some(v) => en_liste(vue_option(j)) == Some(vue_liste(v@)),
            None => en_liste(vue_option(j)) is None,
        },
{
    match j {
        Some(Json::Liste(v)) => Some(v),
        _ => None,
    }
}

/// An object of one entry.
pub fn objet1(k: &str, v: Json) -> (r: Json)
    ensures
        r.vue() == JsonVue::Objet(seq![(k@, v.vue())]),
{
    let cle = String::from_str(k);
    let ghost vv = v.vue();
    let paires = vec![(cle, v)];
    proof {
        let p = paires@;
        assert(p.drop_first() == Seq::<(String, Json)>::empty());
        assert(vue_paires(p.drop_first()) == Seq::<(Seq<char>, JsonVue)>::empty());
        assert(vue_paires(p) == seq![(k@, vv)]);
    }
    Json::Objet(paires)
}

/// An object whose entries are `paires`, in order.
pub fn objet(paires: Vec<(String, Json)>) -> (r: Json)
    ensures
        r.vue() == JsonVue::Objet(vue_paires(paires@)),
{
    Json::Objet(paires)
}

/// A string value.
pub fn texte_json(s: &str) -> (r: Json)
    ensures
        r.vue() == JsonVue::Texte(s@),
{
    Json::Texte(String::from_str(s))
}

} // verus!
