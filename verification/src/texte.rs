//! Text handling on character sequences: the pieces of `str`'s behaviour that
//! the agent relies on (trimming, lines, words, decimal numbers), each stated
//! as a spec function over `Seq<char>` and implemented on `Vec<char>`.
use vstd::prelude::*;

verus! {

// ---------------------------------------------------------------------------
// Characters
// ---------------------------------------------------------------------------
/// The Unicode `White_Space` property, which is what `char::is_whitespace` tests.
pub open spec fn est_blanc(c: char) -> bool {
    let u = c as u32;
    ||| u == 0x20
    ||| (0x09 <= u && u <= 0x0d)
    ||| u == 0x85
    ||| u == 0xa0
    ||| u == 0x1680
    ||| (0x2000 <= u && u <= 0x200a)
    ||| u == 0x2028
    ||| u == 0x2029
    ||| u == 0x202f
    ||| u == 0x205f
    ||| u == 0x3000
}

pub fn blanc(c: char) -> (r: bool)
    ensures
        r == est_blanc(c),
{
    let u = c as u32;
    u == 0x20 || (0x09 <= u && u <= 0x0d) || u == 0x85 || u == 0xa0 || u == 0x1680 || (0x2000
        <= u && u <= 0x200a) || u == 0x2028 || u == 0x2029 || u == 0x202f || u == 0x205f || u
        == 0x3000
}

pub open spec fn est_chiffre(c: char) -> bool {
    0x30 <= (c as u32) && (c as u32) <= 0x39
}

pub open spec fn valeur_chiffre(c: char) -> nat {
    ((c as u32) - 0x30) as nat
}

/// The digit character for `d < 10`.
pub open spec fn chiffre(d: nat) -> char {
    if d == 0 {
        '0'
    } else if d == 1 {
        '1'
    } else if d == 2 {
        '2'
    } else if d == 3 {
        '3'
    } else if d == 4 {
        '4'
    } else if d == 5 {
        '5'
    } else if d == 6 {
        '6'
    } else if d == 7 {
        '7'
    } else if d == 8 {
        '8'
    } else {
        '9'
    }
}

// ---------------------------------------------------------------------------
// Conversions between `str`, `String` and `Vec<char>`
// ---------------------------------------------------------------------------
/// The characters of a string slice, in order.
pub fn vers_chars(s: &str) -> (r: Vec<char>)
    ensures
        r@ == s@,
{
    let mut r: Vec<char> = Vec::new();
    for c in iter: s.chars()
        invariant
            r@ == iter.seq().take(iter.index() as int),
            iter.seq() == s@,
    {
        r.push(c);
    }
    r
}

/// `String::push`: appends one character.
#[verifier::external_body]
pub(crate) fn pousser_char(s: &mut String, c: char)
    ensures
        final(s)@ == old(s)@.push(c),
{
    s.push(c)
}

/// The string made of the characters `s[a..b]`.
pub fn texte_de(s: &Vec<char>, a: usize, b: usize) -> (r: String)
    requires
        a <= b <= s.len(),
    ensures
        r@ == s@.subrange(a as int, b as int),
{
    let mut r = String::new();
    let mut i = a;
    while i < b
        invariant
            a <= i <= b <= s.len(),
            r@ == s@.subrange(a as int, i as int),
        decreases b - i,
    {
        pousser_char(&mut r, s[i]);
        assert(s@.subrange(a as int, i + 1) == s@.subrange(a as int, i as int).push(s@[i as int]));
        i += 1;
    }
    r
}

/// Concatenation of two strings.
pub fn joindre(a: &str, b: &str) -> (r: String)
    ensures
        r@ == a@ + b@,
{
    let mut r = String::from_str(a);
    r.append(b);
    r
}

/// Concatenation of three strings.
pub fn joindre3(a: &str, b: &str, c: &str) -> (r: String)
    ensures
        r@ == a@ + b@ + c@,
{
    let mut r = String::from_str(a);
    r.append(b);
    r.append(c);
    r
}

/// Equality of two strings.
pub fn meme_texte(a: &str, b: &str) -> (r: bool)
    ensures
        r == (a@ == b@),
{
    let x = String::from_str(a);
    let y = String::from_str(b);
    x == y
}

// ---------------------------------------------------------------------------
// Trimming
// ---------------------------------------------------------------------------
pub open spec fn rogner_debut(s: Seq<char>) -> Seq<char>
    decreases s.len(),
{
    if s.len() > 0 && est_blanc(s[0]) {
        rogner_debut(s.drop_first())
    } else {
        s
    }
}

pub open spec fn rogner_fin(s: Seq<char>) -> Seq<char>
    decreases s.len(),
{
    if s.len() > 0 && est_blanc(s.last()) {
        rogner_fin(s.drop_last())
    } else {
        s
    }
}

/// `str::trim`: white space removed at both ends.
pub open spec fn rogner(s: Seq<char>) -> Seq<char> {
    rogner_fin(rogner_debut(s))
}

/// `str::trim_end_matches(c)` for one character `c`.
pub open spec fn sans_fin(s: Seq<char>, c: char) -> Seq<char>
    decreases s.len(),
{
    if s.len() > 0 && s.last() == c {
        sans_fin(s.drop_last(), c)
    } else {
        s
    }
}

proof fn lemme_rogner_debut(s: Seq<char>, i: int)
    requires
        0 <= i <= s.len(),
        forall|j: int| 0 <= j < i ==> est_blanc(#[trigger] s[j]),
        i == s.len() || !est_blanc(s[i]),
    ensures
        rogner_debut(s) == s.skip(i),
    decreases i,
{
    if i == 0 {
        assert(s.skip(0) == s);
    } else {
        let t = s.drop_first();
        assert forall|j: int| 0 <= j < i - 1 implies est_blanc(#[trigger] t[j]) by {
            assert(t[j] == s[j + 1]);
        }
        if i - 1 < t.len() {
            assert(t[i - 1] == s[i]);
        }
        lemme_rogner_debut(t, i - 1);
        assert(t.skip(i - 1) == s.skip(i));
    }
}

proof fn lemme_rogner_fin(s: Seq<char>, k: int)
    requires
        0 <= k <= s.len(),
        forall|j: int| k <= j < s.len() ==> est_blanc(#[trigger] s[j]),
        k == 0 || !est_blanc(s[k - 1]),
    ensures
        rogner_fin(s) == s.take(k),
    decreases s.len() - k,
{
    if k == s.len() {
        assert(s.take(k) == s);
    } else {
        let t = s.drop_last();
        assert(est_blanc(s[s.len() - 1]));
        assert forall|j: int| k <= j < t.len() implies est_blanc(#[trigger] t[j]) by {
            assert(t[j] == s[j]);
        }
        if k > 0 {
            assert(t[k - 1] == s[k - 1]);
        }
        lemme_rogner_fin(t, k);
        assert(t.take(k) == s.take(k));
    }
}

/// Bounds `(a, b)` such that `s[a..b]` is `s` trimmed.
pub fn bornes_rognees(s: &Vec<char>, debut: usize, fin: usize) -> (r: (usize, usize))
    requires
        debut <= fin <= s.len(),
    ensures
        debut <= r.0 <= r.1 <= fin,
        s@.subrange(r.0 as int, r.1 as int) == rogner(s@.subrange(debut as int, fin as int)),
{
    let ghost t = s@.subrange(debut as int, fin as int);
    let mut a = debut;
    while a < fin && blanc(s[a])
        invariant
            debut <= a <= fin <= s.len(),
            t == s@.subrange(debut as int, fin as int),
            forall|j: int| 0 <= j < a - debut ==> est_blanc(#[trigger] t[j]),
        decreases fin - a,
    {
        assert(t[a - debut] == s@[a as int]);
        a += 1;
    }
    proof {
        if a < fin {
            assert(t[a - debut] == s@[a as int]);
        }
        lemme_rogner_debut(t, a - debut);
        assert(t.skip(a - debut) == s@.subrange(a as int, fin as int));
    }
    let ghost u = s@.subrange(a as int, fin as int);
    let mut b = fin;
    while b > a && blanc(s[b - 1])
        invariant
            debut <= a <= b <= fin <= s.len(),
            u == s@.subrange(a as int, fin as int),
            forall|j: int| b - a <= j < u.len() ==> est_blanc(#[trigger] u[j]),
        decreases b - a,
    {
        assert(u[b - 1 - a] == s@[b - 1]);
        b -= 1;
    }
    proof {
        if b > a {
            assert(u[b - 1 - a] == s@[b - 1]);
        }
        lemme_rogner_fin(u, b - a);
        assert(u.take(b - a) == s@.subrange(a as int, b as int));
    }
    (a, b)
}

/// `str::trim`.
pub fn rogne(s: &str) -> (r: String)
    ensures
        r@ == rogner(s@),
{
    let v = vers_chars(s);
    let (a, b) = bornes_rognees(&v, 0, v.len());
    assert(v@.subrange(0, v@.len() as int) == v@);
    texte_de(&v, a, b)
}

proof fn lemme_sans_fin(s: Seq<char>, c: char, k: int)
    requires
        0 <= k <= s.len(),
        forall|j: int| k <= j < s.len() ==> #[trigger] s[j] == c,
        k == 0 || s[k - 1] != c,
    ensures
        sans_fin(s, c) == s.take(k),
    decreases s.len() - k,
{
    if k == s.len() {
        assert(s.take(k) == s);
    } else {
        let t = s.drop_last();
        assert(s[s.len() - 1] == c);
        assert forall|j: int| k <= j < t.len() implies #[trigger] t[j] == c by {
            assert(t[j] == s[j]);
        }
        if k > 0 {
            assert(t[k - 1] == s[k - 1]);
        }
        lemme_sans_fin(t, c, k);
        assert(t.take(k) == s.take(k));
    }
}

/// `str::trim_end_matches(c)` for one character `c`.
pub fn sans_fin_exec(s: &str, c: char) -> (r: String)
    ensures
        r@ == sans_fin(s@, c),
{
    let v = vers_chars(s);
    let mut b = v.len();
    while b > 0 && v[b - 1] == c
        invariant
            b <= v.len(),
            forall|j: int| b <= j < v@.len() ==> #[trigger] v@[j] == c,
        decreases b,
    {
        b -= 1;
    }
    proof {
        lemme_sans_fin(v@, c, b as int);
    }
    texte_de(&v, 0, b)
}


// ---------------------------------------------------------------------------
// Searching
// ---------------------------------------------------------------------------
/// Number of characters before the first `c` (the whole length when there is none).
pub open spec fn jusqu_a(s: Seq<char>, c: char) -> nat
    decreases s.len(),
{
    if s.len() == 0 || s[0] == c {
        0
    } else {
        1 + jusqu_a(s.drop_first(), c)
    }
}

pub proof fn lemme_jusqu_a(s: Seq<char>, c: char)
    ensures
        jusqu_a(s, c) <= s.len(),
        forall|j: int| 0 <= j < jusqu_a(s, c) ==> #[trigger] s[j] != c,
        jusqu_a(s, c) < s.len() ==> s[jusqu_a(s, c) as int] == c,
    decreases s.len(),
{
    if s.len() > 0 && s[0] != c {
        let t = s.drop_first();
        lemme_jusqu_a(t, c);
        assert forall|j: int| 0 <= j < jusqu_a(s, c) implies #[trigger] s[j] != c by {
            if j > 0 {
                assert(s[j] == t[j - 1]);
            }
        }
    }
}

pub proof fn lemme_jusqu_a_unique(s: Seq<char>, c: char, k: int)
    requires
        0 <= k <= s.len(),
        forall|j: int| 0 <= j < k ==> #[trigger] s[j] != c,
        k == s.len() || s[k] == c,
    ensures
        jusqu_a(s, c) == k,
    decreases k,
{
    if k > 0 {
        let t = s.drop_first();
        assert forall|j: int| 0 <= j < k - 1 implies #[trigger] t[j] != c by {
            assert(t[j] == s[j + 1]);
        }
        if k < s.len() {
            assert(t[k - 1] == s[k]);
        }
        assert(s[0] != c);
        lemme_jusqu_a_unique(t, c, k - 1);
    }
}

/// Index of the first `c` in `s[debut..fin]`, or `fin`.
pub fn chercher(s: &Vec<char>, debut: usize, fin: usize, c: char) -> (r: usize)
    requires
        debut <= fin <= s.len(),
    ensures
        debut <= r <= fin,
        r - debut == jusqu_a(s@.subrange(debut as int, fin as int), c),
{
    let ghost t = s@.subrange(debut as int, fin as int);
    let mut i = debut;
    while i < fin && s[i] != c
        invariant
            debut <= i <= fin <= s.len(),
            t == s@.subrange(debut as int, fin as int),
            forall|j: int| 0 <= j < i - debut ==> #[trigger] t[j] != c,
        decreases fin - i,
    {
        assert(t[i - debut] == s@[i as int]);
        i += 1;
    }
    proof {
        if i < fin {
            assert(t[i - debut] == s@[i as int]);
        }
        lemme_jusqu_a_unique(t, c, i - debut);
    }
    i
}

/// `s` starts with `p`.
pub open spec fn commence_par(s: Seq<char>, p: Seq<char>) -> bool {
    p.len() <= s.len() && s.take(p.len() as int) == p
}

/// `p` occurs in `s` from position `i`.
pub open spec fn occurrence_en(s: Seq<char>, p: Seq<char>, i: int) -> bool {
    0 <= i && i + p.len() <= s.len() && s.subrange(i, i + p.len()) == p
}

/// `str::contains` for a string pattern.
pub open spec fn contient(s: Seq<char>, p: Seq<char>) -> bool {
    exists|i: int| occurrence_en(s, p, i)
}

/// Whether `p` occurs in `s[debut..fin]` at offset `i - debut`.
pub fn occurrence_a(s: &Vec<char>, debut: usize, fin: usize, p: &Vec<char>, i: usize) -> (r: bool)
    requires
        debut <= i <= fin <= s.len(),
    ensures
        r == occurrence_en(s@.subrange(debut as int, fin as int), p@, i - debut),
{
    let ghost t = s@.subrange(debut as int, fin as int);
    if p.len() > fin - i {
        return false;
    }
    let mut k: usize = 0;
    while k < p.len()
        invariant
            debut <= i <= fin <= s.len(),
            p.len() <= fin - i,
            k <= p.len(),
            t == s@.subrange(debut as int, fin as int),
            forall|j: int| 0 <= j < k ==> s@[i + j] == #[trigger] p@[j],
        decreases p.len() - k,
    {
        if s[i + k] != p[k] {
            assert(t.subrange(i - debut, i - debut + p@.len())[k as int] == s@[i + k]);
            return false;
        }
        k += 1;
    }
    assert(t.subrange(i - debut, i - debut + p@.len()) =~= p@);
    true
}

/// `str::starts_with` on `s[debut..fin]`.
pub fn commence(s: &Vec<char>, debut: usize, fin: usize, p: &Vec<char>) -> (r: bool)
    requires
        debut <= fin <= s.len(),
    ensures
        r == commence_par(s@.subrange(debut as int, fin as int), p@),
{
    let r = occurrence_a(s, debut, fin, p, debut);
    let ghost t = s@.subrange(debut as int, fin as int);
    assert(p@.len() <= t.len() ==> t.take(p@.len() as int) == t.subrange(0, p@.len() as int));
    r
}

/// `str::contains` on `s[debut..fin]`.
pub fn contient_motif(s: &Vec<char>, debut: usize, fin: usize, p: &Vec<char>) -> (r: bool)
    requires
        debut <= fin <= s.len(),
    ensures
        r == contient(s@.subrange(debut as int, fin as int), p@),
{
    let ghost t = s@.subrange(debut as int, fin as int);
    let mut i = debut;
    while i < fin
        invariant
            debut <= i <= fin,
            fin <= s.len(),
            t == s@.subrange(debut as int, fin as int),
            forall|j: int| 0 <= j < i - debut ==> !occurrence_en(t, p@, j),
        decreases fin - i,
    {
        if occurrence_a(s, debut, fin, p, i) {
            return true;
        }
        i += 1;
    }
    if occurrence_a(s, debut, fin, p, fin) {
        return true;
    }
    assert forall|j: int| !occurrence_en(t, p@, j) by {
        if 0 <= j <= fin - debut {
        }
    }
    false
}


// ---------------------------------------------------------------------------
// Lines and words
// ---------------------------------------------------------------------------
/// A line as `str::lines` yields it: a final `'\r'` dropped before a `'\n'`.
pub open spec fn ligne_nettoyee(l: Seq<char>) -> Seq<char> {
    if l.len() > 0 && l.last() == '\r' {
        l.drop_last()
    } else {
        l
    }
}

/// `str::lines`: pieces between `'\n'`, without a last empty piece.
pub open spec fn lignes(s: Seq<char>) -> Seq<Seq<char>>
    decreases s.len(),
{
    if s.len() == 0 {
        Seq::empty()
    } else {
        let k = jusqu_a(s, '\n');
        if k < s.len() {
            seq![ligne_nettoyee(s.take(k as int))] + lignes(s.skip(k + 1 as int))
        } else {
            seq![s]
        }
    }
}

/// The pieces of `s` that a list of bounds designates.
pub open spec fn morceaux(s: Seq<char>, b: Seq<(usize, usize)>) -> Seq<Seq<char>> {
    Seq::new(b.len(), |i: int| s.subrange(b[i].0 as int, b[i].1 as int))
}

pub open spec fn bornes_valides(b: Seq<(usize, usize)>, debut: int, fin: int) -> bool {
    forall|i: int| 0 <= i < b.len() ==> debut <= (#[trigger] b[i]).0 <= b[i].1 <= fin
}

/// Bounds of the lines of `s`, as `str::lines` cuts them.
pub fn bornes_lignes(s: &Vec<char>) -> (r: Vec<(usize, usize)>)
    ensures
        bornes_valides(r@, 0, s@.len() as int),
        morceaux(s@, r@) == lignes(s@),
{
    let mut r: Vec<(usize, usize)> = Vec::new();
    let mut debut: usize = 0;
    let n = s.len();
    assert(s@.skip(0) == s@);
    assert(morceaux(s@, r@) == Seq::<Seq<char>>::empty());
    assert(morceaux(s@, r@) + lignes(s@.skip(0)) == lignes(s@));
    while debut < n
        invariant
            n == s.len(),
            debut <= n,
            bornes_valides(r@, 0, n as int),
            morceaux(s@, r@) + lignes(s@.skip(debut as int)) == lignes(s@),
        decreases n - debut,
    {
        let ghost reste = s@.skip(debut as int);
        let j = chercher(s, debut, n, '\n');
        assert(s@.subrange(debut as int, n as int) == reste);
        let ghost avant = morceaux(s@, r@);
        if j < n {
            let fin = if j > debut && s[j - 1] == '\r' {
                j - 1
            } else {
                j
            };
            r.push((debut, fin));
            proof {
                let k = jusqu_a(reste, '\n');
                assert(k == j - debut);
                assert(reste.take(k as int) == s@.subrange(debut as int, j as int));
                assert(reste.skip(k + 1 as int) == s@.skip(j + 1));
                assert(s@.subrange(debut as int, fin as int) == ligne_nettoyee(
                    s@.subrange(debut as int, j as int),
                ));
                assert(morceaux(s@, r@) == avant.push(s@.subrange(debut as int, fin as int)));
                assert(lignes(reste) == seq![ligne_nettoyee(reste.take(k as int))] + lignes(
                    reste.skip(k + 1 as int),
                ));
                assert(morceaux(s@, r@) + lignes(s@.skip(j + 1)) == avant + lignes(reste));
            }
            debut = j + 1;
        } else {
            r.push((debut, n));
            proof {
                assert(morceaux(s@, r@) == avant.push(s@.subrange(debut as int, n as int)));
                assert(lignes(reste) == seq![reste]);
                assert(s@.skip(n as int) == Seq::<char>::empty());
                assert(morceaux(s@, r@) + lignes(s@.skip(n as int)) == avant + lignes(reste));
            }
            debut = n;
        }
    }
    assert(s@.skip(n as int) == Seq::<char>::empty());
    assert(morceaux(s@, r@) + lignes(s@.skip(n as int)) == morceaux(s@, r@));
    r
}

/// Length of the word at the start of `s` (up to the first white space).
pub open spec fn fin_mot(s: Seq<char>) -> nat
    decreases s.len(),
{
    if s.len() == 0 || est_blanc(s[0]) {
        0
    } else {
        1 + fin_mot(s.drop_first())
    }
}

pub proof fn lemme_fin_mot(s: Seq<char>)
    ensures
        fin_mot(s) <= s.len(),
        forall|j: int| 0 <= j < fin_mot(s) ==> !est_blanc(#[trigger] s[j]),
        fin_mot(s) < s.len() ==> est_blanc(s[fin_mot(s) as int]),
    decreases s.len(),
{
    if s.len() > 0 && !est_blanc(s[0]) {
        let t = s.drop_first();
        lemme_fin_mot(t);
        assert forall|j: int| 0 <= j < fin_mot(s) implies !est_blanc(#[trigger] s[j]) by {
            if j > 0 {
                assert(s[j] == t[j - 1]);
            }
        }
    }
}

proof fn lemme_fin_mot_unique(s: Seq<char>, k: int)
    requires
        0 <= k <= s.len(),
        forall|j: int| 0 <= j < k ==> !est_blanc(#[trigger] s[j]),
        k == s.len() || est_blanc(s[k]),
    ensures
        fin_mot(s) == k,
    decreases k,
{
    if k > 0 {
        let t = s.drop_first();
        assert forall|j: int| 0 <= j < k - 1 implies !est_blanc(#[trigger] t[j]) by {
            assert(t[j] == s[j + 1]);
        }
        if k < s.len() {
            assert(t[k - 1] == s[k]);
        }
        assert(!est_blanc(s[0]));
        lemme_fin_mot_unique(t, k - 1);
    }
}

/// `str::split_whitespace`: the non-empty runs of non-white characters.
pub open spec fn mots(s: Seq<char>) -> Seq<Seq<char>>
    decreases s.len(),
{
    if s.len() == 0 {
        Seq::empty()
    } else if est_blanc(s[0]) {
        mots(s.drop_first())
    } else {
        let k = fin_mot(s);
        if 0 < k <= s.len() {
            seq![s.take(k as int)] + mots(s.skip(k as int))
        } else {
            Seq::empty()
        }
    }
}

/// Bounds of the words of `s[debut..fin]`, as `str::split_whitespace` cuts them.
pub fn bornes_mots(s: &Vec<char>, debut: usize, fin: usize) -> (r: Vec<(usize, usize)>)
    requires
        debut <= fin <= s.len(),
    ensures
        bornes_valides(r@, debut as int, fin as int),
        morceaux(s@, r@) == mots(s@.subrange(debut as int, fin as int)),
{
    let mut r: Vec<(usize, usize)> = Vec::new();
    let mut i = debut;
    assert(morceaux(s@, r@) == Seq::<Seq<char>>::empty());
    assert(morceaux(s@, r@) + mots(s@.subrange(i as int, fin as int)) == mots(
        s@.subrange(debut as int, fin as int),
    ));
    while i < fin
        invariant
            debut <= i <= fin <= s.len(),
            bornes_valides(r@, debut as int, fin as int),
            morceaux(s@, r@) + mots(s@.subrange(i as int, fin as int)) == mots(
                s@.subrange(debut as int, fin as int),
            ),
        decreases fin - i,
    {
        let ghost reste = s@.subrange(i as int, fin as int);
        let ghost avant = morceaux(s@, r@);
        if blanc(s[i]) {
            proof {
                assert(reste[0] == s@[i as int]);
                assert(reste.drop_first() == s@.subrange(i + 1, fin as int));
            }
            i += 1;
        } else {
            let mut j = i;
            while j < fin && !blanc(s[j])
                invariant
                    i <= j <= fin <= s.len(),
                    reste == s@.subrange(i as int, fin as int),
                    forall|m: int| 0 <= m < j - i ==> !est_blanc(#[trigger] reste[m]),
                decreases fin - j,
            {
                assert(reste[j - i] == s@[j as int]);
                j += 1;
            }
            proof {
                if j < fin {
                    assert(reste[j - i] == s@[j as int]);
                }
                lemme_fin_mot_unique(reste, j - i);
                assert(reste[0] == s@[i as int]);
                assert(reste.take(j - i) == s@.subrange(i as int, j as int));
                assert(reste.skip(j - i) == s@.subrange(j as int, fin as int));
            }
            r.push((i, j));
            proof {
                assert(morceaux(s@, r@) == avant.push(s@.subrange(i as int, j as int)));
                assert(morceaux(s@, r@) + mots(s@.subrange(j as int, fin as int)) == avant + mots(
                    reste,
                ));
            }
            i = j;
        }
    }
    assert(s@.subrange(fin as int, fin as int) == Seq::<char>::empty());
    assert(morceaux(s@, r@) + mots(s@.subrange(fin as int, fin as int)) == morceaux(s@, r@));
    r
}


// ---------------------------------------------------------------------------
// Decimal numbers
// ---------------------------------------------------------------------------
/// The decimal writing of `n`, as `Display` for an unsigned integer gives it.
pub open spec fn decimal(n: nat) -> Seq<char>
    decreases n,
{
    if n < 10 {
        seq![chiffre(n)]
    } else {
        decimal(n / 10).push(chiffre(n % 10))
    }
}

fn chiffre_exec(d: u64) -> (c: char)
    requires
        d < 10,
    ensures
        c == chiffre(d as nat),
{
    if d == 0 {
        '0'
    } else if d == 1 {
        '1'
    } else if d == 2 {
        '2'
    } else if d == 3 {
        '3'
    } else if d == 4 {
        '4'
    } else if d == 5 {
        '5'
    } else if d == 6 {
        '6'
    } else if d == 7 {
        '7'
    } else if d == 8 {
        '8'
    } else {
        '9'
    }
}

/// Appends the decimal writing of `n` to `s`.
pub fn ecrire_u64(s: &mut String, n: u64)
    ensures
        final(s)@ == old(s)@ + decimal(n as nat),
    decreases n,
{
    if n < 10 {
        pousser_char(s, chiffre_exec(n));
        assert(decimal(n as nat) == seq![chiffre(n as nat)]);
    } else {
        ecrire_u64(s, n / 10);
        pousser_char(s, chiffre_exec(n % 10));
        assert(decimal(n as nat) == decimal((n / 10) as nat).push(chiffre((n % 10) as nat)));
    }
}

/// The decimal writing of `n`.
pub fn texte_u64(n: u64) -> (r: String)
    ensures
        r@ == decimal(n as nat),
{
    let mut r = String::new();
    ecrire_u64(&mut r, n);
    assert(Seq::<char>::empty() + decimal(n as nat) == decimal(n as nat));
    r
}

pub open spec fn tous_chiffres(s: Seq<char>) -> bool {
    forall|i: int| 0 <= i < s.len() ==> est_chiffre(#[trigger] s[i])
}

/// The number that a run of digits writes.
pub open spec fn valeur_decimale(s: Seq<char>) -> nat
    decreases s.len(),
{
    if s.len() == 0 {
        0
    } else {
        valeur_decimale(s.drop_last()) * 10 + valeur_chiffre(s.last())
    }
}

/// `str::parse::<u64>`: an optional `'+'`, then at least one decimal digit,
/// for a value that fits in 64 bits.
pub open spec fn analyse_u64(s: Seq<char>) -> Option<u64> {
    chiffres_u64(
        if s.len() > 0 && s[0] == '+' {
            s.drop_first()
        } else {
            s
        },
    )
}

/// At least one decimal digit, for a value that fits in 64 bits.
pub open spec fn chiffres_u64(d: Seq<char>) -> Option<u64> {
    if d.len() > 0 && tous_chiffres(d) && valeur_decimale(d) <= u64::MAX {
        Some(valeur_decimale(d) as u64)
    } else {
        None
    }
}

proof fn lemme_valeur_prefixe(s: Seq<char>, k: int)
    requires
        0 <= k <= s.len(),
    ensures
        valeur_decimale(s) >= valeur_decimale(s.take(k)),
    decreases s.len(),
{
    if k < s.len() {
        let t = s.drop_last();
        lemme_valeur_prefixe(t, k);
        assert(t.take(k) == s.take(k));
    } else {
        assert(s.take(k) == s);
    }
}

proof fn lemme_valeur_pousser(s: Seq<char>, c: char)
    ensures
        valeur_decimale(s.push(c)) == valeur_decimale(s) * 10 + valeur_chiffre(c),
{
    assert(s.push(c).drop_last() == s);
}

/// `str::parse::<u64>` on `s[debut..fin]`.
pub fn analyser_u64(s: &Vec<char>, debut: usize, fin: usize) -> (r: Option<u64>)
    requires
        debut <= fin <= s.len(),
    ensures
        r == analyse_u64(s@.subrange(debut as int, fin as int)),
{
    let ghost t = s@.subrange(debut as int, fin as int);
    let mut i = debut;
    if i < fin && s[i] == '+' {
        i += 1;
    }
    let ghost d = s@.subrange(i as int, fin as int);
    proof {
        if debut < fin && s@[debut as int] == '+' {
            assert(t[0] == s@[debut as int]);
            assert(t.drop_first() == d);
        } else {
            if debut < fin {
                assert(t[0] == s@[debut as int]);
            }
            assert(t == d);
        }
    }
    if i == fin {
        return None;
    }
    let debut_chiffres = i;
    let mut v: u64 = 0;
    while i < fin
        invariant
            debut_chiffres <= i <= fin <= s.len(),
            d == s@.subrange(debut_chiffres as int, fin as int),
            t == s@.subrange(debut as int, fin as int),
            analyse_u64(t) == chiffres_u64(d),
            d.len() > 0,
            tous_chiffres(d.take(i - debut_chiffres)),
            v == valeur_decimale(d.take(i - debut_chiffres)),
        decreases fin - i,
    {
        let c = s[i];
        let u = c as u32;
        assert(d[i - debut_chiffres] == c);
        if u < 0x30 || u > 0x39 {
            assert(!tous_chiffres(d));
            return None;
        }
        let chiffre_v = (u - 0x30) as u64;
        let ghost p = d.take(i - debut_chiffres);
        proof {
            assert(d.take(i - debut_chiffres + 1) == p.push(c));
            lemme_valeur_pousser(p, c);
        }
        if v > (u64::MAX - chiffre_v) / 10 {
            proof {
                assert(v * 10 + chiffre_v > u64::MAX) by (nonlinear_arith)
                    requires
                        v > (u64::MAX - chiffre_v) / 10,
                        chiffre_v <= 9,
                ;
                if tous_chiffres(d) {
                    lemme_valeur_prefixe(d, i - debut_chiffres + 1);
                }
            }
            return None;
        }
        assert(v * 10 + chiffre_v <= u64::MAX) by (nonlinear_arith)
            requires
                v <= (u64::MAX - chiffre_v) / 10,
                chiffre_v <= 9,
        ;
        v = v * 10 + chiffre_v;
        i += 1;
    }
    assert(d.take(fin - debut_chiffres) == d);
    Some(v)
}

/// `str::parse::<u64>`.
pub fn analyser_u64_texte(s: &str) -> (r: Option<u64>)
    ensures
        r == analyse_u64(s@),
{
    let v = vers_chars(s);
    assert(v@.subrange(0, v@.len() as int) == v@);
    analyser_u64(&v, 0, v.len())
}

proof fn lemme_chiffre(d: nat)
    requires
        d < 10,
    ensures
        est_chiffre(chiffre(d)),
        valeur_chiffre(chiffre(d)) == d,
{
}

/// Reading back a decimal writing gives the number written.
pub proof fn lemme_decimal(n: nat)
    ensures
        decimal(n).len() > 0,
        tous_chiffres(decimal(n)),
        valeur_decimale(decimal(n)) == n,
    decreases n,
{
    if n < 10 {
        lemme_chiffre(n);
        assert(seq![chiffre(n)].drop_last() == Seq::<char>::empty());
        assert(seq![chiffre(n)].last() == chiffre(n));
        assert(valeur_decimale(Seq::<char>::empty()) == 0);
    } else {
        lemme_decimal(n / 10);
        lemme_chiffre(n % 10);
        let p = decimal(n / 10);
        lemme_valeur_pousser(p, chiffre(n % 10));
        assert forall|i: int| 0 <= i < p.push(chiffre(n % 10)).len() implies est_chiffre(
            #[trigger] p.push(chiffre(n % 10))[i],
        ) by {
            if i < p.len() {
                assert(p.push(chiffre(n % 10))[i] == p[i]);
            }
        }
    }
}

/// Parsing the decimal writing of a 64-bit number gives the number back.
pub proof fn loi_analyse_decimal(n: u64)
    ensures
        analyse_u64(decimal(n as nat)) == Some(n),
{
    lemme_decimal(n as nat);
    lemme_chiffre(0);
    assert(est_chiffre(decimal(n as nat)[0]));
}


// ---------------------------------------------------------------------------
// Pieces
// ---------------------------------------------------------------------------
/// `str::replace(p, "")`: every occurrence of `p`, found from the left, removed.
pub open spec fn retirer_motif(s: Seq<char>, p: Seq<char>) -> Seq<char>
    decreases s.len(),
{
    if s.len() == 0 || p.len() == 0 {
        s
    } else if commence_par(s, p) {
        retirer_motif(s.skip(p.len() as int), p)
    } else {
        seq![s[0]] + retirer_motif(s.drop_first(), p)
    }
}

/// `str::replace(p, "")` on `s[debut..fin]`.
pub fn retirer_motif_exec(s: &Vec<char>, debut: usize, fin: usize, p: &Vec<char>) -> (r: String)
    requires
        debut <= fin <= s.len(),
    ensures
        r@ == retirer_motif(s@.subrange(debut as int, fin as int), p@),
{
    let mut r = String::new();
    let mut i = debut;
    assert(r@ + retirer_motif(s@.subrange(debut as int, fin as int), p@) == retirer_motif(
        s@.subrange(debut as int, fin as int),
        p@,
    ));
    while i < fin
        invariant
            debut <= i <= fin <= s.len(),
            r@ + retirer_motif(s@.subrange(i as int, fin as int), p@) == retirer_motif(
                s@.subrange(debut as int, fin as int),
                p@,
            ),
        decreases fin - i,
    {
        let ghost reste = s@.subrange(i as int, fin as int);
        let ghost avant = r@;
        if p.len() == 0 {
            proof {
                assert(retirer_motif(reste, p@) == reste);
                assert(s@.subrange(fin as int, fin as int) == Seq::<char>::empty());
                assert(avant + retirer_motif(reste, p@) == avant + reste);
            }
            let reste_texte = texte_de(s, i, fin);
            r.append(reste_texte.as_str());
            proof {
                assert(retirer_motif(Seq::<char>::empty(), p@) == Seq::<char>::empty());
                assert(r@ + retirer_motif(s@.subrange(fin as int, fin as int), p@) == r@);
            }
            i = fin;
        } else if commence(s, i, fin, p) {
            proof {
                assert(reste.skip(p@.len() as int) == s@.subrange(i + p@.len(), fin as int));
            }
            i = i + p.len();
        } else {
            pousser_char(&mut r, s[i]);
            proof {
                assert(reste[0] == s@[i as int]);
                assert(reste.drop_first() == s@.subrange(i + 1, fin as int));
                assert(retirer_motif(reste, p@) == seq![s@[i as int]] + retirer_motif(
                    reste.drop_first(),
                    p@,
                ));
                assert(r@ == avant.push(s@[i as int]));
                assert(avant + (seq![s@[i as int]] + retirer_motif(reste.drop_first(), p@))
                    == avant.push(s@[i as int]) + retirer_motif(reste.drop_first(), p@));
            }
            i += 1;
        }
    }
    proof {
        assert(s@.subrange(fin as int, fin as int) == Seq::<char>::empty());
        assert(retirer_motif(Seq::<char>::empty(), p@) == Seq::<char>::empty());
        assert(r@ + retirer_motif(s@.subrange(fin as int, fin as int), p@) == r@);
    }
    r
}

/// `s.split(c).nth(1)`: the piece between the first and the second `c`.
pub open spec fn second_morceau(s: Seq<char>, c: char) -> Option<Seq<char>> {
    let k = jusqu_a(s, c);
    if k < s.len() {
        let reste = s.skip(k + 1 as int);
        Some(reste.take(jusqu_a(reste, c) as int))
    } else {
        None
    }
}

/// `s[debut..fin].split(c).nth(1)`, as bounds into `s`.
pub fn second_morceau_exec(s: &Vec<char>, debut: usize, fin: usize, c: char) -> (r: Option<
    (usize, usize),
>)
    requires
        debut <= fin <= s.len(),
    ensures
        match r {
            Some((a, b)) => debut <= a <= b <= fin && second_morceau(
                s@.subrange(debut as int, fin as int),
                c,
            ) == Some(s@.subrange(a as int, b as int)),
            None => second_morceau(s@.subrange(debut as int, fin as int), c) is None,
        },
{
    let ghost t = s@.subrange(debut as int, fin as int);
    let k = chercher(s, debut, fin, c);
    if k == fin {
        return None;
    }
    let j = chercher(s, k + 1, fin, c);
    proof {
        let reste = t.skip(k - debut + 1);
        assert(reste == s@.subrange(k + 1, fin as int));
        assert(reste.take(j - (k + 1)) == s@.subrange(k + 1, j as int));
    }
    Some((k + 1, j))
}


/// The decimal writing of a signed integer, with `'-'` before a negative one.
pub open spec fn decimal_signe(n: int) -> Seq<char> {
    if n < 0 {
        seq!['-'] + decimal((-n) as nat)
    } else {
        decimal(n as nat)
    }
}

/// The decimal writing of `n`.
pub fn texte_i32(n: i32) -> (r: String)
    ensures
        r@ == decimal_signe(n as int),
{
    let mut r = String::new();
    if n < 0 {
        pousser_char(&mut r, '-');
        let m: u64 = (0i64 - n as i64) as u64;
        ecrire_u64(&mut r, m);
    } else {
        ecrire_u64(&mut r, n as u64);
        assert(Seq::<char>::empty() + decimal(n as nat) == decimal(n as nat));
    }
    r
}

} // verus!
