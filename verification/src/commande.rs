//! Commands to run on the node: a program and its arguments. The library
//! decides which commands a step runs; running them is the caller's work.
use vstd::prelude::*;

verus! {

/// A program to run with its arguments.
pub struct Commande {
    pub programme: String,
    pub args: Vec<String>,
}

/// The content of a list of strings.
pub open spec fn vue_textes(v: Seq<String>) -> Seq<Seq<char>> {
    Seq::new(v.len(), |i: int| v[i]@)
}

impl Commande {
    /// The program's name and the content of its arguments.
    pub open spec fn vue(self) -> (Seq<char>, Seq<Seq<char>>) {
        (self.programme@, vue_textes(self.args@))
    }
}

/// The content of a list of commands.
pub open spec fn vue_commandes(v: Seq<Commande>) -> Seq<(Seq<char>, Seq<Seq<char>>)> {
    Seq::new(v.len(), |i: int| v[i].vue())
}

/// The command `programme args...`.
pub fn commande(programme: &str, args: Vec<String>) -> (r: Commande)
    ensures
        r.vue() == (programme@, vue_textes(args@)),
{
    Commande { programme: String::from_str(programme), args }
}

/// A list of one argument.
pub fn args1(a: String) -> (r: Vec<String>)
    ensures
        vue_textes(r@) == seq![a@],
{
    let r = vec![a];
    assert(vue_textes(r@) =~= seq![a@]);
    r
}

/// A list of two arguments.
pub fn args2(a: String, b: String) -> (r: Vec<String>)
    ensures
        vue_textes(r@) == seq![a@, b@],
{
    let r = vec![a, b];
    assert(vue_textes(r@) =~= seq![a@, b@]);
    r
}

/// A list of three arguments.
pub fn args3(a: String, b: String, c: String) -> (r: Vec<String>)
    ensures
        vue_textes(r@) == seq![a@, b@, c@],
{
    let r = vec![a, b, c];
    assert(vue_textes(r@) =~= seq![a@, b@, c@]);
    r
}

/// A list of four arguments.
pub fn args4(a: String, b: String, c: String, d: String) -> (r: Vec<String>)
    ensures
        vue_textes(r@) == seq![a@, b@, c@, d@],
{
    let r = vec![a, b, c, d];
    assert(vue_textes(r@) =~= seq![a@, b@, c@, d@]);
    r
}

/// A list of five arguments.
pub fn args5(a: String, b: String, c: String, d: String, e: String) -> (r: Vec<String>)
    ensures
        vue_textes(r@) == seq![a@, b@, c@, d@, e@],
{
    let r = vec![a, b, c, d, e];
    assert(vue_textes(r@) =~= seq![a@, b@, c@, d@, e@]);
    r
}

/// A list of six arguments.
pub fn args6(a: String, b: String, c: String, d: String, e: String, f: String) -> (r: Vec<
    String,
>)
    ensures
        vue_textes(r@) == seq![a@, b@, c@, d@, e@, f@],
{
    let r = vec![a, b, c, d, e, f];
    assert(vue_textes(r@) =~= seq![a@, b@, c@, d@, e@, f@]);
    r
}

/// A string made of a literal.
pub fn t(s: &str) -> (r: String)
    ensures
        r@ == s@,
{
    String::from_str(s)
}

impl Commande {
    /// A copy of the command.
    pub fn copie(&self) -> (r: Commande)
        ensures
            r.vue() == self.vue(),
    {
        let mut args: Vec<String> = Vec::new();
        let mut i: usize = 0;
        while i < self.args.len()
            invariant
                i <= self.args.len(),
                args@.len() == i,
                forall|k: int| 0 <= k < i ==> (#[trigger] args@[k])@ == self.args@[k]@,
            decreases self.args.len() - i,
        {
            args.push(self.args[i].clone());
            i += 1;
        }
        assert(vue_textes(args@) =~= vue_textes(self.args@));
        Commande { programme: self.programme.clone(), args }
    }
}

/// What came of a step that the node ran.
pub enum Evenement {
    /// It ran and succeeded; what it printed (empty for a step that prints nothing).
    Reussite(String),
    /// It ran and failed; what it printed on its error output, trimmed, or the
    /// system's error for a step on files.
    Echec(String),
    /// It could not be started; the system's error.
    Impossible(String),
}

/// The text that a failure carries (empty for a success).
pub open spec fn detail(ev: Evenement) -> Seq<char> {
    match ev {
        Evenement::Reussite(_) => Seq::empty(),
        Evenement::Echec(s) => s@,
        Evenement::Impossible(s) => s@,
    }
}

/// A step for the node to run, and what it answers.
pub enum Action {
    /// Run the command: `Reussite(output)` when it succeeded, `Echec(error output)`
    /// when it failed, `Impossible(error)` when it could not start.
    Executer(Commande),
    /// Run the command and give what it printed, whether it succeeded or not:
    /// `Reussite(output)`, or `Impossible(error)`.
    Observer(Commande),
    /// Create the directory and its parents: `Reussite` or `Echec(error)`.
    CreerDossier(String),
    /// Write the text (second) to the file (first): `Reussite` or `Echec(error)`.
    EcrireFichier(String, String),
    /// Remove the directory and its content.
    SupprimerDossier(String),
    /// Remove the file.
    SupprimerFichier(String),
    /// Wait so many seconds.
    Attendre(u64),
    /// The work is done.
    Reussir,
    /// The work failed with this error.
    Echouer(String),
}

/// The content of a step.
pub enum ActionVue {
    Executer((Seq<char>, Seq<Seq<char>>)),
    Observer((Seq<char>, Seq<Seq<char>>)),
    CreerDossier(Seq<char>),
    EcrireFichier(Seq<char>, Seq<char>),
    SupprimerDossier(Seq<char>),
    SupprimerFichier(Seq<char>),
    Attendre(u64),
    Reussir,
    Echouer(Seq<char>),
}

impl Action {
    pub open spec fn vue(self) -> ActionVue {
        match self {
            Action::Executer(c) => ActionVue::Executer(c.vue()),
            Action::Observer(c) => ActionVue::Observer(c.vue()),
            Action::CreerDossier(d) => ActionVue::CreerDossier(d@),
            Action::EcrireFichier(f, x) => ActionVue::EcrireFichier(f@, x@),
            Action::SupprimerDossier(d) => ActionVue::SupprimerDossier(d@),
            Action::SupprimerFichier(f) => ActionVue::SupprimerFichier(f@),
            Action::Attendre(s) => ActionVue::Attendre(s),
            Action::Reussir => ActionVue::Reussir,
            Action::Echouer(e) => ActionVue::Echouer(e@),
        }
    }
}

/// The error of a command run on the NBD and NFS side: `<prog> échoué : <detail>`,
/// or `<prog> impossible : <error>` when it could not start.
pub open spec fn erreur_run(programme: Seq<char>, ev: Evenement) -> Seq<char> {
    match ev {
        Evenement::Impossible(e) => programme + " impossible : "@ + e@,
        _ => programme + " échoué : "@ + detail(ev),
    }
}

/// The error of a command run for a local swap space: `<prog> a échoué : <detail>`,
/// or `Impossible de lancer <prog> : <error>` when it could not start.
pub open spec fn erreur_run_cmd(programme: Seq<char>, ev: Evenement) -> Seq<char> {
    match ev {
        Evenement::Impossible(e) => "Impossible de lancer "@ + programme + " : "@ + e@,
        _ => programme + " a échoué : "@ + detail(ev),
    }
}

/// `erreur_run`.
pub fn message_run(programme: &str, ev: &Evenement) -> (r: String)
    ensures
        r@ == erreur_run(programme@, *ev),
{
    match ev {
        Evenement::Impossible(e) => crate::texte::joindre3(programme, " impossible : ", e.as_str()),
        Evenement::Echec(e) => crate::texte::joindre3(programme, " échoué : ", e.as_str()),
        Evenement::Reussite(_) => crate::texte::joindre(programme, " échoué : "),
    }
}

/// `erreur_run_cmd`.
pub fn message_run_cmd(programme: &str, ev: &Evenement) -> (r: String)
    ensures
        r@ == erreur_run_cmd(programme@, *ev),
{
    match ev {
        Evenement::Impossible(e) => {
            let mut r = crate::texte::joindre3("Impossible de lancer ", programme, " : ");
            r.append(e.as_str());
            r
        },
        Evenement::Echec(e) => crate::texte::joindre3(programme, " a échoué : ", e.as_str()),
        Evenement::Reussite(_) => crate::texte::joindre(programme, " a échoué : "),
    }
}

/// `detail`.
pub fn texte_detail(ev: &Evenement) -> (r: String)
    ensures
        r@ == detail(*ev),
{
    match ev {
        Evenement::Reussite(_) => String::new(),
        Evenement::Echec(s) => s.clone(),
        Evenement::Impossible(s) => s.clone(),
    }
}

} // verus!
