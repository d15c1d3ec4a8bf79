//! The automaton: its initial and accepting states, the step-by-step run over
//! a word of tokens, and the classification of a finished run.
use vstd::prelude::*;

use crate::estado::{delta, transicao, Estado};
use crate::simbolo::{simbolo_de, Simbolo};

verus! {

/// Why a run was aborted: a token that names no symbol of the alphabet.
#[derive(Clone, Debug, PartialEq, Eq)]
pub enum Erro {
    SimboloNaoReconhecido(String),
}

/// The token that an error reports.
pub open spec fn ficha_do_erro(e: Erro) -> Seq<char> {
    match e {
        Erro::SimboloNaoReconhecido(s) => s@,
    }
}

/// How a finished run ended.
#[derive(Clone, Copy, Debug, PartialEq, Eq, Structural)]
pub enum Classificacao {
    /// The last state is accepting: treasure taken and cave left.
    Aceita,
    /// The agent came back to the initial state without the treasure.
    SaiuSemTesouro,
    /// The run ended anywhere else, trapped in the cave.
    Preso,
    /// No state was visited at all.
    NadaFeito,
}

/// The tokens of a word, as sequences of characters.
pub open spec fn fichas(palavra: Seq<String>) -> Seq<Seq<char>> {
    palavra.map_values(|s: String| s@)
}

/// The run from `e` over the tokens `w`: the states visited, one for each
/// consumed token, and the token that aborted the run, if one did. The run
/// stops at the first transition that is not defined, and an unknown token
/// is only seen when the run reaches it.
pub open spec fn corrida(e: Estado, w: Seq<Seq<char>>) -> (Seq<Estado>, Option<Seq<char>>)
    decreases w.len(),
{
    if w.len() == 0 {
        (Seq::empty(), None)
    } else {
        match simbolo_de(w[0]) {
            None => (Seq::empty(), Some(w[0])),
            Some(a) => match delta(e, a) {
                None => (Seq::empty(), None),
                Some(n) => {
                    let resto = corrida(n, w.drop_first());
                    (seq![n] + resto.0, resto.1)
                },
            },
        }
    }
}

/// The state a trace ends in, `e` for an empty trace.
pub open spec fn ultimo(e: Estado, t: Seq<Estado>) -> Estado {
    if t.len() == 0 {
        e
    } else {
        t.last()
    }
}

/// The automaton over the cave: the initial state and the accepting states,
/// kept without repetition.
pub struct Labirinto {
    inicial: Estado,
    finais: Vec<Estado>,
}

/// Whether `e` occurs in `v`.
fn contem(v: &Vec<Estado>, e: Estado) -> (r: bool)
    ensures
        r == v@.contains(e),
{
    let mut i: usize = 0;
    while i < v.len()
        invariant
            0 <= i <= v@.len(),
            forall|j: int| 0 <= j < i ==> v@[j] != e,
        decreases v@.len() - i,
    {
        if v[i] == e {
            return true;
        }
        i = i + 1;
    }
    false
}

impl Labirinto {
    /// The accepting states hold no repetition.
    pub closed spec fn wf(&self) -> bool {
        self.finais@.no_duplicates()
    }

    pub closed spec fn estado_inicial(&self) -> Estado {
        self.inicial
    }

    /// The set of accepting states.
    pub closed spec fn conjunto_final(&self) -> Set<Estado> {
        self.finais@.to_set()
    }

    /// How a run whose trace is `t` is classified: only the last state counts.
    pub open spec fn classificacao(&self, t: Seq<Estado>) -> Classificacao {
        if t.len() == 0 {
            Classificacao::NadaFeito
        } else if self.conjunto_final().contains(t.last()) {
            Classificacao::Aceita
        } else if t.last() == self.estado_inicial() {
            Classificacao::SaiuSemTesouro
        } else {
            Classificacao::Preso
        }
    }

    /// An automaton that starts in `inicial` and accepts in the states of
    /// `finais`.
    pub fn new(inicial: Estado, finais: &[Estado]) -> (r: Labirinto)
        ensures
            r.wf(),
            r.estado_inicial() == inicial,
            r.conjunto_final() == finais@.to_set(),
    {
        let mut conjunto: Vec<Estado> = Vec::new();
        let mut i: usize = 0;
        while i < finais.len()
            invariant
                0 <= i <= finais@.len(),
                conjunto@.no_duplicates(),
                conjunto@.to_set() == finais@.subrange(0, i as int).to_set(),
            decreases finais@.len() - i,
        {
            let e = finais[i];
            let ghost antes = conjunto@;
            if !contem(&conjunto, e) {
                conjunto.push(e);
            }
            proof {
                let feito = finais@.subrange(0, i + 1);
                assert(feito =~= finais@.subrange(0, i as int).push(e));
                finais@.subrange(0, i as int).lemma_push_to_set_commute(e);
                antes.lemma_push_to_set_commute(e);
                assert(conjunto@.to_set() =~= antes.to_set().insert(e));
            }
            i = i + 1;
        }
        assert(finais@.subrange(0, finais@.len() as int) =~= finais@);
        Labirinto { inicial, finais: conjunto }
    }

    pub fn inicial(&self) -> (r: Estado)
        ensures
            r == self.estado_inicial(),
    {
        self.inicial
    }

    /// Whether `e` is an accepting state.
    pub fn eh_final(&self, e: Estado) -> (r: bool)
        ensures
            r == self.conjunto_final().contains(e),
    {
        contem(&self.finais, e)
    }

    /// Starts a run over `palavra` from the initial state.
    pub fn read<'a>(&'a self, palavra: &'a [String]) -> (r: LabirintoIter<'a>)
        ensures
            r.wf(),
            r.pendente() == corrida(self.estado_inicial(), fichas(palavra@)),
    {
        let r = LabirintoIter { palavra, pos: 0, estado_atual: self.inicial, parado: false };
        assert(fichas(palavra@).subrange(0, palavra@.len() as int) =~= fichas(palavra@));
        r
    }

    /// Runs the whole word: the trace of visited states, or the error of the
    /// first unknown token that the run reaches, in which case no trace is
    /// given at all.
    pub fn executar(&self, palavra: &[String]) -> (r: Result<Vec<Estado>, Erro>)
        ensures
            match corrida(self.estado_inicial(), fichas(palavra@)) {
                (t, None) => r is Ok && r->Ok_0@ == t,
                (_, Some(x)) => r is Err && ficha_do_erro(r->Err_0) == x,
            },
    {
        let mut it = self.read(palavra);
        let mut traco: Vec<Estado> = Vec::new();
        loop
            invariant
                it.wf(),
                corrida(self.estado_inicial(), fichas(palavra@)) == (
                    traco@ + it.pendente().0,
                    it.pendente().1,
                ),
            decreases it.pendente().0.len(),
        {
            let ghost antes = it.pendente();
            match it.next() {
                Err(e) => {
                    return Err(e);
                },
                Ok(None) => {
                    assert(traco@ + antes.0 =~= traco@);
                    return Ok(traco);
                },
                Ok(Some(n)) => {
                    traco.push(n);
                    assert(traco@ + it.pendente().0 =~= traco@.drop_last() + antes.0);
                },
            }
        }
    }

    /// Classifies a finished run by the last state of its trace.
    pub fn classificar(&self, traco: &[Estado]) -> (r: Classificacao)
        ensures
            r == self.classificacao(traco@),
    {
        if traco.len() == 0 {
            Classificacao::NadaFeito
        } else {
            let ultimo = traco[traco.len() - 1];
            if self.eh_final(ultimo) {
                Classificacao::Aceita
            } else if ultimo == self.inicial {
                Classificacao::SaiuSemTesouro
            } else {
                Classificacao::Preso
            }
        }
    }

    /// Runs the whole word and classifies the run, or gives the error of the
    /// first unknown token that the run reaches.
    pub fn avaliar(&self, palavra: &[String]) -> (r: Result<Classificacao, Erro>)
        ensures
            match corrida(self.estado_inicial(), fichas(palavra@)) {
                (t, None) => r == Ok::<Classificacao, Erro>(self.classificacao(t)),
                (_, Some(x)) => r is Err && ficha_do_erro(r->Err_0) == x,
            },
    {
        match self.executar(palavra) {
            Ok(traco) => Ok(self.classificar(traco.as_slice())),
            Err(e) => Err(e),
        }
    }
}

/// A run in progress: the tokens still to read and the current state.
pub struct LabirintoIter<'a> {
    palavra: &'a [String],
    pos: usize,
    estado_atual: Estado,
    parado: bool,
}

impl<'a> LabirintoIter<'a> {
    pub closed spec fn wf(&self) -> bool {
        self.pos <= self.palavra@.len()
    }

    /// What the rest of the run will give: the states still to be visited,
    /// and the token that will abort it, if any.
    pub closed spec fn pendente(&self) -> (Seq<Estado>, Option<Seq<char>>) {
        if self.parado {
            (Seq::empty(), None)
        } else {
            corrida(
                self.estado_atual,
                fichas(self.palavra@).subrange(self.pos as int, self.palavra@.len() as int),
            )
        }
    }

    /// Consumes one token: the next state of the run, `None` once the word
    /// is exhausted or a transition is undefined, or the error of an unknown
    /// token. After `None` or an error the run stays finished.
    pub fn next(&mut self) -> (r: Result<Option<Estado>, Erro>)
        requires
            old(self).wf(),
        ensures
            final(self).wf(),
            ({
                let (t, x) = old(self).pendente();
                if t.len() > 0 {
                    &&& r == Ok::<Option<Estado>, Erro>(Some(t[0]))
                    &&& final(self).pendente() == (t.drop_first(), x)
                } else {
                    &&& final(self).pendente() == (Seq::<Estado>::empty(), None::<Seq<char>>)
                    &&& match x {
                        None => r == Ok::<Option<Estado>, Erro>(None),
                        Some(ficha) => r is Err && ficha_do_erro(r->Err_0) == ficha,
                    }
                }
            }),
    {
        if self.parado || self.pos >= self.palavra.len() {
            self.parado = true;
            return Ok(None);
        }
        let ghost w = fichas(self.palavra@).subrange(self.pos as int, self.palavra@.len() as int);
        let ficha: &String = &self.palavra[self.pos];
        assert(w[0] == ficha@);
        match Simbolo::try_from(ficha.as_str()) {
            Err(_) => {
                self.parado = true;
                Err(Erro::SimboloNaoReconhecido(ficha.clone()))
            },
            Ok(a) => {
                self.pos = self.pos + 1;
                assert(w.drop_first() =~= fichas(self.palavra@).subrange(
                    self.pos as int,
                    self.palavra@.len() as int,
                ));
                match transicao(self.estado_atual, a) {
                    None => {
                        self.parado = true;
                        Ok(None)
                    },
                    Some(n) => {
                        self.estado_atual = n;
                        Ok(Some(n))
                    },
                }
            },
        }
    }
}

} // verus!
