//! Laws of the automaton, proved over the spec functions that the contracts
//! of the executable functions use.
use vstd::prelude::*;

use crate::estado::{delta, na_grade, Estado};
use crate::labirinto::{corrida, ultimo, Classificacao, Labirinto};
use crate::simbolo::simbolo_de;

verus! {

/// The state set of the automaton: every state stands for a cell of the grid.
pub open spec fn estados() -> Set<Estado> {
    Set::new(|e: Estado| na_grade(e.celula().linha, e.celula().coluna))
}

/// Every state of the automaton belongs to its state set; in particular the
/// initial state and all the accepting states of any automaton do, and the
/// transition function never leaves the set.
pub proof fn lemma_estados_fechados(l: Labirinto)
    ensures
        estados().contains(l.estado_inicial()),
        l.conjunto_final().subset_of(estados()),
        forall|e: Estado, a| #[trigger] delta(e, a) is Some ==> estados().contains(delta(e, a)->Some_0),
{
    assert forall|e: Estado| estados().contains(e) by {
        lemma_estado_na_grade(e);
    }
}

/// The cell of every state lies on the grid.
pub proof fn lemma_estado_na_grade(e: Estado)
    ensures
        na_grade(e.celula().linha, e.celula().coluna),
{
}

/// The empty word visits no state, is not aborted, and is classified as
/// "nothing done", neither accepted nor rejected.
pub proof fn lemma_palavra_vazia(l: Labirinto)
    ensures
        corrida(l.estado_inicial(), Seq::empty()) == (Seq::<Estado>::empty(), None::<Seq<char>>),
        l.classificacao(Seq::empty()) == Classificacao::NadaFeito,
{
}

/// A non-empty trace whose last state is accepting is accepted, whatever
/// came before it.
pub proof fn lemma_ultimo_final_aceita(l: Labirinto, t: Seq<Estado>)
    requires
        t.len() > 0,
        l.conjunto_final().contains(t.last()),
    ensures
        l.classificacao(t) == Classificacao::Aceita,
{
}

/// When the `k` tokens of `prefixo` each take a defined step and the token
/// `ficha` that follows names a symbol with no transition, the run yields
/// exactly `k` states and stops there: whatever `resto` follows changes
/// nothing.
pub proof fn lemma_parada(e: Estado, prefixo: Seq<Seq<char>>, ficha: Seq<char>, resto: Seq<Seq<char>>)
    requires
        corrida(e, prefixo).1 is None,
        corrida(e, prefixo).0.len() == prefixo.len(),
        simbolo_de(ficha) is Some,
        delta(ultimo(e, corrida(e, prefixo).0), simbolo_de(ficha)->Some_0) is None,
    ensures
        corrida(e, prefixo.push(ficha) + resto) == corrida(e, prefixo),
        corrida(e, prefixo.push(ficha) + resto).0.len() == prefixo.len(),
    decreases prefixo.len(),
{
    let w = prefixo.push(ficha) + resto;
    if prefixo.len() == 0 {
        assert(w[0] == ficha);
    } else {
        assert(w[0] == prefixo[0]);
        let a = simbolo_de(prefixo[0])->Some_0;
        let n = delta(e, a)->Some_0;
        let cauda = prefixo.drop_first();
        assert(w.drop_first() =~= cauda.push(ficha) + resto);
        let t = corrida(e, prefixo).0;
        assert(corrida(n, cauda).0 =~= t.drop_first());
        assert(ultimo(n, corrida(n, cauda).0) == ultimo(e, t));
        lemma_parada(n, cauda, ficha, resto);
    }
}

/// Two automata built alike run every word alike: equal traces, equal
/// aborting tokens, and equal classifications of every trace.
pub proof fn lemma_execucoes_independentes(l1: Labirinto, l2: Labirinto, w: Seq<Seq<char>>)
    requires
        l1.estado_inicial() == l2.estado_inicial(),
        l1.conjunto_final() == l2.conjunto_final(),
    ensures
        corrida(l1.estado_inicial(), w) == corrida(l2.estado_inicial(), w),
        forall|t: Seq<Estado>| #[trigger] l1.classificacao(t) == l2.classificacao(t),
{
}

} // verus!
