//! The input alphabet and the resolution of a token into a symbol.
use vstd::prelude::*;

verus! {

/// One symbol of the alphabet: a move on the grid, grabbing or shooting.
#[derive(Clone, Copy, Debug, PartialEq, Eq, Structural, Hash)]
pub enum Simbolo {
    Cima,
    Baixo,
    Esquerda,
    Direita,
    Pegar,
    Atirar,
}

/// The code point of `c` after ASCII lowercasing: only `'A'..='Z'` change.
pub open spec fn minuscula_ascii(c: char) -> u32 {
    if 'A' <= c && c <= 'Z' {
        (c as u32 + 32) as u32
    } else {
        c as u32
    }
}

/// `t`, lowercased in the ASCII range, is exactly `p`.
pub open spec fn igual_sem_caixa(t: Seq<char>, p: Seq<char>) -> bool {
    &&& t.len() == p.len()
    &&& forall|i: int| 0 <= i < t.len() ==> minuscula_ascii(#[trigger] t[i]) == p[i] as u32
}

/// A token names a symbol by its full word or by its first letter, in any
/// ASCII case.
pub open spec fn nomeia(t: Seq<char>, palavra: Seq<char>, letra: char) -> bool {
    igual_sem_caixa(t, palavra) || igual_sem_caixa(t, seq![letra])
}

/// The symbol that a token denotes, if any.
pub open spec fn simbolo_de(t: Seq<char>) -> Option<Simbolo> {
    if nomeia(t, seq!['c', 'i', 'm', 'a'], 'c') {
        Some(Simbolo::Cima)
    } else if nomeia(t, seq!['b', 'a', 'i', 'x', 'o'], 'b') {
        Some(Simbolo::Baixo)
    } else if nomeia(t, seq!['e', 's', 'q', 'u', 'e', 'r', 'd', 'a'], 'e') {
        Some(Simbolo::Esquerda)
    } else if nomeia(t, seq!['d', 'i', 'r', 'e', 'i', 't', 'a'], 'd') {
        Some(Simbolo::Direita)
    } else if nomeia(t, seq!['p', 'e', 'g', 'a', 'r'], 'p') {
        Some(Simbolo::Pegar)
    } else if nomeia(t, seq!['a', 't', 'i', 'r', 'a', 'r'], 'a') {
        Some(Simbolo::Atirar)
    } else {
        None
    }
}

/// Compares `t` with `p` after lowercasing `t` in the ASCII range.
fn compara_sem_caixa(t: &str, p: &str) -> (r: bool)
    ensures
        r == igual_sem_caixa(t@, p@),
{
    let n = t.unicode_len();
    if n != p.unicode_len() {
        return false;
    }
    let mut i: usize = 0;
    while i < n
        invariant
            n == t@.len(),
            n == p@.len(),
            0 <= i <= n,
            forall|j: int| 0 <= j < i ==> minuscula_ascii(#[trigger] t@[j]) == p@[j] as u32,
        decreases n - i,
    {
        let c = t.get_char(i);
        let baixa: u32 = if 'A' <= c && c <= 'Z' {
            c as u32 + 32
        } else {
            c as u32
        };
        if baixa != p.get_char(i) as u32 {
            return false;
        }
        i = i + 1;
    }
    true
}

/// Whether `t` names a symbol by the word `palavra` or by the letter `letra`.
fn compara_nome(t: &str, palavra: &str, letra: &str) -> (r: bool)
    ensures
        r == (igual_sem_caixa(t@, palavra@) || igual_sem_caixa(t@, letra@)),
{
    compara_sem_caixa(t, palavra) || compara_sem_caixa(t, letra)
}

impl Simbolo {
    /// Resolves a token into the symbol it names: the full word or its first
    /// letter, in any ASCII case. Any other token is refused.
    pub fn try_from(s: &str) -> (r: Result<Simbolo, ()>)
        ensures
            match simbolo_de(s@) {
                Some(a) => r == Ok::<Simbolo, ()>(a),
                None => r is Err,
            },
    {
        proof {
            reveal_strlit("cima");
            reveal_strlit("c");
            reveal_strlit("baixo");
            reveal_strlit("b");
            reveal_strlit("esquerda");
            reveal_strlit("e");
            reveal_strlit("direita");
            reveal_strlit("d");
            reveal_strlit("pegar");
            reveal_strlit("p");
            reveal_strlit("atirar");
            reveal_strlit("a");
            assert("cima"@ =~= seq!['c', 'i', 'm', 'a']);
            assert("c"@ =~= seq!['c']);
            assert("baixo"@ =~= seq!['b', 'a', 'i', 'x', 'o']);
            assert("b"@ =~= seq!['b']);
            assert("esquerda"@ =~= seq!['e', 's', 'q', 'u', 'e', 'r', 'd', 'a']);
            assert("e"@ =~= seq!['e']);
            assert("direita"@ =~= seq!['d', 'i', 'r', 'e', 'i', 't', 'a']);
            assert("d"@ =~= seq!['d']);
            assert("pegar"@ =~= seq!['p', 'e', 'g', 'a', 'r']);
            assert("p"@ =~= seq!['p']);
            assert("atirar"@ =~= seq!['a', 't', 'i', 'r', 'a', 'r']);
            assert("a"@ =~= seq!['a']);
        }
        if compara_nome(s, "cima", "c") {
            Ok(Simbolo::Cima)
        } else if compara_nome(s, "baixo", "b") {
            Ok(Simbolo::Baixo)
        } else if compara_nome(s, "esquerda", "e") {
            Ok(Simbolo::Esquerda)
        } else if compara_nome(s, "direita", "d") {
            Ok(Simbolo::Direita)
        } else if compara_nome(s, "pegar", "p") {
            Ok(Simbolo::Pegar)
        } else if compara_nome(s, "atirar", "a") {
            Ok(Simbolo::Atirar)
        } else {
            Err(())
        }
    }
}

} // verus!
