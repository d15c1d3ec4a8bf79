//! Splitting a text into the tokens of a word.
use vstd::prelude::*;

use crate::labirinto::fichas;

verus! {

/// What `char::is_whitespace` says of `c`.
pub uninterp spec fn espaco_branco(c: char) -> bool;

/// Relies on `char::is_whitespace`: whether `c` has Unicode's `White_Space`
/// property, a fact of the character alone.
#[verifier::external_body]
fn eh_espaco(c: char) -> (r: bool)
    ensures
        r == espaco_branco(c),
{
    c.is_whitespace()
}

/// Tokens are separated by white space and by commas.
pub open spec fn separador(c: char) -> bool {
    espaco_branco(c) || c == ','
}

/// The tokens of `s` when the characters `atual` have already been read into
/// the current token: the maximal runs of characters that are not separators,
/// in order, without empty ones.
pub open spec fn dividir(s: Seq<char>, atual: Seq<char>) -> Seq<Seq<char>>
    decreases s.len(),
{
    let fechado = if atual.len() > 0 {
        seq![atual]
    } else {
        Seq::empty()
    };
    if s.len() == 0 {
        fechado
    } else if separador(s[0]) {
        fechado + dividir(s.drop_first(), Seq::empty())
    } else {
        dividir(s.drop_first(), atual.push(s[0]))
    }
}

/// The tokens of a text.
pub open spec fn fichas_do_texto(s: Seq<char>) -> Seq<Seq<char>> {
    dividir(s, Seq::empty())
}

/// Splits a text into its tokens: white space and commas separate them, and
/// no token is empty.
pub fn separar_palavra(texto: &str) -> (r: Vec<String>)
    ensures
        fichas(r@) == fichas_do_texto(texto@),
{
    let ghost s = texto@;
    let n = texto.unicode_len();
    let mut r: Vec<String> = Vec::new();
    let mut inicio: usize = 0;
    let mut i: usize = 0;
    assert(s.subrange(0, 0) =~= Seq::<char>::empty());
    assert(s.subrange(0, n as int) =~= s);
    while i < n
        invariant
            n == s.len(),
            s == texto@,
            inicio <= i <= n,
            fichas(r@) + dividir(s.subrange(i as int, n as int), s.subrange(inicio as int, i as int))
                == fichas_do_texto(s),
        decreases n - i,
    {
        let ghost antes = fichas(r@);
        let ghost atual = s.subrange(inicio as int, i as int);
        let ghost resto = s.subrange(i as int, n as int);
        let c = texto.get_char(i);
        assert(resto[0] == c);
        assert(resto.drop_first() =~= s.subrange(i + 1, n as int));
        if eh_espaco(c) || c == ',' {
            if inicio < i {
                let ficha = texto.substring_char(inicio, i).to_owned();
                r.push(ficha);
                assert(fichas(r@) =~= antes + seq![atual]);
            } else {
                assert(fichas(r@) =~= antes + Seq::empty());
            }
            inicio = i + 1;
            assert(s.subrange(inicio as int, i + 1) =~= Seq::<char>::empty());
        } else {
            assert(s.subrange(inicio as int, i + 1) =~= atual.push(c));
        }
        i = i + 1;
        assert(fichas(r@) + dividir(s.subrange(i as int, n as int), s.subrange(inicio as int, i as int))
            =~= fichas_do_texto(s));
    }
    if inicio < n {
        let ghost antes = fichas(r@);
        let ficha = texto.substring_char(inicio, n).to_owned();
        r.push(ficha);
        assert(fichas(r@) =~= antes + seq![s.subrange(inicio as int, n as int)]);
    }
    assert(fichas(r@) =~= fichas_do_texto(s));
    r
}

} // verus!
