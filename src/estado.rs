//! The states of the cave and its transition function.
use vstd::prelude::*;

use crate::simbolo::Simbolo;

verus! {

/// A state of the cave. The letter says what has happened so far
/// (`A`: wumpus alive, treasure not taken; `B`: wumpus alive, treasure taken;
/// `C`: wumpus dead, treasure not taken; `D`: wumpus dead, treasure taken);
/// the two digits are the row and the column of the agent, from the bottom
/// left corner.
///
/// ```text
/// row 3:  pit       .         wumpus
/// row 2:  .         treasure  .
/// row 1:  entrance  .         pit
/// ```
#[derive(Clone, Copy, Debug, PartialEq, Eq, Structural, Hash)]
pub enum Estado {
    A11,
    A12,
    A13,
    A21,
    A22,
    A23,
    A31,
    A32,
    A33,
    B11,
    B12,
    B13,
    B21,
    B22,
    B23,
    B31,
    B32,
    B33,
    C11,
    C12,
    C13,
    C21,
    C22,
    C23,
    C31,
    C32,
    C33,
    D11,
    D12,
    D13,
    D21,
    D22,
    D23,
    D31,
    D32,
    D33,
}

/// What a state stands for: whether the treasure is held, whether the wumpus
/// lives, and the agent's cell (row and column, each from 1 to 3).
pub struct Celula {
    pub tesouro: bool,
    pub wumpus_vivo: bool,
    pub linha: int,
    pub coluna: int,
}

impl Estado {
    /// The meaning of each state.
    pub open spec fn celula(self) -> Celula {
        match self {
            Estado::A11 => Celula { tesouro: false, wumpus_vivo: true, linha: 1, coluna: 1 },
            Estado::A12 => Celula { tesouro: false, wumpus_vivo: true, linha: 1, coluna: 2 },
            Estado::A13 => Celula { tesouro: false, wumpus_vivo: true, linha: 1, coluna: 3 },
            Estado::A21 => Celula { tesouro: false, wumpus_vivo: true, linha: 2, coluna: 1 },
            Estado::A22 => Celula { tesouro: false, wumpus_vivo: true, linha: 2, coluna: 2 },
            Estado::A23 => Celula { tesouro: false, wumpus_vivo: true, linha: 2, coluna: 3 },
            Estado::A31 => Celula { tesouro: false, wumpus_vivo: true, linha: 3, coluna: 1 },
            Estado::A32 => Celula { tesouro: false, wumpus_vivo: true, linha: 3, coluna: 2 },
            Estado::A33 => Celula { tesouro: false, wumpus_vivo: true, linha: 3, coluna: 3 },
            Estado::B11 => Celula { tesouro: true, wumpus_vivo: true, linha: 1, coluna: 1 },
            Estado::B12 => Celula { tesouro: true, wumpus_vivo: true, linha: 1, coluna: 2 },
            Estado::B13 => Celula { tesouro: true, wumpus_vivo: true, linha: 1, coluna: 3 },
            Estado::B21 => Celula { tesouro: true, wumpus_vivo: true, linha: 2, coluna: 1 },
            Estado::B22 => Celula { tesouro: true, wumpus_vivo: true, linha: 2, coluna: 2 },
            Estado::B23 => Celula { tesouro: true, wumpus_vivo: true, linha: 2, coluna: 3 },
            Estado::B31 => Celula { tesouro: true, wumpus_vivo: true, linha: 3, coluna: 1 },
            Estado::B32 => Celula { tesouro: true, wumpus_vivo: true, linha: 3, coluna: 2 },
            Estado::B33 => Celula { tesouro: true, wumpus_vivo: true, linha: 3, coluna: 3 },
            Estado::C11 => Celula { tesouro: false, wumpus_vivo: false, linha: 1, coluna: 1 },
            Estado::C12 => Celula { tesouro: false, wumpus_vivo: false, linha: 1, coluna: 2 },
            Estado::C13 => Celula { tesouro: false, wumpus_vivo: false, linha: 1, coluna: 3 },
            Estado::C21 => Celula { tesouro: false, wumpus_vivo: false, linha: 2, coluna: 1 },
            Estado::C22 => Celula { tesouro: false, wumpus_vivo: false, linha: 2, coluna: 2 },
            Estado::C23 => Celula { tesouro: false, wumpus_vivo: false, linha: 2, coluna: 3 },
            Estado::C31 => Celula { tesouro: false, wumpus_vivo: false, linha: 3, coluna: 1 },
            Estado::C32 => Celula { tesouro: false, wumpus_vivo: false, linha: 3, coluna: 2 },
            Estado::C33 => Celula { tesouro: false, wumpus_vivo: false, linha: 3, coluna: 3 },
            Estado::D11 => Celula { tesouro: true, wumpus_vivo: false, linha: 1, coluna: 1 },
            Estado::D12 => Celula { tesouro: true, wumpus_vivo: false, linha: 1, coluna: 2 },
            Estado::D13 => Celula { tesouro: true, wumpus_vivo: false, linha: 1, coluna: 3 },
            Estado::D21 => Celula { tesouro: true, wumpus_vivo: false, linha: 2, coluna: 1 },
            Estado::D22 => Celula { tesouro: true, wumpus_vivo: false, linha: 2, coluna: 2 },
            Estado::D23 => Celula { tesouro: true, wumpus_vivo: false, linha: 2, coluna: 3 },
            Estado::D31 => Celula { tesouro: true, wumpus_vivo: false, linha: 3, coluna: 1 },
            Estado::D32 => Celula { tesouro: true, wumpus_vivo: false, linha: 3, coluna: 2 },
            Estado::D33 => Celula { tesouro: true, wumpus_vivo: false, linha: 3, coluna: 3 },
        }
    }
}

/// The cell lies on the grid.
pub open spec fn na_grade(linha: int, coluna: int) -> bool {
    1 <= linha <= 3 && 1 <= coluna <= 3
}

/// The two pits, from which the agent never moves again.
pub open spec fn buraco(linha: int, coluna: int) -> bool {
    (linha == 1 && coluna == 3) || (linha == 3 && coluna == 1)
}

pub open spec fn tesouro_em(linha: int, coluna: int) -> bool {
    linha == 2 && coluna == 2
}

pub open spec fn wumpus_em(linha: int, coluna: int) -> bool {
    linha == 3 && coluna == 3
}

/// Where one symbol takes the agent: `None` in a pit. Standing on a live
/// wumpus, only shooting has an effect. A move against the cave's wall, a
/// grab away from the treasure and a shot away from the wumpus leave the
/// state as it is.
pub open spec fn passo(c: Celula, a: Simbolo) -> Option<Celula> {
    if buraco(c.linha, c.coluna) {
        None
    } else if c.wumpus_vivo && wumpus_em(c.linha, c.coluna) && a != Simbolo::Atirar {
        Some(c)
    } else {
        Some(
            match a {
                Simbolo::Cima => Celula { linha: if c.linha < 3 { c.linha + 1 } else { c.linha }, ..c },
                Simbolo::Baixo => Celula { linha: if c.linha > 1 { c.linha - 1 } else { c.linha }, ..c },
                Simbolo::Direita => Celula { coluna: if c.coluna < 3 { c.coluna + 1 } else { c.coluna }, ..c },
                Simbolo::Esquerda => Celula { coluna: if c.coluna > 1 { c.coluna - 1 } else { c.coluna }, ..c },
                Simbolo::Pegar => Celula { tesouro: c.tesouro || tesouro_em(c.linha, c.coluna), ..c },
                Simbolo::Atirar => Celula { wumpus_vivo: c.wumpus_vivo && !wumpus_em(c.linha, c.coluna), ..c },
            },
        )
    }
}

/// The transition function of the automaton, as a function on states.
pub open spec fn delta(e: Estado, a: Simbolo) -> Option<Estado> {
    match passo(e.celula(), a) {
        None => None,
        Some(c) => Some(choose|n: Estado| n.celula() == c),
    }
}

/// Distinct states stand for distinct situations.
pub proof fn lemma_celula_injetiva(e1: Estado, e2: Estado)
    requires
        e1.celula() == e2.celula(),
    ensures
        e1 == e2,
{
}

/// The transition function: `None` where the agent falls into a pit, which
/// ends the run.
pub fn transicao(estado_atual: Estado, simbolo: Simbolo) -> (r: Option<Estado>)
    ensures
        r == delta(estado_atual, simbolo),
        match r {
            Some(n) => Some(n.celula()) == passo(estado_atual.celula(), simbolo),
            None => passo(estado_atual.celula(), simbolo) is None,
        },
{
    let r = match (estado_atual, simbolo) {
        (Estado::A11, Simbolo::Cima) => Some(Estado::A21),
        (Estado::A11, Simbolo::Direita) => Some(Estado::A12),
        (Estado::A11, _) => Some(Estado::A11),

        (Estado::A12, Simbolo::Cima) => Some(Estado::A22),
        (Estado::A12, Simbolo::Direita) => Some(Estado::A13),
        (Estado::A12, Simbolo::Esquerda) => Some(Estado::A11),
        (Estado::A12, _) => Some(Estado::A12),

        (Estado::A13, _) => None,

        (Estado::A21, Simbolo::Cima) => Some(Estado::A31),
        (Estado::A21, Simbolo::Direita) => Some(Estado::A22),
        (Estado::A21, Simbolo::Baixo) => Some(Estado::A11),
        (Estado::A21, _) => Some(Estado::A21),

        (Estado::A22, Simbolo::Cima) => Some(Estado::A32),
        (Estado::A22, Simbolo::Direita) => Some(Estado::A23),
        (Estado::A22, Simbolo::Esquerda) => Some(Estado::A21),
        (Estado::A22, Simbolo::Baixo) => Some(Estado::A12),
        (Estado::A22, Simbolo::Pegar) => Some(Estado::B22),
        (Estado::A22, _) => Some(Estado::A22),

        (Estado::A23, Simbolo::Cima) => Some(Estado::A33),
        (Estado::A23, Simbolo::Esquerda) => Some(Estado::A22),
        (Estado::A23, Simbolo::Baixo) => Some(Estado::A13),
        (Estado::A23, _) => Some(Estado::A23),

        (Estado::A31, _) => None,

        (Estado::A32, Simbolo::Direita) => Some(Estado::A33),
        (Estado::A32, Simbolo::Esquerda) => Some(Estado::A31),
        (Estado::A32, Simbolo::Baixo) => Some(Estado::A22),
        (Estado::A32, _) => Some(Estado::A32),

        (Estado::A33, Simbolo::Atirar) => Some(Estado::C33),
        (Estado::A33, _) => Some(Estado::A33),

        (Estado::B11, Simbolo::Cima) => Some(Estado::B21),
        (Estado::B11, Simbolo::Direita) => Some(Estado::B12),
        (Estado::B11, _) => Some(Estado::B11),

        (Estado::B12, Simbolo::Cima) => Some(Estado::B22),
        (Estado::B12, Simbolo::Direita) => Some(Estado::B13),
        (Estado::B12, Simbolo::Esquerda) => Some(Estado::B11),
        (Estado::B12, _) => Some(Estado::B12),

        (Estado::B13, _) => None,

        (Estado::B21, Simbolo::Cima) => Some(Estado::B31),
        (Estado::B21, Simbolo::Direita) => Some(Estado::B22),
        (Estado::B21, Simbolo::Baixo) => Some(Estado::B11),
        (Estado::B21, _) => Some(Estado::B21),

        (Estado::B22, Simbolo::Cima) => Some(Estado::B32),
        (Estado::B22, Simbolo::Direita) => Some(Estado::B23),
        (Estado::B22, Simbolo::Esquerda) => Some(Estado::B21),
        (Estado::B22, Simbolo::Baixo) => Some(Estado::B12),
        (Estado::B22, _) => Some(Estado::B22),

        (Estado::B23, Simbolo::Cima) => Some(Estado::B33),
        (Estado::B23, Simbolo::Esquerda) => Some(Estado::B22),
        (Estado::B23, Simbolo::Baixo) => Some(Estado::B13),
        (Estado::B23, _) => Some(Estado::B23),

        (Estado::B31, _) => None,

        (Estado::B32, Simbolo::Direita) => Some(Estado::B33),
        (Estado::B32, Simbolo::Esquerda) => Some(Estado::B31),
        (Estado::B32, Simbolo::Baixo) => Some(Estado::B22),
        (Estado::B32, _) => Some(Estado::B32),

        (Estado::B33, Simbolo::Atirar) => Some(Estado::D33),
        (Estado::B33, _) => Some(Estado::B33),

        (Estado::C11, Simbolo::Cima) => Some(Estado::C21),
        (Estado::C11, Simbolo::Direita) => Some(Estado::C12),
        (Estado::C11, _) => Some(Estado::C11),

        (Estado::C12, Simbolo::Cima) => Some(Estado::C22),
        (Estado::C12, Simbolo::Direita) => Some(Estado::C13),
        (Estado::C12, Simbolo::Esquerda) => Some(Estado::C11),
        (Estado::C12, _) => Some(Estado::C12),

        (Estado::C13, _) => None,

        (Estado::C21, Simbolo::Cima) => Some(Estado::C31),
        (Estado::C21, Simbolo::Direita) => Some(Estado::C22),
        (Estado::C21, Simbolo::Baixo) => Some(Estado::C11),
        (Estado::C21, _) => Some(Estado::C21),

        (Estado::C22, Simbolo::Cima) => Some(Estado::C32),
        (Estado::C22, Simbolo::Direita) => Some(Estado::C23),
        (Estado::C22, Simbolo::Esquerda) => Some(Estado::C21),
        (Estado::C22, Simbolo::Baixo) => Some(Estado::C12),
        (Estado::C22, Simbolo::Pegar) => Some(Estado::D22),
        (Estado::C22, _) => Some(Estado::C22),

        (Estado::C23, Simbolo::Cima) => Some(Estado::C33),
        (Estado::C23, Simbolo::Esquerda) => Some(Estado::C22),
        (Estado::C23, Simbolo::Baixo) => Some(Estado::C13),
        (Estado::C23, _) => Some(Estado::C23),

        (Estado::C31, _) => None,

        (Estado::C32, Simbolo::Direita) => Some(Estado::C33),
        (Estado::C32, Simbolo::Esquerda) => Some(Estado::C31),
        (Estado::C32, Simbolo::Baixo) => Some(Estado::C22),
        (Estado::C32, _) => Some(Estado::C32),

        (Estado::C33, Simbolo::Esquerda) => Some(Estado::C32),
        (Estado::C33, Simbolo::Baixo) => Some(Estado::C23),
        (Estado::C33, _) => Some(Estado::C33),

        (Estado::D11, Simbolo::Cima) => Some(Estado::D21),
        (Estado::D11, Simbolo::Direita) => Some(Estado::D12),
        (Estado::D11, _) => Some(Estado::D11),

        (Estado::D12, Simbolo::Cima) => Some(Estado::D22),
        (Estado::D12, Simbolo::Direita) => Some(Estado::D13),
        (Estado::D12, Simbolo::Esquerda) => Some(Estado::D11),
        (Estado::D12, _) => Some(Estado::D12),

        (Estado::D13, _) => None,

        (Estado::D21, Simbolo::Cima) => Some(Estado::D31),
        (Estado::D21, Simbolo::Direita) => Some(Estado::D22),
        (Estado::D21, Simbolo::Baixo) => Some(Estado::D11),
        (Estado::D21, _) => Some(Estado::D21),

        (Estado::D22, Simbolo::Cima) => Some(Estado::D32),
        (Estado::D22, Simbolo::Direita) => Some(Estado::D23),
        (Estado::D22, Simbolo::Esquerda) => Some(Estado::D21),
        (Estado::D22, Simbolo::Baixo) => Some(Estado::D12),
        (Estado::D22, _) => Some(Estado::D22),

        (Estado::D23, Simbolo::Cima) => Some(Estado::D33),
        (Estado::D23, Simbolo::Esquerda) => Some(Estado::D22),
        (Estado::D23, Simbolo::Baixo) => Some(Estado::D13),
        (Estado::D23, _) => Some(Estado::D23),

        (Estado::D31, _) => None,

        (Estado::D32, Simbolo::Direita) => Some(Estado::D33),
        (Estado::D32, Simbolo::Esquerda) => Some(Estado::D31),
        (Estado::D32, Simbolo::Baixo) => Some(Estado::D22),
        (Estado::D32, _) => Some(Estado::D32),

        (Estado::D33, Simbolo::Esquerda) => Some(Estado::D32),
        (Estado::D33, Simbolo::Baixo) => Some(Estado::D23),
        (Estado::D33, _) => Some(Estado::D33),
    };
    proof {
        if let Some(n) = r {
            let c = passo(estado_atual.celula(), simbolo)->Some_0;
            assert(n.celula() == c);
            let m = choose|m: Estado| m.celula() == c;
            lemma_celula_injetiva(n, m);
        }
    }
    r
}

} // verus!
