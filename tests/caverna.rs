use labirinto::estado::{transicao, Estado};
use labirinto::labirinto::{Classificacao, Erro, Labirinto};
use labirinto::palavra::separar_palavra;
use labirinto::simbolo::Simbolo;

fn split_input(s: &str) -> Vec<String> {
    s.chars().map(|c| c.to_string()).collect()
}

fn fichas(v: &[&str]) -> Vec<String> {
    v.iter().map(|s| s.to_string()).collect()
}

fn should_accept(palavra: &str, inicial: Estado) {
    let palavra = split_input(palavra);

    let maquina = Labirinto::new(inicial, &[Estado::B11, Estado::D11]);

    let traco = maquina.executar(&palavra).unwrap();
    let estado_final = *traco.last().unwrap();
    assert!(maquina.eh_final(estado_final));
}

#[test]
fn test_aceita2_mapa_acd() {
    let inicial = Estado::A11;
    let palavra = "dccdpebcadpacbdpacecpabcbddpaeeepadebcbdedcbcdedcbepcbdecdedbcbebcedbedecb";
    should_accept(palavra, inicial);
}

#[test]
fn test_todas_menos_buracos_ab() {
    let inicial = Estado::A11;
    let palavra = "pabedbpacepabcdedbcddpaeccbpccpabddpaeepaedbbpacbepabecb";
    should_accept(palavra, inicial);
}

#[test]
fn test_todas_menos_buracos_abd() {
    let inicial = Estado::A11;
    let palavra = "cdpcdpebcaecpadbdpacebpacbdebbpaceepadebpabecbde";
    should_accept(palavra, inicial);
}

fn caverna() -> Labirinto {
    Labirinto::new(Estado::A11, &[Estado::B11, Estado::D11])
}

#[test]
fn transicao_repetida_da_o_mesmo() {
    for a in [Simbolo::Cima, Simbolo::Baixo, Simbolo::Esquerda, Simbolo::Direita, Simbolo::Pegar, Simbolo::Atirar] {
        for e in [Estado::A11, Estado::A22, Estado::B33, Estado::C13, Estado::D33] {
            assert_eq!(transicao(e, a), transicao(e, a));
        }
    }
}

#[test]
fn transicao_valores() {
    assert_eq!(transicao(Estado::A11, Simbolo::Cima), Some(Estado::A21));
    assert_eq!(transicao(Estado::A11, Simbolo::Baixo), Some(Estado::A11));
    assert_eq!(transicao(Estado::A22, Simbolo::Pegar), Some(Estado::B22));
    assert_eq!(transicao(Estado::C22, Simbolo::Pegar), Some(Estado::D22));
    assert_eq!(transicao(Estado::B22, Simbolo::Pegar), Some(Estado::B22));
    assert_eq!(transicao(Estado::A33, Simbolo::Atirar), Some(Estado::C33));
    assert_eq!(transicao(Estado::B33, Simbolo::Atirar), Some(Estado::D33));
    assert_eq!(transicao(Estado::A33, Simbolo::Esquerda), Some(Estado::A33));
    assert_eq!(transicao(Estado::C33, Simbolo::Esquerda), Some(Estado::C32));
    assert_eq!(transicao(Estado::A12, Simbolo::Direita), Some(Estado::A13));
    assert_eq!(transicao(Estado::A13, Simbolo::Esquerda), None);
    assert_eq!(transicao(Estado::D31, Simbolo::Baixo), None);
}

#[test]
fn construcao_inicial_e_finais() {
    let m = Labirinto::new(Estado::A11, &[Estado::B11, Estado::D11, Estado::B11]);
    assert_eq!(m.inicial(), Estado::A11);
    assert!(m.eh_final(Estado::B11));
    assert!(m.eh_final(Estado::D11));
    assert!(!m.eh_final(Estado::A11));
    assert!(!m.eh_final(Estado::C11));
}

#[test]
fn palavra_vazia_nada_feito() {
    let m = caverna();
    let vazia: Vec<String> = Vec::new();
    assert_eq!(m.executar(&vazia), Ok(Vec::new()));
    assert_eq!(m.avaliar(&vazia), Ok(Classificacao::NadaFeito));
    assert_eq!(m.classificar(&[]), Classificacao::NadaFeito);
}

#[test]
fn ultimo_final_aceita() {
    let m = caverna();
    let palavra = fichas(&["c", "d", "p", "b", "e"]);
    assert_eq!(
        m.executar(&palavra),
        Ok(vec![Estado::A21, Estado::A22, Estado::B22, Estado::B12, Estado::B11])
    );
    assert_eq!(m.avaliar(&palavra), Ok(Classificacao::Aceita));
    assert_eq!(m.classificar(&[Estado::A33, Estado::C13, Estado::D11]), Classificacao::Aceita);
}

#[test]
fn volta_sem_tesouro() {
    let m = caverna();
    let palavra = fichas(&["cima", "baixo"]);
    assert_eq!(m.executar(&palavra), Ok(vec![Estado::A21, Estado::A11]));
    assert_eq!(m.avaliar(&palavra), Ok(Classificacao::SaiuSemTesouro));
}

#[test]
fn transicao_indefinida_para_a_corrida() {
    let m = caverna();
    let curta = fichas(&["d", "d", "c"]);
    let longa = fichas(&["d", "d", "c", "xyz", "c", "e"]);
    assert_eq!(m.executar(&curta), Ok(vec![Estado::A12, Estado::A13]));
    assert_eq!(m.executar(&longa), Ok(vec![Estado::A12, Estado::A13]));
    assert_eq!(m.avaliar(&longa), Ok(Classificacao::Preso));
}

#[test]
fn primeiro_passo_indefinido_nada_feito() {
    let m = Labirinto::new(Estado::A31, &[Estado::B11, Estado::D11]);
    let palavra = fichas(&["b", "b"]);
    assert_eq!(m.executar(&palavra), Ok(Vec::new()));
    assert_eq!(m.avaliar(&palavra), Ok(Classificacao::NadaFeito));
}

#[test]
fn quatro_passos_reproduzem_o_estado_final() {
    let palavra = fichas(&["c", "d", "c", "d"]);
    let m = caverna();
    for _ in 0..3 {
        let traco = m.executar(&palavra).unwrap();
        assert_eq!(traco, vec![Estado::A21, Estado::A22, Estado::A32, Estado::A33]);
        let mut it = m.read(&palavra);
        let mut ultimo = None;
        while let Some(e) = it.next().unwrap() {
            ultimo = Some(e);
        }
        assert_eq!(ultimo, Some(Estado::A33));
    }
}

#[test]
fn simbolo_desconhecido_aborta() {
    let m = caverna();
    let palavra = fichas(&["xyz"]);
    let erro = Erro::SimboloNaoReconhecido("xyz".to_string());
    assert_eq!(m.executar(&palavra), Err(erro.clone()));
    assert_eq!(m.avaliar(&palavra), Err(erro.clone()));
    let mut it = m.read(&palavra);
    assert_eq!(it.next(), Err(erro));
    assert_eq!(it.next(), Ok(None));
}

#[test]
fn simbolo_desconhecido_depois_de_passos_aborta() {
    let m = caverna();
    let palavra = fichas(&["c", "d", "Norte"]);
    let erro = Erro::SimboloNaoReconhecido("Norte".to_string());
    assert_eq!(m.executar(&palavra), Err(erro.clone()));
    let mut it = m.read(&palavra);
    assert_eq!(it.next(), Ok(Some(Estado::A21)));
    assert_eq!(it.next(), Ok(Some(Estado::A22)));
    assert_eq!(it.next(), Err(erro));
}

#[test]
fn iterador_fica_parado() {
    let m = caverna();
    let palavra = fichas(&["d", "d", "c", "c"]);
    let mut it = m.read(&palavra);
    assert_eq!(it.next(), Ok(Some(Estado::A12)));
    assert_eq!(it.next(), Ok(Some(Estado::A13)));
    assert_eq!(it.next(), Ok(None));
    assert_eq!(it.next(), Ok(None));
}

#[test]
fn automatos_iguais_corridas_iguais() {
    let m1 = caverna();
    let m2 = caverna();
    let palavra = fichas(&["c", "d", "p", "c", "d", "a", "e", "b", "b", "e"]);
    assert_eq!(m1.executar(&palavra), m2.executar(&palavra));
    assert_eq!(m1.avaliar(&palavra), m2.avaliar(&palavra));
}

#[test]
fn simbolo_sem_caixa() {
    assert_eq!(Simbolo::try_from("cima"), Ok(Simbolo::Cima));
    assert_eq!(Simbolo::try_from("CIMA"), Ok(Simbolo::Cima));
    assert_eq!(Simbolo::try_from("C"), Ok(Simbolo::Cima));
    assert_eq!(Simbolo::try_from("Baixo"), Ok(Simbolo::Baixo));
    assert_eq!(Simbolo::try_from("esQuerda"), Ok(Simbolo::Esquerda));
    assert_eq!(Simbolo::try_from("d"), Ok(Simbolo::Direita));
    assert_eq!(Simbolo::try_from("PEGAR"), Ok(Simbolo::Pegar));
    assert_eq!(Simbolo::try_from("a"), Ok(Simbolo::Atirar));
    assert_eq!(Simbolo::try_from("ci"), Err(()));
    assert_eq!(Simbolo::try_from(""), Err(()));
    assert_eq!(Simbolo::try_from("cimas"), Err(()));
    assert_eq!(Simbolo::try_from("x"), Err(()));
}

#[test]
fn separar_palavra_por_espacos_e_virgulas() {
    assert_eq!(
        separar_palavra("c, d\n p,,b \t e"),
        vec!["c", "d", "p", "b", "e"]
    );
    assert_eq!(separar_palavra("cima"), vec!["cima"]);
    assert_eq!(separar_palavra("c\u{3000}d"), vec!["c", "d"]);
    assert!(separar_palavra("").is_empty());
    assert!(separar_palavra(" ,\n,").is_empty());
}
