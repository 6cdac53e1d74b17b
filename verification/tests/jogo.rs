use jogo_da_velha::jogo::{Jogo, Resultado, Simbolo};

fn jogar_sequencia(jogo: &mut Jogo, casas: &[usize]) {
    for &c in casas {
        let vez = jogo.vez;
        assert!(jogo.jogar(c, vez), "jogada na casa {c} deveria valer");
    }
}

#[test]
fn oposto_troca_os_simbolos() {
    assert_eq!(Simbolo::X.oposto(), Simbolo::O);
    assert_eq!(Simbolo::O.oposto(), Simbolo::X);
    assert_eq!(Simbolo::X.oposto().oposto(), Simbolo::X);
}

#[test]
fn texto_do_simbolo() {
    assert_eq!(Simbolo::X.texto(), "X");
    assert_eq!(Simbolo::O.texto(), "O");
}

#[test]
fn jogo_novo_vazio_com_x() {
    let jogo = Jogo::new();
    assert_eq!(jogo.tabuleiro, [None; 9]);
    assert_eq!(jogo.vez, Simbolo::X);
    assert_eq!(jogo.resultado, None);
    assert_eq!(jogo.partida, 0);
    assert!(jogo.vazio());
}

#[test]
fn jogada_valida_ocupa_e_passa_a_vez() {
    let mut jogo = Jogo::new();
    assert!(jogo.jogar(4, Simbolo::X));
    assert_eq!(jogo.tabuleiro[4], Some(Simbolo::X));
    assert_eq!(jogo.vez, Simbolo::O);
    assert_eq!(jogo.resultado, None);
    assert!(!jogo.vazio());
}

#[test]
fn jogadas_recusadas_nao_mudam_nada() {
    let mut jogo = Jogo::new();
    assert!(!jogo.jogar(9, Simbolo::X));
    assert!(!jogo.jogar(100, Simbolo::X));
    assert!(!jogo.jogar(0, Simbolo::O));
    assert!(jogo.vazio());
    assert!(jogo.jogar(0, Simbolo::X));
    assert!(!jogo.jogar(0, Simbolo::O));
    assert_eq!(jogo.tabuleiro[0], Some(Simbolo::X));
    assert_eq!(jogo.vez, Simbolo::O);
}

#[test]
fn vitoria_em_linha() {
    let mut jogo = Jogo::new();
    jogar_sequencia(&mut jogo, &[0, 3, 1, 4, 2]);
    assert_eq!(jogo.resultado, Some(Resultado::Vitoria(Simbolo::X)));
}

#[test]
fn vitoria_em_coluna_e_diagonais() {
    let mut jogo = Jogo::new();
    jogar_sequencia(&mut jogo, &[0, 1, 3, 2, 6]);
    assert_eq!(jogo.resultado, Some(Resultado::Vitoria(Simbolo::X)));

    let mut jogo = Jogo::new();
    jogar_sequencia(&mut jogo, &[1, 0, 2, 4, 3, 8]);
    assert_eq!(jogo.resultado, Some(Resultado::Vitoria(Simbolo::O)));

    let mut jogo = Jogo::new();
    jogar_sequencia(&mut jogo, &[2, 0, 4, 1, 6]);
    assert_eq!(jogo.resultado, Some(Resultado::Vitoria(Simbolo::X)));
}

#[test]
fn partida_encerrada_recusa_jogadas() {
    let mut jogo = Jogo::new();
    jogar_sequencia(&mut jogo, &[0, 3, 1, 4, 2]);
    assert!(!jogo.jogar(5, Simbolo::O));
    assert_eq!(jogo.tabuleiro[5], None);
}

#[test]
fn empate_com_tabuleiro_cheio() {
    let mut jogo = Jogo::new();
    // X O X / X O O / O X X
    jogar_sequencia(&mut jogo, &[0, 1, 2, 4, 3, 5, 7, 6, 8]);
    assert_eq!(jogo.resultado, Some(Resultado::Empate));
}

#[test]
fn vitoria_na_ultima_casa_nao_e_empate() {
    let mut jogo = Jogo::new();
    // X O X / O O X / O X X: a última jogada (8) fecha a coluna 2, 5, 8
    jogar_sequencia(&mut jogo, &[0, 1, 2, 3, 5, 4, 7, 6, 8]);
    assert_eq!(jogo.resultado, Some(Resultado::Vitoria(Simbolo::X)));
}

#[test]
fn nova_partida_alterna_quem_comeca() {
    let mut jogo = Jogo::new();
    jogar_sequencia(&mut jogo, &[0, 3, 1, 4, 2]);
    jogo.nova_partida(1);
    assert!(jogo.vazio());
    assert_eq!(jogo.resultado, None);
    assert_eq!(jogo.partida, 1);
    assert_eq!(jogo.vez, Simbolo::O);
    jogo.nova_partida(2);
    assert_eq!(jogo.vez, Simbolo::X);
    jogo.nova_partida(u32::MAX);
    assert_eq!(jogo.vez, Simbolo::O);
}

#[test]
fn reiniciar_volta_ao_jogo_novo() {
    let mut jogo = Jogo::new();
    jogo.nova_partida(7);
    jogar_sequencia(&mut jogo, &[4, 0]);
    jogo.reiniciar();
    assert!(jogo.vazio());
    assert_eq!(jogo.vez, Simbolo::X);
    assert_eq!(jogo.partida, 0);
    assert_eq!(jogo.resultado, None);
}

#[test]
fn uma_partida_tem_no_maximo_nove_jogadas() {
    let mut jogo = Jogo::new();
    let mut aceitas = 0;
    for _ in 0..20 {
        for c in 0..9 {
            let vez = jogo.vez;
            if jogo.jogar(c, vez) {
                aceitas += 1;
            }
        }
    }
    assert!(aceitas <= 9);
    assert!(jogo.resultado.is_some());
}

#[test]
fn resultado_depende_so_do_tabuleiro() {
    let mut a = Jogo::new();
    jogar_sequencia(&mut a, &[0, 3, 1, 4, 2]);
    let b = Jogo { tabuleiro: a.tabuleiro, vez: Simbolo::X, resultado: None, partida: 9 };
    assert_eq!(a.verificar_resultado(), Some(Resultado::Vitoria(Simbolo::X)));
    assert_eq!(b.verificar_resultado(), a.verificar_resultado());
    assert_eq!(b.resultado, None);
    assert_eq!(Jogo::new().verificar_resultado(), None);
}
