use jogo_da_velha::jogo::{Resultado, Simbolo};
use jogo_da_velha::rede::{EventoRede, Mensagem};
use jogo_da_velha::sessao::{Estado, Sessao};

fn conectada(sou_x: bool) -> Sessao {
    let mut s = Sessao::new();
    s.processar_evento(EventoRede::OponenteConectado { sou_x });
    s
}

#[test]
fn sessao_nova_aguarda_oponente() {
    let s = Sessao::new();
    assert_eq!(s.estado, Estado::AguardandoOponente);
    assert_eq!(s.texto_status(), "Procurando oponente na rede local...");
    assert_eq!(s.texto_placar(), "Vitórias: 0 | Derrotas: 0");
    assert!(!s.mostra_status_rede());
}

#[test]
fn status_da_rede_aparece_so_aguardando() {
    let mut s = Sessao::new();
    s.processar_evento(EventoRede::Status("Escutando em /ip4/1.2.3.4".to_string()));
    assert_eq!(s.status_rede, "Escutando em /ip4/1.2.3.4");
    assert!(s.mostra_status_rede());
    s.processar_evento(EventoRede::OponenteConectado { sou_x: true });
    assert!(!s.mostra_status_rede());
}

#[test]
fn conexao_define_simbolo_e_textos_iniciais() {
    let x = conectada(true);
    assert_eq!(x.estado, Estado::Jogando { meu_simbolo: Simbolo::X });
    assert_eq!(x.texto_status(), "Partida 1. Você é X e joga primeiro!");
    let o = conectada(false);
    assert_eq!(o.texto_status(), "Partida 1. Você é O, o oponente começa.");
}

#[test]
fn jogada_local_e_replicada_no_oponente() {
    let mut a = conectada(true);
    let mut b = conectada(false);
    let m = a.clicar_casa(4).expect("jogada válida");
    assert_eq!(m, Mensagem::Jogada { posicao: 4 });
    assert_eq!(a.texto_status(), "Vez do oponente...");
    b.processar_evento(EventoRede::MensagemRecebida(m));
    assert_eq!(a.jogo.tabuleiro, b.jogo.tabuleiro);
    assert_eq!(a.jogo.vez, b.jogo.vez);
    assert_eq!(b.texto_status(), "Sua vez (O).");
    assert_eq!(b.texto_casa(4), "X");
    assert_eq!(b.texto_casa(0), "");
}

#[test]
fn clique_fora_da_vez_nao_faz_nada() {
    let mut o = conectada(false);
    assert_eq!(o.clicar_casa(0), None);
    assert!(o.jogo.vazio());
    let mut s = Sessao::new();
    assert_eq!(s.clicar_casa(0), None);
}

#[test]
fn jogada_invalida_recebida_gera_aviso() {
    let mut a = conectada(true);
    a.processar_evento(EventoRede::MensagemRecebida(Mensagem::Jogada { posicao: 12 }));
    assert_eq!(a.aviso.as_deref(), Some("Jogada inválida recebida (casa 12)."));
    assert!(a.jogo.vazio());
}

#[test]
fn vitoria_e_derrota_no_placar() {
    let mut a = conectada(true);
    let mut b = conectada(false);
    for (mine, theirs) in [(0usize, 3usize), (1, 4)] {
        let m = a.clicar_casa(mine).unwrap();
        b.processar_evento(EventoRede::MensagemRecebida(m));
        let m = b.clicar_casa(theirs).unwrap();
        a.processar_evento(EventoRede::MensagemRecebida(m));
    }
    let m = a.clicar_casa(2).unwrap();
    b.processar_evento(EventoRede::MensagemRecebida(m));
    assert_eq!(a.jogo.resultado, Some(Resultado::Vitoria(Simbolo::X)));
    assert_eq!(a.texto_status(), "Você venceu!");
    assert_eq!(b.texto_status(), "Você perdeu.");
    assert_eq!((a.vitorias, a.derrotas), (1, 0));
    assert_eq!((b.vitorias, b.derrotas), (0, 1));
    assert_eq!(b.texto_placar(), "Vitórias: 0 | Derrotas: 1");
}

#[test]
fn nova_partida_replicada_e_alterna_quem_comeca() {
    let mut a = conectada(true);
    let mut b = conectada(false);
    assert!(!a.pode_pedir_nova_partida());
    assert_eq!(a.pedir_nova_partida(), None);
    for c in [0usize, 3, 1, 4, 2] {
        let (quem, outro) = if a.jogo.vez == Simbolo::X { (&mut a, &mut b) } else { (&mut b, &mut a) };
        let m = quem.clicar_casa(c).unwrap();
        outro.processar_evento(EventoRede::MensagemRecebida(m));
    }
    assert!(a.pode_pedir_nova_partida());
    let m = a.pedir_nova_partida().unwrap();
    assert_eq!(m, Mensagem::NovaPartida { partida: 1 });
    b.processar_evento(EventoRede::MensagemRecebida(m));
    assert_eq!(a.jogo.partida, 1);
    assert_eq!(b.jogo.partida, 1);
    assert_eq!(a.jogo.vez, Simbolo::O);
    assert_eq!(b.texto_status(), "Partida 2. Você é O e joga primeiro!");
    // uma mensagem atrasada não faz a partida voltar
    b.processar_evento(EventoRede::MensagemRecebida(Mensagem::NovaPartida { partida: 1 }));
    assert_eq!(b.jogo.partida, 1);
}

#[test]
fn empate_no_texto_e_sem_placar() {
    let mut a = conectada(true);
    let mut b = conectada(false);
    for c in [0usize, 1, 2, 4, 3, 5, 7, 6, 8] {
        let (quem, outro) = if a.jogo.vez == Simbolo::X { (&mut a, &mut b) } else { (&mut b, &mut a) };
        let m = quem.clicar_casa(c).unwrap();
        outro.processar_evento(EventoRede::MensagemRecebida(m));
    }
    assert_eq!(a.texto_status(), "Deu velha! Empate.");
    assert_eq!((a.vitorias, a.derrotas, b.vitorias, b.derrotas), (0, 0, 0, 0));
}

#[test]
fn desconexao_reinicia_e_avisa() {
    let mut a = conectada(true);
    a.clicar_casa(0);
    a.processar_evento(EventoRede::OponenteDesconectado);
    assert_eq!(a.estado, Estado::AguardandoOponente);
    assert!(a.jogo.vazio());
    assert_eq!(a.aviso.as_deref(), Some("O oponente se desconectou."));
    a.processar_evento(EventoRede::Erro("falha".to_string()));
    assert_eq!(a.aviso.as_deref(), Some("falha"));
}

#[test]
fn placar_com_numeros_grandes() {
    let mut s = Sessao::new();
    s.vitorias = 1234567890;
    s.derrotas = u32::MAX;
    assert_eq!(s.texto_placar(), "Vitórias: 1234567890 | Derrotas: 4294967295");
}

#[test]
fn placar_no_limite_so_recusa_o_que_o_faria_transbordar() {
    let mut a = conectada(true);
    a.vitorias = u32::MAX;
    a.derrotas = u32::MAX;
    // jogadas que não encerram a partida cabem
    assert!(a.cabe_clique(0));
    assert!(a.cabe_evento(&EventoRede::MensagemRecebida(Mensagem::Jogada { posicao: 0 })));
    // jogadas recusadas também
    assert!(a.cabe_evento(&EventoRede::MensagemRecebida(Mensagem::Jogada { posicao: 20 })));
    assert!(a.cabe_evento(&EventoRede::Status("x".to_string())));
    // X: 0, 1; O: 3, 4; a casa 2 daria vitória a X
    a.vitorias = 0;
    a.derrotas = 0;
    let mut b = conectada(false);
    for (mine, theirs) in [(0usize, 3usize), (1, 4)] {
        let m = a.clicar_casa(mine).unwrap();
        b.processar_evento(EventoRede::MensagemRecebida(m));
        let m = b.clicar_casa(theirs).unwrap();
        a.processar_evento(EventoRede::MensagemRecebida(m));
    }
    a.vitorias = u32::MAX;
    assert!(!a.cabe_clique(2));
    assert!(a.cabe_clique(5));
    b.derrotas = u32::MAX;
    assert!(!b.cabe_evento(&EventoRede::MensagemRecebida(Mensagem::Jogada { posicao: 2 })));
    b.derrotas = 0;
    b.vitorias = u32::MAX;
    assert!(b.cabe_evento(&EventoRede::MensagemRecebida(Mensagem::Jogada { posicao: 2 })));
}
