use jogo_da_velha::par::IdPar;
use jogo_da_velha::rede::{Acao, ControleRede, Descoberta, EventoRede, EventoSwarm, Mensagem, TOPICO};
use libp2p::PeerId;

/// Os bytes de um `PeerId` com multihash identidade de um só byte.
fn bytes_par(n: u8) -> Vec<u8> {
    vec![0x00, 0x01, n]
}

fn par(n: u8) -> IdPar {
    IdPar::de_bytes(bytes_par(n)).expect("bytes válidos")
}

fn nome(n: u8) -> String {
    PeerId::from_bytes(&bytes_par(n)).unwrap().to_base58()
}

fn status(a: &Acao) -> String {
    match a {
        Acao::Notificar(EventoRede::Status(s)) => s.clone(),
        _ => panic!("esperava status"),
    }
}

fn inscrever(c: &mut ControleRede, n: u8) -> Vec<Acao> {
    c.tratar(EventoSwarm::Inscrito { par: par(n), topico: TOPICO.to_string() })
}

#[test]
fn bytes_invalidos_nao_formam_par() {
    assert!(IdPar::de_bytes(vec![0xff]).is_none());
    assert!(IdPar::de_bytes(vec![]).is_none());
    assert!(IdPar::de_bytes(vec![0x05, 0x01, 0x01]).is_none());
    let p = par(7);
    assert_eq!(p.bytes(), &bytes_par(7));
}

#[test]
fn nome_e_o_base58_do_peer_id() {
    let p = par(3);
    assert_eq!(p.nome(), nome(3));
    assert_ne!(p.nome(), "");
}

#[test]
fn ordem_de_pares_segue_peer_id() {
    assert!(par(1).precede(&par(2)));
    assert!(!par(2).precede(&par(1)));
    assert!(!par(1).precede(&par(1)));
    let a = PeerId::from_bytes(&bytes_par(9)).unwrap();
    let b = PeerId::from_bytes(&[0x00, 0x02, 0x00, 0x00]).unwrap();
    let pb = IdPar::de_bytes(vec![0x00, 0x02, 0x00, 0x00]).unwrap();
    assert_eq!(par(9).precede(&pb), a < b);
    assert!(par(4).mesmo(&par(4)));
    assert!(!par(4).mesmo(&par(5)));
    assert!(par(4).copia().mesmo(&par(4)));
}

#[test]
fn escutando_em_vira_status() {
    let mut c = ControleRede::new(par(1));
    let r = c.tratar(EventoSwarm::EscutandoEm { endereco: "/ip4/127.0.0.1/tcp/4001".to_string() });
    assert_eq!(r.len(), 1);
    assert_eq!(status(&r[0]), "Escutando em /ip4/127.0.0.1/tcp/4001");
}

#[test]
fn descoberta_agrupa_enderecos_e_disca_so_o_menor() {
    let mut c = ControleRede::new(par(2));
    let d = vec![
        Descoberta { par: par(5), endereco: "/a".to_string(), conectado: false },
        Descoberta { par: par(1), endereco: "/b".to_string(), conectado: false },
        Descoberta { par: par(5), endereco: "/c".to_string(), conectado: false },
        Descoberta { par: par(9), endereco: "/d".to_string(), conectado: true },
    ];
    let r = c.tratar(EventoSwarm::Descobertos(d));
    assert_eq!(r.len(), 7);
    for (i, n) in [5u8, 1, 5, 9].iter().enumerate() {
        match &r[i] {
            Acao::AdicionarExplicito(p) => assert!(p.mesmo(&par(*n))),
            _ => panic!("esperava par explícito"),
        }
    }
    assert_eq!(status(&r[4]), format!("Peer encontrado, discando: {}", nome(5)));
    match &r[5] {
        Acao::Discar { par: p, enderecos } => {
            assert!(p.mesmo(&par(5)));
            assert_eq!(enderecos, &vec!["/a".to_string(), "/c".to_string()]);
        }
        _ => panic!("esperava discagem"),
    }
    assert_eq!(status(&r[6]), format!("Peer encontrado, aguardando conexão: {}", nome(1)));
}

#[test]
fn exatamente_um_lado_disca() {
    let mut a = ControleRede::new(par(1));
    let mut b = ControleRede::new(par(2));
    let ra = a.tratar(EventoSwarm::Descobertos(vec![Descoberta {
        par: par(2),
        endereco: "/x".to_string(),
        conectado: false,
    }]));
    let rb = b.tratar(EventoSwarm::Descobertos(vec![Descoberta {
        par: par(1),
        endereco: "/y".to_string(),
        conectado: false,
    }]));
    let disca = |r: &Vec<Acao>| r.iter().any(|a| matches!(a, Acao::Discar { .. }));
    assert!(disca(&ra));
    assert!(!disca(&rb));
}

#[test]
fn inscricao_no_topico_define_oponente_e_simbolo() {
    let mut a = ControleRede::new(par(1));
    let mut b = ControleRede::new(par(2));
    let ra = inscrever(&mut a, 2);
    let rb = inscrever(&mut b, 1);
    assert!(matches!(ra[..], [Acao::Notificar(EventoRede::OponenteConectado { sou_x: true })]));
    assert!(matches!(rb[..], [Acao::Notificar(EventoRede::OponenteConectado { sou_x: false })]));
    // um segundo par não toma o lugar do oponente
    assert!(inscrever(&mut a, 3).is_empty());
}

#[test]
fn inscricao_em_outro_topico_e_ignorada() {
    let mut a = ControleRede::new(par(1));
    let r = a.tratar(EventoSwarm::Inscrito { par: par(2), topico: "outro".to_string() });
    assert!(r.is_empty());
    assert_eq!(inscrever(&mut a, 2).len(), 1);
}

#[test]
fn mensagens_so_do_oponente() {
    let mut a = ControleRede::new(par(1));
    let m = Mensagem::Jogada { posicao: 4 };
    let r = a.tratar(EventoSwarm::MensagemGossip { fonte: Some(par(2)), conteudo: Some(m) });
    assert!(r.is_empty());
    inscrever(&mut a, 2);
    let r = a.tratar(EventoSwarm::MensagemGossip { fonte: Some(par(3)), conteudo: Some(m) });
    assert!(r.is_empty());
    let r = a.tratar(EventoSwarm::MensagemGossip { fonte: None, conteudo: Some(m) });
    assert!(r.is_empty());
    let r = a.tratar(EventoSwarm::MensagemGossip { fonte: Some(par(2)), conteudo: Some(m) });
    assert!(matches!(r[..], [Acao::Notificar(EventoRede::MensagemRecebida(Mensagem::Jogada { posicao: 4 }))]));
    let r = a.tratar(EventoSwarm::MensagemGossip { fonte: Some(par(2)), conteudo: None });
    match &r[..] {
        [Acao::Notificar(EventoRede::Erro(t))] => assert_eq!(t, "Mensagem inválida recebida."),
        _ => panic!("esperava erro"),
    }
}

#[test]
fn desinscricao_do_oponente_o_desconecta() {
    let mut a = ControleRede::new(par(1));
    inscrever(&mut a, 2);
    assert!(a.tratar(EventoSwarm::Desinscrito { par: par(3) }).is_empty());
    let r = a.tratar(EventoSwarm::Desinscrito { par: par(2) });
    assert!(matches!(r[..], [Acao::Notificar(EventoRede::OponenteDesconectado)]));
    // sem oponente, outro par pode entrar
    assert_eq!(inscrever(&mut a, 3).len(), 1);
}

#[test]
fn conexao_encerrada_so_desconecta_sem_conexoes_restantes() {
    let mut a = ControleRede::new(par(1));
    inscrever(&mut a, 2);
    let r = a.tratar(EventoSwarm::ConexaoEncerrada { par: par(2), restantes: 1, causa: "None".to_string() });
    assert_eq!(r.len(), 1);
    assert_eq!(status(&r[0]), format!("Conexão encerrada com {}: None", nome(2)));
    let r = a.tratar(EventoSwarm::ConexaoEncerrada { par: par(2), restantes: 0, causa: "None".to_string() });
    assert_eq!(r.len(), 2);
    assert!(matches!(r[1], Acao::Notificar(EventoRede::OponenteDesconectado)));
}

#[test]
fn expirados_deixam_de_ser_explicitos() {
    let mut a = ControleRede::new(par(1));
    let r = a.tratar(EventoSwarm::Expirados(vec![par(4), par(6)]));
    assert_eq!(r.len(), 2);
    assert!(matches!(&r[0], Acao::RemoverExplicito(p) if p.mesmo(&par(4))));
    assert!(matches!(&r[1], Acao::RemoverExplicito(p) if p.mesmo(&par(6))));
}

#[test]
fn textos_de_status_e_erro() {
    let mut a = ControleRede::new(par(1));
    let r = a.tratar(EventoSwarm::ConexaoEstabelecida { par: par(2) });
    assert_eq!(status(&r[0]), format!("Conectado a {}, aguardando inscrição no tópico", nome(2)));
    let r = a.tratar(EventoSwarm::FalhaDiscagem { par: par(2), erro: "sem rota".to_string() });
    assert_eq!(status(&r[0]), format!("Falha ao discar para {}: sem rota", nome(2)));
    let r = a.tratar(EventoSwarm::ErroConexaoSaida { par: "None".to_string(), erro: "tempo".to_string() });
    assert_eq!(status(&r[0]), "Erro ao conectar com None: tempo");
    let r = a.tratar(EventoSwarm::FalhaPublicacao { erro: "NoPeersSubscribedToTopic".to_string() });
    match &r[..] {
        [Acao::Notificar(EventoRede::Erro(t))] => {
            assert_eq!(t, "Falha ao enviar jogada: NoPeersSubscribedToTopic")
        }
        _ => panic!("esperava erro"),
    }
}

#[test]
fn bytes_nao_canonicos_sao_recusados() {
    // o mesmo PeerId que [0x00, 0x01, 0x05], com o código em varint não minimal
    let mut longo = vec![0x80u8; 9];
    longo.extend_from_slice(&[0x02, 0x01, 0x05]);
    assert!(PeerId::from_bytes(&longo).is_ok());
    assert!(IdPar::de_bytes(longo).is_none());
    assert!(IdPar::de_bytes(vec![0x00, 0x01, 0x05]).is_some());
}

#[test]
fn avisos_de_oponente_alternam() {
    let mut a = ControleRede::new(par(1));
    let mut avisos = Vec::new();
    let eventos = vec![
        EventoSwarm::Inscrito { par: par(2), topico: TOPICO.to_string() },
        EventoSwarm::Inscrito { par: par(3), topico: TOPICO.to_string() },
        EventoSwarm::Desinscrito { par: par(3) },
        EventoSwarm::ConexaoEncerrada { par: par(2), restantes: 0, causa: "None".to_string() },
        EventoSwarm::Desinscrito { par: par(2) },
        EventoSwarm::Inscrito { par: par(3), topico: TOPICO.to_string() },
    ];
    for e in eventos {
        for acao in a.tratar(e) {
            match acao {
                Acao::Notificar(EventoRede::OponenteConectado { .. }) => avisos.push(true),
                Acao::Notificar(EventoRede::OponenteDesconectado) => avisos.push(false),
                _ => {}
            }
        }
    }
    assert_eq!(avisos, vec![true, false, true]);
}
