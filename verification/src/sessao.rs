//! O estado de uma sessão de jogo na interface: a partida, o símbolo do jogador, os avisos
//! e o placar, e o que cada evento da rede ou clique faz com eles.
use crate::jogo::{
    lei_jogada_preserva, lei_oposto_involucao, apos_jogada, jogada_permitida, jogo_da_partida, jogo_inicial, simbolo_oposto,
    tabuleiro_vazio, texto_do_simbolo, Jogo, JogoVisao, Resultado, Simbolo,
};
use crate::rede::{EventoRede, EventoRedeVisao, Mensagem};
use crate::texto::{decimal, escrever_decimal};
use vstd::prelude::*;

verus! {

/// Em que ponto a sessão está.
#[derive(Clone, Copy, PartialEq, Eq, Debug, Structural)]
pub enum Estado {
    AguardandoOponente,
    Jogando { meu_simbolo: Simbolo },
}

/// O estado da sessão.
pub struct Sessao {
    pub estado: Estado,
    pub jogo: Jogo,
    pub aviso: Option<String>,
    pub status_rede: String,
    pub vitorias: u32,
    pub derrotas: u32,
}

/// A sessão vista como valores matemáticos.
pub struct SessaoVisao {
    pub estado: Estado,
    pub jogo: JogoVisao,
    pub aviso: Option<Seq<char>>,
    pub status_rede: Seq<char>,
    pub vitorias: u32,
    pub derrotas: u32,
}

impl View for Sessao {
    type V = SessaoVisao;

    open spec fn view(&self) -> SessaoVisao {
        SessaoVisao {
            estado: self.estado,
            jogo: self.jogo@,
            aviso: match self.aviso {
                Some(a) => Some(a@),
                None => None,
            },
            status_rede: self.status_rede@,
            vitorias: self.vitorias,
            derrotas: self.derrotas,
        }
    }
}

/// A sessão de quem acaba de abrir o programa.
pub open spec fn sessao_inicial() -> SessaoVisao {
    SessaoVisao {
        estado: Estado::AguardandoOponente,
        jogo: jogo_inicial(),
        aviso: None,
        status_rede: Seq::empty(),
        vitorias: 0,
        derrotas: 0,
    }
}

/// A sessão com outro jogo.
pub open spec fn com_jogo(s: SessaoVisao, jogo: JogoVisao) -> SessaoVisao {
    SessaoVisao {
        estado: s.estado,
        jogo,
        aviso: s.aviso,
        status_rede: s.status_rede,
        vitorias: s.vitorias,
        derrotas: s.derrotas,
    }
}

/// A sessão com outro aviso.
pub open spec fn com_aviso(s: SessaoVisao, aviso: Option<Seq<char>>) -> SessaoVisao {
    SessaoVisao {
        estado: s.estado,
        jogo: s.jogo,
        aviso,
        status_rede: s.status_rede,
        vitorias: s.vitorias,
        derrotas: s.derrotas,
    }
}

/// O placar ainda cabe num `u32` depois de contar o resultado do jogo para `meu`.
pub open spec fn placar_cabe(s: SessaoVisao, meu: Simbolo) -> bool {
    match s.jogo.resultado {
        Some(Resultado::Vitoria(v)) => if v == meu {
            s.vitorias < u32::MAX
        } else {
            s.derrotas < u32::MAX
        },
        _ => true,
    }
}

/// A sessão depois de contar no placar o resultado do jogo: uma vitória de `meu` soma uma
/// vitória; uma do outro, uma derrota; empate ou partida em curso, nada.
pub open spec fn com_placar(s: SessaoVisao, meu: Simbolo) -> SessaoVisao {
    match s.jogo.resultado {
        Some(Resultado::Vitoria(v)) => if v == meu {
            SessaoVisao { vitorias: (s.vitorias + 1) as u32, ..s }
        } else {
            SessaoVisao { derrotas: (s.derrotas + 1) as u32, ..s }
        },
        _ => s,
    }
}

/// O aviso de uma jogada do oponente que as regras recusam.
pub open spec fn aviso_jogada_invalida(posicao: u8) -> Seq<char> {
    "Jogada inválida recebida (casa "@ + decimal(posicao as nat) + ")."@
}

/// O símbolo que cabe a quem recebe `sou_x`.
pub open spec fn simbolo_de(sou_x: bool) -> Simbolo {
    if sou_x {
        Simbolo::X
    } else {
        Simbolo::O
    }
}

/// O jogo depois que o oponente de `meu` joga na casa `posicao`.
pub open spec fn jogo_apos_recebida(s: SessaoVisao, meu: Simbolo, posicao: u8) -> JogoVisao {
    apos_jogada(s.jogo, posicao as int, simbolo_oposto(meu))
}

/// O placar não transborda ao tratar o evento.
pub open spec fn evento_cabe(s: SessaoVisao, e: EventoRedeVisao) -> bool {
    match (e, s.estado) {
        (
            EventoRedeVisao::MensagemRecebida(Mensagem::Jogada { posicao }),
            Estado::Jogando { meu_simbolo },
        ) => jogada_permitida(s.jogo, posicao as int, simbolo_oposto(meu_simbolo)) ==> placar_cabe(
            com_jogo(s, jogo_apos_recebida(s, meu_simbolo, posicao)),
            meu_simbolo,
        ),
        _ => true,
    }
}

/// A sessão depois do evento da rede.
pub open spec fn apos_evento(s: SessaoVisao, e: EventoRedeVisao) -> SessaoVisao {
    match e {
        EventoRedeVisao::OponenteConectado { sou_x } => SessaoVisao {
            estado: Estado::Jogando { meu_simbolo: simbolo_de(sou_x) },
            jogo: jogo_inicial(),
            aviso: None,
            ..s
        },
        EventoRedeVisao::OponenteDesconectado => SessaoVisao {
            estado: Estado::AguardandoOponente,
            jogo: jogo_inicial(),
            aviso: Some("O oponente se desconectou."@),
            ..s
        },
        EventoRedeVisao::MensagemRecebida(Mensagem::Jogada { posicao }) => match s.estado {
            Estado::Jogando { meu_simbolo } => if jogada_permitida(
                s.jogo,
                posicao as int,
                simbolo_oposto(meu_simbolo),
            ) {
                com_placar(com_jogo(s, jogo_apos_recebida(s, meu_simbolo, posicao)), meu_simbolo)
            } else {
                com_aviso(s, Some(aviso_jogada_invalida(posicao)))
            },
            Estado::AguardandoOponente => s,
        },
        EventoRedeVisao::MensagemRecebida(Mensagem::NovaPartida { partida }) => if partida
            > s.jogo.partida {
            SessaoVisao { jogo: jogo_da_partida(partida), aviso: None, ..s }
        } else {
            s
        },
        EventoRedeVisao::Status(t) => SessaoVisao { status_rede: t, ..s },
        EventoRedeVisao::Erro(t) => com_aviso(s, Some(t)),
    }
}

/// O clique na casa `posicao` vale: é a vez do jogador, a partida segue e a casa está livre.
pub open spec fn clique_vale(s: SessaoVisao, posicao: int) -> bool {
    s.estado matches Estado::Jogando { meu_simbolo } && jogada_permitida(
        s.jogo,
        posicao,
        meu_simbolo,
    )
}

/// A sessão depois do clique na casa `posicao`.
pub open spec fn apos_clique(s: SessaoVisao, posicao: int) -> SessaoVisao {
    if clique_vale(s, posicao) {
        let meu = s.estado->meu_simbolo;
        com_placar(com_jogo(s, apos_jogada(s.jogo, posicao, meu)), meu)
    } else {
        s
    }
}

/// O placar não transborda com o clique na casa `posicao`.
pub open spec fn clique_cabe(s: SessaoVisao, posicao: int) -> bool {
    clique_vale(s, posicao) ==> placar_cabe(
        com_jogo(s, apos_jogada(s.jogo, posicao, s.estado->meu_simbolo)),
        s.estado->meu_simbolo,
    )
}

/// Pode-se pedir nova partida: há oponente e a partida terminou.
pub open spec fn pode_pedir(s: SessaoVisao) -> bool {
    s.estado is Jogando && s.jogo.resultado is Some
}

/// A sessão depois de pedir a partida seguinte.
pub open spec fn apos_pedido(s: SessaoVisao) -> SessaoVisao {
    if pode_pedir(s) {
        SessaoVisao { jogo: jogo_da_partida((s.jogo.partida + 1) as u32), aviso: None, ..s }
    } else {
        s
    }
}

/// O texto de status mostrado ao jogador.
pub open spec fn status_de(s: SessaoVisao) -> Seq<char> {
    match s.estado {
        Estado::AguardandoOponente => "Procurando oponente na rede local..."@,
        Estado::Jogando { meu_simbolo } => match s.jogo.resultado {
            Some(Resultado::Vitoria(v)) => if v == meu_simbolo {
                "Você venceu!"@
            } else {
                "Você perdeu."@
            },
            Some(Resultado::Empate) => "Deu velha! Empate."@,
            None => if tabuleiro_vazio(s.jogo.tabuleiro) {
                let numero = decimal((s.jogo.partida + 1) as nat);
                if s.jogo.vez == meu_simbolo {
                    "Partida "@ + numero + ". Você é "@ + texto_do_simbolo(meu_simbolo)
                        + " e joga primeiro!"@
                } else {
                    "Partida "@ + numero + ". Você é "@ + texto_do_simbolo(meu_simbolo)
                        + ", o oponente começa."@
                }
            } else if s.jogo.vez == meu_simbolo {
                "Sua vez ("@ + texto_do_simbolo(meu_simbolo) + ")."@
            } else {
                "Vez do oponente..."@
            },
        },
    }
}

/// O texto do placar.
pub open spec fn placar_de(s: SessaoVisao) -> Seq<char> {
    "Vitórias: "@ + decimal(s.vitorias as nat) + " | Derrotas: "@ + decimal(s.derrotas as nat)
}

/// Os dois lados ficam com o mesmo jogo: quando um jogador clica numa casa e a jogada vale,
/// o oponente, que tinha o mesmo jogo e o outro símbolo, aplica a mensagem recebida e chega
/// ao mesmo jogo; a vitória de um conta como derrota do outro, e vice-versa.
pub proof fn lei_jogada_replicada(a: SessaoVisao, b: SessaoVisao, posicao: int)
    requires
        0 <= posicao < 9,
        a.jogo == b.jogo,
        a.estado matches Estado::Jogando { meu_simbolo },
        b.estado == (Estado::Jogando { meu_simbolo: simbolo_oposto(a.estado->meu_simbolo) }),
        clique_vale(a, posicao),
        clique_cabe(a, posicao),
        evento_cabe(b, EventoRedeVisao::MensagemRecebida(Mensagem::Jogada { posicao: posicao as u8 })),
    ensures
        ({
            let depois_a = apos_clique(a, posicao);
            let depois_b = apos_evento(
                b,
                EventoRedeVisao::MensagemRecebida(Mensagem::Jogada { posicao: posicao as u8 }),
            );
            &&& depois_b.jogo == depois_a.jogo
            &&& depois_a.vitorias - a.vitorias == depois_b.derrotas - b.derrotas
            &&& depois_a.derrotas - a.derrotas == depois_b.vitorias - b.vitorias
            &&& depois_a.jogo.resultado matches Some(Resultado::Vitoria(_)) ==> {
                &&& depois_a.vitorias + depois_a.derrotas == a.vitorias + a.derrotas + 1
                &&& depois_b.vitorias + depois_b.derrotas == b.vitorias + b.derrotas + 1
            }
        }),
{
    let m = a.estado->meu_simbolo;
    assert(simbolo_oposto(simbolo_oposto(m)) == m);
    assert((posicao as u8) as int == posicao);
}

/// Os dois lados começam juntos a partida seguinte: quem pede nova partida e o oponente que
/// recebe a mensagem, partindo do mesmo jogo, chegam ao mesmo jogo.
pub proof fn lei_nova_partida_replicada(a: SessaoVisao, b: SessaoVisao)
    requires
        a.jogo == b.jogo,
        pode_pedir(a),
        a.jogo.partida < u32::MAX,
    ensures
        apos_evento(
            b,
            EventoRedeVisao::MensagemRecebida(
                Mensagem::NovaPartida { partida: (a.jogo.partida + 1) as u32 },
            ),
        ).jogo == apos_pedido(a).jogo,
{
}

/// O placar só cresce, de no máximo um ponto por evento, e só quando chega uma jogada.
pub proof fn lei_placar_evento(s: SessaoVisao, e: EventoRedeVisao)
    requires
        evento_cabe(s, e),
    ensures
        apos_evento(s, e).vitorias >= s.vitorias,
        apos_evento(s, e).derrotas >= s.derrotas,
        apos_evento(s, e).vitorias + apos_evento(s, e).derrotas <= s.vitorias + s.derrotas + 1,
        !(e matches EventoRedeVisao::MensagemRecebida(Mensagem::Jogada { .. })) ==> apos_evento(
            s,
            e,
        ).vitorias == s.vitorias && apos_evento(s, e).derrotas == s.derrotas,
{
}

/// O placar só cresce com um clique, de no máximo um ponto.
pub proof fn lei_placar_clique(s: SessaoVisao, posicao: int)
    requires
        clique_cabe(s, posicao),
    ensures
        apos_clique(s, posicao).vitorias >= s.vitorias,
        apos_clique(s, posicao).derrotas >= s.derrotas,
        apos_clique(s, posicao).vitorias + apos_clique(s, posicao).derrotas <= s.vitorias
            + s.derrotas + 1,
{
}

/// Uma jogada do oponente nunca dá vitória a quem a recebe: num jogo coerente, a vitória
/// que ela produz é sempre do oponente, e conta como derrota.
pub proof fn lei_jogada_recebida_nao_da_vitoria(s: SessaoVisao, posicao: u8)
    requires
        s.jogo.bem_formado(),
        evento_cabe(s, EventoRedeVisao::MensagemRecebida(Mensagem::Jogada { posicao })),
    ensures
        apos_evento(s, EventoRedeVisao::MensagemRecebida(Mensagem::Jogada { posicao })).vitorias
            == s.vitorias,
{
    if let Estado::Jogando { meu_simbolo } = s.estado {
        if jogada_permitida(s.jogo, posicao as int, simbolo_oposto(meu_simbolo)) {
            lei_jogada_preserva(s.jogo, posicao as int, simbolo_oposto(meu_simbolo));
            lei_oposto_involucao(meu_simbolo);
        }
    }
}

/// Contar no placar um jogo terminado em vitória soma exatamente um ponto, seja qual for o
/// vencedor: uma vitória, se ele é `meu`, uma derrota, se não. Um empate ou um jogo em curso
/// não muda o placar, e a contagem não muda o jogo.
pub proof fn lei_placar_conta_toda_vitoria(s: SessaoVisao, meu: Simbolo)
    requires
        placar_cabe(s, meu),
    ensures
        com_placar(s, meu).jogo == s.jogo,
        com_placar(s, meu).estado == s.estado,
        s.jogo.resultado == Some(Resultado::Vitoria(meu)) ==> com_placar(s, meu).vitorias
            == s.vitorias + 1 && com_placar(s, meu).derrotas == s.derrotas,
        s.jogo.resultado == Some(Resultado::Vitoria(simbolo_oposto(meu))) ==> com_placar(
            s,
            meu,
        ).derrotas == s.derrotas + 1 && com_placar(s, meu).vitorias == s.vitorias,
        !(s.jogo.resultado matches Some(Resultado::Vitoria(_))) ==> com_placar(s, meu) == s,
{
    lei_oposto_involucao(meu);
}

/// Com oponente, pode-se pedir nova partida exatamente quando a partida atual terminou, em
/// vitória ou em empate; o pedido começa a partida de número seguinte, com o tabuleiro vazio,
/// e apaga o aviso. Sem oponente, não se pode pedir.
pub proof fn lei_nova_partida_apos_qualquer_resultado(s: SessaoVisao)
    ensures
        pode_pedir(s) == (s.estado is Jogando && s.jogo.resultado is Some),
        s.estado is AguardandoOponente ==> !pode_pedir(s) && apos_pedido(s) == s,
        s.estado is Jogando && s.jogo.resultado == Some(Resultado::Empate) && s.jogo.partida
            < u32::MAX ==> {
            &&& pode_pedir(s)
            &&& apos_pedido(s).jogo == jogo_da_partida((s.jogo.partida + 1) as u32)
            &&& apos_pedido(s).aviso is None
        },
{
}

/// O texto de status diz a situação da partida a quem joga: vitória própria, derrota,
/// empate; e, no meio da partida, se é a sua vez (com o seu símbolo) ou a do oponente.
pub proof fn lei_texto_do_status(s: SessaoVisao)
    requires
        s.estado is Jogando,
    ensures
        ({
            let meu = s.estado->meu_simbolo;
            &&& s.jogo.resultado == Some(Resultado::Vitoria(meu)) ==> status_de(s) == "Você venceu!"@
            &&& s.jogo.resultado == Some(Resultado::Vitoria(simbolo_oposto(meu))) ==> status_de(s)
                == "Você perdeu."@
            &&& s.jogo.resultado == Some(Resultado::Empate) ==> status_de(s) == "Deu velha! Empate."@
            &&& s.jogo.resultado is None && !tabuleiro_vazio(s.jogo.tabuleiro) && s.jogo.vez == meu
                ==> status_de(s) == "Sua vez ("@ + texto_do_simbolo(meu) + ")."@
            &&& s.jogo.resultado is None && !tabuleiro_vazio(s.jogo.tabuleiro) && s.jogo.vez != meu
                ==> status_de(s) == "Vez do oponente..."@
        }),
{
    lei_oposto_involucao(s.estado->meu_simbolo);
}

/// Os dois jogadores de uma partida em curso, com o mesmo jogo e símbolos opostos, recebem
/// textos de vez complementares: exatamente um deles lê que é a vez do oponente.
pub proof fn lei_vez_complementar(a: SessaoVisao, b: SessaoVisao)
    requires
        a.jogo == b.jogo,
        a.estado matches Estado::Jogando { meu_simbolo },
        b.estado == (Estado::Jogando { meu_simbolo: simbolo_oposto(a.estado->meu_simbolo) }),
        a.jogo.resultado is None,
        !tabuleiro_vazio(a.jogo.tabuleiro),
    ensures
        (status_de(a) == "Vez do oponente..."@) != (status_de(b) == "Vez do oponente..."@),
{
    let m = a.estado->meu_simbolo;
    lei_oposto_involucao(m);
    reveal_strlit("Sua vez (");
    reveal_strlit("Vez do oponente...");
    let t = if a.jogo.vez == m { status_de(a) } else { status_de(b) };
    assert(t[0] == 'S');
    assert("Vez do oponente..."@[0] == 'V');
}

/// Uma mensagem de nova partida nunca faz o número da partida voltar.
pub proof fn lei_partida_nao_recua(s: SessaoVisao, partida: u32)
    ensures
        apos_evento(
            s,
            EventoRedeVisao::MensagemRecebida(Mensagem::NovaPartida { partida }),
        ).jogo.partida >= s.jogo.partida,
{
}

impl Sessao {
    /// A sessão de quem acaba de abrir o programa.
    pub fn new() -> (r: Sessao)
        ensures
            r@ == sessao_inicial(),
            r.bem_formada(),
    {
        Sessao {
            estado: Estado::AguardandoOponente,
            jogo: Jogo::new(),
            aviso: None,
            status_rede: String::new(),
            vitorias: 0,
            derrotas: 0,
        }
    }

    /// O jogo da sessão está coerente.
    pub open spec fn bem_formada(&self) -> bool {
        self.jogo@.bem_formado()
    }

    /// Se o placar cabe num `u32` depois de contar, para `meu_simbolo`, o resultado do jogo `j`.
    fn placar_cabe_com(&self, j: &Jogo, meu_simbolo: Simbolo) -> (r: bool)
        ensures
            r == placar_cabe(com_jogo(self@, j@), meu_simbolo),
    {
        match j.resultado {
            Some(Resultado::Vitoria(vencedor)) => if vencedor == meu_simbolo {
                self.vitorias < u32::MAX
            } else {
                self.derrotas < u32::MAX
            },
            _ => true,
        }
    }

    /// Se o evento pode ser tratado sem que o placar transborde (`evento_cabe`).
    pub fn cabe_evento(&self, evento: &EventoRede) -> (r: bool)
        ensures
            r == evento_cabe(self@, evento@),
    {
        match (evento, self.estado) {
            (
                EventoRede::MensagemRecebida(Mensagem::Jogada { posicao }),
                Estado::Jogando { meu_simbolo },
            ) => {
                let mut j = Jogo {
                    tabuleiro: self.jogo.tabuleiro,
                    vez: self.jogo.vez,
                    resultado: self.jogo.resultado,
                    partida: self.jogo.partida,
                };
                if j.jogar(*posicao as usize, meu_simbolo.oposto()) {
                    self.placar_cabe_com(&j, meu_simbolo)
                } else {
                    true
                }
            },
            _ => true,
        }
    }

    /// Se o clique na casa `posicao` pode ser tratado sem que o placar transborde
    /// (`clique_cabe`).
    pub fn cabe_clique(&self, posicao: usize) -> (r: bool)
        ensures
            r == clique_cabe(self@, posicao as int),
    {
        match self.estado {
            Estado::Jogando { meu_simbolo } => {
                let mut j = Jogo {
                    tabuleiro: self.jogo.tabuleiro,
                    vez: self.jogo.vez,
                    resultado: self.jogo.resultado,
                    partida: self.jogo.partida,
                };
                if j.jogar(posicao, meu_simbolo) {
                    self.placar_cabe_com(&j, meu_simbolo)
                } else {
                    true
                }
            },
            Estado::AguardandoOponente => true,
        }
    }

    /// Conta no placar o resultado do jogo, do ponto de vista de `meu_simbolo`.
    pub fn atualizar_placar(&mut self, meu_simbolo: Simbolo)
        requires
            placar_cabe(old(self)@, meu_simbolo),
        ensures
            final(self)@ == com_placar(old(self)@, meu_simbolo),
    {
        if let Some(Resultado::Vitoria(vencedor)) = self.jogo.resultado {
            if vencedor == meu_simbolo {
                self.vitorias = self.vitorias + 1;
            } else {
                self.derrotas = self.derrotas + 1;
            }
        }
    }

    /// Trata um evento vindo da rede.
    pub fn processar_evento(&mut self, evento: EventoRede)
        requires
            evento_cabe(old(self)@, evento@),
        ensures
            final(self)@ == apos_evento(old(self)@, evento@),
            old(self).bem_formada() ==> final(self).bem_formada(),
    {
        let ghost s0 = self@;
        match evento {
            EventoRede::OponenteConectado { sou_x } => {
                let meu_simbolo = if sou_x {
                    Simbolo::X
                } else {
                    Simbolo::O
                };
                self.estado = Estado::Jogando { meu_simbolo };
                self.jogo.reiniciar();
                self.aviso = None;
            },
            EventoRede::OponenteDesconectado => {
                self.estado = Estado::AguardandoOponente;
                self.jogo.reiniciar();
                self.aviso = Some(String::from_str("O oponente se desconectou."));
            },
            EventoRede::MensagemRecebida(Mensagem::Jogada { posicao }) => {
                if let Estado::Jogando { meu_simbolo } = self.estado {
                    if self.jogo.jogar(posicao as usize, meu_simbolo.oposto()) {
                        self.atualizar_placar(meu_simbolo);
                    } else {
                        let mut aviso = String::from_str("Jogada inválida recebida (casa ");
                        escrever_decimal(&mut aviso, posicao as u64);
                        aviso.append(").");
                        self.aviso = Some(aviso);
                    }
                }
            },
            EventoRede::MensagemRecebida(Mensagem::NovaPartida { partida }) => {
                if partida > self.jogo.partida {
                    self.jogo.nova_partida(partida);
                    self.aviso = None;
                }
            },
            EventoRede::Status(texto) => {
                self.status_rede = texto;
            },
            EventoRede::Erro(texto) => {
                self.aviso = Some(texto);
            },
        }
    }

    /// O texto de status mostrado ao jogador.
    pub fn texto_status(&self) -> (r: String)
        requires
            self@.estado is Jogando && self@.jogo.resultado is None && tabuleiro_vazio(
                self@.jogo.tabuleiro,
            ) ==> self@.jogo.partida < u32::MAX,
        ensures
            r@ == status_de(self@),
    {
        match self.estado {
            Estado::AguardandoOponente => String::from_str("Procurando oponente na rede local..."),
            Estado::Jogando { meu_simbolo } => match self.jogo.resultado {
                Some(Resultado::Vitoria(vencedor)) => {
                    if vencedor == meu_simbolo {
                        String::from_str("Você venceu!")
                    } else {
                        String::from_str("Você perdeu.")
                    }
                },
                Some(Resultado::Empate) => String::from_str("Deu velha! Empate."),
                None => {
                    if self.jogo.vazio() {
                        let numero = self.jogo.partida + 1;
                        let mut t = String::from_str("Partida ");
                        escrever_decimal(&mut t, numero as u64);
                        t.append(". Você é ");
                        let simbolo = meu_simbolo.texto();
                        t.append(simbolo.as_str());
                        if self.jogo.vez == meu_simbolo {
                            t.append(" e joga primeiro!");
                        } else {
                            t.append(", o oponente começa.");
                        }
                        t
                    } else if self.jogo.vez == meu_simbolo {
                        let mut t = String::from_str("Sua vez (");
                        let simbolo = meu_simbolo.texto();
                        t.append(simbolo.as_str());
                        t.append(").");
                        t
                    } else {
                        String::from_str("Vez do oponente...")
                    }
                },
            },
        }
    }

    /// O texto do placar.
    pub fn texto_placar(&self) -> (r: String)
        ensures
            r@ == placar_de(self@),
    {
        let mut t = String::from_str("Vitórias: ");
        escrever_decimal(&mut t, self.vitorias as u64);
        t.append(" | Derrotas: ");
        escrever_decimal(&mut t, self.derrotas as u64);
        t
    }

    /// O texto da casa `posicao` do tabuleiro: o símbolo que a ocupa, ou nada.
    pub fn texto_casa(&self, posicao: usize) -> (r: String)
        requires
            posicao < 9,
        ensures
            r@ == match self@.jogo.tabuleiro[posicao as int] {
                Some(s) => texto_do_simbolo(s),
                None => Seq::empty(),
            },
    {
        match self.jogo.tabuleiro[posicao] {
            Some(simbolo) => simbolo.texto(),
            None => String::new(),
        }
    }

    /// O status da rede aparece enquanto se procura oponente e há algo a mostrar.
    pub fn mostra_status_rede(&self) -> (r: bool)
        ensures
            r == (self@.estado is AguardandoOponente && self@.status_rede.len() != 0),
    {
        match self.estado {
            Estado::AguardandoOponente => !self.status_rede.as_str().is_empty(),
            Estado::Jogando { .. } => false,
        }
    }

    /// Trata o clique do jogador na casa `posicao`; devolve a jogada a enviar ao oponente,
    /// se o clique valeu.
    pub fn clicar_casa(&mut self, posicao: usize) -> (r: Option<Mensagem>)
        requires
            posicao < 9,
            clique_cabe(old(self)@, posicao as int),
        ensures
            final(self)@ == apos_clique(old(self)@, posicao as int),
            r == (if clique_vale(old(self)@, posicao as int) {
                Some(Mensagem::Jogada { posicao: posicao as u8 })
            } else {
                None
            }),
            old(self).bem_formada() ==> final(self).bem_formada(),
    {
        let meu_simbolo = match self.estado {
            Estado::Jogando { meu_simbolo } => Some(meu_simbolo),
            Estado::AguardandoOponente => None,
        };
        let minha_vez = meu_simbolo == Some(self.jogo.vez) && self.jogo.resultado.is_none();
        let pode_jogar = minha_vez && self.jogo.tabuleiro[posicao].is_none();
        if pode_jogar {
            if let Some(simbolo) = meu_simbolo {
                if self.jogo.jogar(posicao, simbolo) {
                    self.atualizar_placar(simbolo);
                    return Some(Mensagem::Jogada { posicao: posicao as u8 });
                }
            }
        }
        None
    }

    /// Se o botão de nova partida aparece: há oponente e a partida terminou.
    pub fn pode_pedir_nova_partida(&self) -> (r: bool)
        ensures
            r == pode_pedir(self@),
    {
        match self.estado {
            Estado::Jogando { .. } => self.jogo.resultado.is_some(),
            Estado::AguardandoOponente => false,
        }
    }

    /// Começa a partida seguinte, se for possível; devolve a mensagem a enviar ao oponente.
    pub fn pedir_nova_partida(&mut self) -> (r: Option<Mensagem>)
        requires
            pode_pedir(old(self)@) ==> old(self)@.jogo.partida < u32::MAX,
        ensures
            final(self)@ == apos_pedido(old(self)@),
            r == (if pode_pedir(old(self)@) {
                Some(Mensagem::NovaPartida { partida: (old(self)@.jogo.partida + 1) as u32 })
            } else {
                None
            }),
            old(self).bem_formada() ==> final(self).bem_formada(),
    {
        if !self.pode_pedir_nova_partida() {
            return None;
        }
        let proxima = self.jogo.partida + 1;
        self.jogo.nova_partida(proxima);
        self.aviso = None;
        Some(Mensagem::NovaPartida { partida: proxima })
    }
}

} // verus!
