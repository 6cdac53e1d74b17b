//! As decisões da camada de rede P2P: o que fazer diante de cada evento do swarm.
//!
//! O laço de eventos, o swarm e a (de)serialização ficam com quem executa a rede; aqui está
//! o estado (quem é o oponente) e a reação a cada evento, na forma de ações a executar.
use crate::par::{nome_do_par, precede_par, IdPar};
use vstd::prelude::*;

verus! {

/// O tópico gossipsub em que as jogadas são trocadas.
pub const TOPICO: &'static str = "jogo-da-velha";

/// Uma mensagem trocada entre os dois jogadores.
#[derive(Clone, Copy, Debug, PartialEq, Eq, Structural)]
pub enum Mensagem {
    Jogada { posicao: u8 },
    NovaPartida { partida: u32 },
}

/// Um pedido da interface para a rede.
pub enum Comando {
    Publicar(Mensagem),
}

/// Um aviso da rede para a interface.
pub enum EventoRede {
    OponenteConectado { sou_x: bool },
    OponenteDesconectado,
    MensagemRecebida(Mensagem),
    Status(String),
    Erro(String),
}

/// `EventoRede` com os textos como sequências de caracteres.
pub enum EventoRedeVisao {
    OponenteConectado { sou_x: bool },
    OponenteDesconectado,
    MensagemRecebida(Mensagem),
    Status(Seq<char>),
    Erro(Seq<char>),
}

impl View for EventoRede {
    type V = EventoRedeVisao;

    open spec fn view(&self) -> EventoRedeVisao {
        match self {
            EventoRede::OponenteConectado { sou_x } => EventoRedeVisao::OponenteConectado {
                sou_x: *sou_x,
            },
            EventoRede::OponenteDesconectado => EventoRedeVisao::OponenteDesconectado,
            EventoRede::MensagemRecebida(m) => EventoRedeVisao::MensagemRecebida(*m),
            EventoRede::Status(s) => EventoRedeVisao::Status(s@),
            EventoRede::Erro(s) => EventoRedeVisao::Erro(s@),
        }
    }
}

/// Uma ação que a rede deve executar.
pub enum Acao {
    /// Avisar a interface.
    Notificar(EventoRede),
    /// Tornar o par um par explícito do gossipsub.
    AdicionarExplicito(IdPar),
    /// Deixar de tratar o par como par explícito do gossipsub.
    RemoverExplicito(IdPar),
    /// Discar para o par, pelos endereços dados.
    Discar { par: IdPar, enderecos: Vec<String> },
}

/// `Acao` com identidades e textos como sequências.
pub enum AcaoVisao {
    Notificar(EventoRedeVisao),
    AdicionarExplicito(Seq<u8>),
    RemoverExplicito(Seq<u8>),
    Discar { par: Seq<u8>, enderecos: Seq<Seq<char>> },
}

/// Os textos de um vetor de `String`.
pub open spec fn visao_textos(v: Seq<String>) -> Seq<Seq<char>> {
    v.map_values(|s: String| s@)
}

impl View for Acao {
    type V = AcaoVisao;

    open spec fn view(&self) -> AcaoVisao {
        match self {
            Acao::Notificar(e) => AcaoVisao::Notificar(e@),
            Acao::AdicionarExplicito(p) => AcaoVisao::AdicionarExplicito(p@),
            Acao::RemoverExplicito(p) => AcaoVisao::RemoverExplicito(p@),
            Acao::Discar { par, enderecos } => AcaoVisao::Discar {
                par: par@,
                enderecos: visao_textos(enderecos@),
            },
        }
    }
}

/// As ações de um vetor, como sequência de `AcaoVisao`.
pub open spec fn visao_acoes(v: Seq<Acao>) -> Seq<AcaoVisao> {
    v.map_values(|a: Acao| a@)
}

/// Um par descoberto por mDNS num endereço, e se já há conexão com ele.
pub struct Descoberta {
    pub par: IdPar,
    pub endereco: String,
    pub conectado: bool,
}

/// `Descoberta` com identidade e endereço como sequências.
pub struct DescobertaVisao {
    pub par: Seq<u8>,
    pub endereco: Seq<char>,
    pub conectado: bool,
}

impl View for Descoberta {
    type V = DescobertaVisao;

    open spec fn view(&self) -> DescobertaVisao {
        DescobertaVisao { par: self.par@, endereco: self.endereco@, conectado: self.conectado }
    }
}

/// As descobertas de um vetor, como sequência de `DescobertaVisao`.
pub open spec fn visao_descobertas(v: Seq<Descoberta>) -> Seq<DescobertaVisao> {
    v.map_values(|d: Descoberta| d@)
}

/// As identidades de um vetor, como sequência de bytes.
pub open spec fn visao_pares(v: Seq<IdPar>) -> Seq<Seq<u8>> {
    v.map_values(|p: IdPar| p@)
}

/// Um evento do swarm, com os valores que a decisão lê.
pub enum EventoSwarm {
    /// O swarm passou a escutar num endereço (o texto do `Multiaddr`).
    EscutandoEm { endereco: String },
    /// O mDNS descobriu pares, cada um num endereço.
    Descobertos(Vec<Descoberta>),
    /// A discagem para o par falhou de imediato (o texto do erro).
    FalhaDiscagem { par: IdPar, erro: String },
    /// Uma conexão de saída falhou (o texto de depuração do par, se havia, e do erro).
    ErroConexaoSaida { par: String, erro: String },
    /// Uma conexão com o par foi estabelecida.
    ConexaoEstabelecida { par: IdPar },
    /// O mDNS deixou de ver esses pares.
    Expirados(Vec<IdPar>),
    /// O par se inscreveu no tópico cujo hash é `topico`.
    Inscrito { par: IdPar, topico: String },
    /// O par saiu de um tópico.
    Desinscrito { par: IdPar },
    /// Chegou uma mensagem gossipsub, com a origem, se assinada, e o conteúdo, se é uma
    /// `Mensagem` válida.
    MensagemGossip { fonte: Option<IdPar>, conteudo: Option<Mensagem> },
    /// Uma conexão com o par foi encerrada; restam `restantes` conexões com ele.
    ConexaoEncerrada { par: IdPar, restantes: u32, causa: String },
    /// A publicação de uma mensagem falhou (o texto de depuração do erro).
    FalhaPublicacao { erro: String },
}

/// `EventoSwarm` com identidades e textos como sequências.
pub enum EventoSwarmVisao {
    EscutandoEm { endereco: Seq<char> },
    Descobertos(Seq<DescobertaVisao>),
    FalhaDiscagem { par: Seq<u8>, erro: Seq<char> },
    ErroConexaoSaida { par: Seq<char>, erro: Seq<char> },
    ConexaoEstabelecida { par: Seq<u8> },
    Expirados(Seq<Seq<u8>>),
    Inscrito { par: Seq<u8>, topico: Seq<char> },
    Desinscrito { par: Seq<u8> },
    MensagemGossip { fonte: Option<Seq<u8>>, conteudo: Option<Mensagem> },
    ConexaoEncerrada { par: Seq<u8>, restantes: u32, causa: Seq<char> },
    FalhaPublicacao { erro: Seq<char> },
}

/// A identidade opcional como bytes opcionais.
pub open spec fn visao_par_opcional(p: Option<IdPar>) -> Option<Seq<u8>> {
    match p {
        Some(q) => Some(q@),
        None => None,
    }
}

impl View for EventoSwarm {
    type V = EventoSwarmVisao;

    open spec fn view(&self) -> EventoSwarmVisao {
        match self {
            EventoSwarm::EscutandoEm { endereco } => EventoSwarmVisao::EscutandoEm {
                endereco: endereco@,
            },
            EventoSwarm::Descobertos(d) => EventoSwarmVisao::Descobertos(visao_descobertas(d@)),
            EventoSwarm::FalhaDiscagem { par, erro } => EventoSwarmVisao::FalhaDiscagem {
                par: par@,
                erro: erro@,
            },
            EventoSwarm::ErroConexaoSaida { par, erro } => EventoSwarmVisao::ErroConexaoSaida {
                par: par@,
                erro: erro@,
            },
            EventoSwarm::ConexaoEstabelecida { par } => EventoSwarmVisao::ConexaoEstabelecida {
                par: par@,
            },
            EventoSwarm::Expirados(ps) => EventoSwarmVisao::Expirados(visao_pares(ps@)),
            EventoSwarm::Inscrito { par, topico } => EventoSwarmVisao::Inscrito {
                par: par@,
                topico: topico@,
            },
            EventoSwarm::Desinscrito { par } => EventoSwarmVisao::Desinscrito { par: par@ },
            EventoSwarm::MensagemGossip { fonte, conteudo } => EventoSwarmVisao::MensagemGossip {
                fonte: visao_par_opcional(*fonte),
                conteudo: *conteudo,
            },
            EventoSwarm::ConexaoEncerrada { par, restantes, causa } =>
                EventoSwarmVisao::ConexaoEncerrada { par: par@, restantes: *restantes, causa: causa@ },
            EventoSwarm::FalhaPublicacao { erro } => EventoSwarmVisao::FalhaPublicacao {
                erro: erro@,
            },
        }
    }
}

/// O estado da rede visto como valores: o par local e o oponente, se houver.
pub struct ControleVisao {
    pub local: Seq<u8>,
    pub oponente: Option<Seq<u8>>,
}

/// O estado que a rede guarda entre eventos.
pub struct ControleRede {
    local: IdPar,
    oponente: Option<IdPar>,
}

impl View for ControleRede {
    type V = ControleVisao;

    closed spec fn view(&self) -> ControleVisao {
        ControleVisao { local: self.local@, oponente: visao_par_opcional(self.oponente) }
    }
}

/// A ação de avisar a interface com um texto de status.
pub open spec fn status(texto: Seq<char>) -> AcaoVisao {
    AcaoVisao::Notificar(EventoRedeVisao::Status(texto))
}

/// O par `i` das descobertas já apareceu antes, numa posição menor.
pub open spec fn ja_visto(d: Seq<DescobertaVisao>, i: int) -> bool {
    exists|j: int| 0 <= j < i && (#[trigger] d[j]).par == d[i].par
}

/// Os endereços em que o par `p` foi descoberto, entre as `n` primeiras descobertas, em ordem.
pub open spec fn enderecos_do_par(d: Seq<DescobertaVisao>, p: Seq<u8>, n: int) -> Seq<Seq<char>>
    decreases n,
{
    if n <= 0 {
        seq![]
    } else {
        let r = enderecos_do_par(d, p, n - 1);
        if d[n - 1].par == p {
            r.push(d[n - 1].endereco)
        } else {
            r
        }
    }
}

/// As ações para o par que aparece pela primeira vez na descoberta `i`: nada, se já há
/// conexão; discar, se o par local vem antes dele; esperar que ele disque, se não.
pub open spec fn acoes_do_grupo(local: Seq<u8>, d: Seq<DescobertaVisao>, i: int) -> Seq<
    AcaoVisao,
> {
    let x = d[i];
    if x.conectado {
        seq![]
    } else if precede_par(local, x.par) {
        seq![
            status("Peer encontrado, discando: "@ + nome_do_par(x.par)),
            AcaoVisao::Discar { par: x.par, enderecos: enderecos_do_par(d, x.par, d.len() as int) },
        ]
    } else {
        seq![status("Peer encontrado, aguardando conexão: "@ + nome_do_par(x.par))]
    }
}

/// As ações de todos os pares distintos entre as `n` primeiras descobertas, na ordem em que
/// cada par aparece pela primeira vez.
pub open spec fn acoes_dos_grupos(local: Seq<u8>, d: Seq<DescobertaVisao>, n: int) -> Seq<
    AcaoVisao,
>
    decreases n,
{
    if n <= 0 {
        seq![]
    } else {
        let r = acoes_dos_grupos(local, d, n - 1);
        if ja_visto(d, n - 1) {
            r
        } else {
            r + acoes_do_grupo(local, d, n - 1)
        }
    }
}

/// As ações de uma descoberta: cada par vira par explícito, na ordem dada; depois, par a
/// par, as decisões de discagem.
pub open spec fn acoes_de_descoberta(local: Seq<u8>, d: Seq<DescobertaVisao>) -> Seq<AcaoVisao> {
    Seq::new(d.len(), |i: int| AcaoVisao::AdicionarExplicito(d[i].par)) + acoes_dos_grupos(
        local,
        d,
        d.len() as int,
    )
}

/// O evento é a inscrição de um par no tópico do jogo, sem oponente ainda.
pub open spec fn novo_oponente(c: ControleVisao, e: EventoSwarmVisao) -> bool {
    e matches EventoSwarmVisao::Inscrito { par, topico } && topico == TOPICO@ && c.oponente is None
}

/// O evento faz o oponente atual ir embora.
pub open spec fn oponente_saiu(c: ControleVisao, e: EventoSwarmVisao) -> bool {
    match e {
        EventoSwarmVisao::Desinscrito { par } => c.oponente == Some(par),
        EventoSwarmVisao::ConexaoEncerrada { par, restantes, .. } => c.oponente == Some(par)
            && restantes == 0,
        _ => false,
    }
}

/// O estado depois do evento.
pub open spec fn estado_apos(c: ControleVisao, e: EventoSwarmVisao) -> ControleVisao {
    if novo_oponente(c, e) {
        ControleVisao { local: c.local, oponente: Some(e->Inscrito_par) }
    } else if oponente_saiu(c, e) {
        ControleVisao { local: c.local, oponente: None }
    } else {
        c
    }
}

/// As ações que o evento pede.
pub open spec fn acoes_de(c: ControleVisao, e: EventoSwarmVisao) -> Seq<AcaoVisao> {
    match e {
        EventoSwarmVisao::EscutandoEm { endereco } => seq![status("Escutando em "@ + endereco)],
        EventoSwarmVisao::Descobertos(d) => acoes_de_descoberta(c.local, d),
        EventoSwarmVisao::FalhaDiscagem { par, erro } => seq![
            status("Falha ao discar para "@ + nome_do_par(par) + ": "@ + erro),
        ],
        EventoSwarmVisao::ErroConexaoSaida { par, erro } => seq![
            status("Erro ao conectar com "@ + par + ": "@ + erro),
        ],
        EventoSwarmVisao::ConexaoEstabelecida { par } => seq![
            status("Conectado a "@ + nome_do_par(par) + ", aguardando inscrição no tópico"@),
        ],
        EventoSwarmVisao::Expirados(ps) => Seq::new(
            ps.len(),
            |i: int| AcaoVisao::RemoverExplicito(ps[i]),
        ),
        EventoSwarmVisao::Inscrito { par, topico } => if novo_oponente(c, e) {
            seq![
                AcaoVisao::Notificar(
                    EventoRedeVisao::OponenteConectado { sou_x: precede_par(c.local, par) },
                ),
            ]
        } else {
            seq![]
        },
        EventoSwarmVisao::Desinscrito { par } => if oponente_saiu(c, e) {
            seq![AcaoVisao::Notificar(EventoRedeVisao::OponenteDesconectado)]
        } else {
            seq![]
        },
        EventoSwarmVisao::MensagemGossip { fonte, conteudo } => if fonte is Some && fonte
            == c.oponente {
            match conteudo {
                Some(m) => seq![AcaoVisao::Notificar(EventoRedeVisao::MensagemRecebida(m))],
                None => seq![
                    AcaoVisao::Notificar(EventoRedeVisao::Erro("Mensagem inválida recebida."@)),
                ],
            }
        } else {
            seq![]
        },
        EventoSwarmVisao::ConexaoEncerrada { par, restantes, causa } => seq![
            status("Conexão encerrada com "@ + nome_do_par(par) + ": "@ + causa),
        ] + if oponente_saiu(c, e) {
            seq![AcaoVisao::Notificar(EventoRedeVisao::OponenteDesconectado)]
        } else {
            seq![]
        },
        EventoSwarmVisao::FalhaPublicacao { erro } => seq![
            AcaoVisao::Notificar(EventoRedeVisao::Erro("Falha ao enviar jogada: "@ + erro)),
        ],
    }
}

/// Toda discagem entre as ações vai para um par que, na mesma situação, esperaria a nossa.
pub open spec fn discagens_sem_cruzamento(local: Seq<u8>, acoes: Seq<AcaoVisao>) -> bool {
    forall|k: int|
        0 <= k < acoes.len() ==> ((#[trigger] acoes[k]) matches AcaoVisao::Discar { par, .. }
            ==> precede_par(local, par) && !precede_par(par, local))
}

/// O texto `a` seguido de `b`.
fn juntar(a: &str, b: &str) -> (r: String)
    ensures
        r@ == a@ + b@,
{
    let mut s = String::from_str(a);
    s.append(b);
    s
}

/// O texto `a`, seguido de `b`, `c` e `d`.
fn juntar4(a: &str, b: &str, c: &str, d: &str) -> (r: String)
    ensures
        r@ == a@ + b@ + c@ + d@,
{
    let mut s = String::from_str(a);
    s.append(b);
    s.append(c);
    s.append(d);
    s
}

/// Acrescenta as ações de `extra` ao fim de `acoes`.
fn acrescentar(acoes: &mut Vec<Acao>, extra: Vec<Acao>)
    ensures
        visao_acoes(final(acoes)@) == visao_acoes(old(acoes)@) + visao_acoes(extra@),
{
    let mut extra = extra;
    let ghost a = acoes@;
    let ghost b = extra@;
    acoes.append(&mut extra);
    proof {
        assert(visao_acoes(acoes@) =~= visao_acoes(a) + visao_acoes(b));
    }
}

/// Uma única ação de status.
fn so_status(texto: String) -> (r: Vec<Acao>)
    ensures
        visao_acoes(r@) == seq![status(texto@)],
{
    let mut r: Vec<Acao> = Vec::new();
    r.push(Acao::Notificar(EventoRede::Status(texto)));
    proof {
        assert(visao_acoes(r@) =~= seq![status(texto@)]);
    }
    r
}

/// Uma única ação de aviso à interface.
fn so_notificar(e: EventoRede) -> (r: Vec<Acao>)
    ensures
        visao_acoes(r@) == seq![AcaoVisao::Notificar(e@)],
{
    let ghost v = e@;
    let mut r: Vec<Acao> = Vec::new();
    r.push(Acao::Notificar(e));
    proof {
        assert(visao_acoes(r@) =~= seq![AcaoVisao::Notificar(v)]);
    }
    r
}

/// Se o par da descoberta `i` já apareceu numa descoberta anterior.
fn visto_antes(d: &Vec<Descoberta>, i: usize) -> (r: bool)
    requires
        i < d.len(),
    ensures
        r == ja_visto(visao_descobertas(d@), i as int),
{
    let ghost dv = visao_descobertas(d@);
    let mut j: usize = 0;
    while j < i
        invariant
            i < d.len(),
            dv == visao_descobertas(d@),
            j <= i,
            forall|k: int| 0 <= k < j ==> (#[trigger] dv[k]).par != dv[i as int].par,
        decreases i - j,
    {
        if d[j].par.mesmo(&d[i].par) {
            proof {
                assert(dv[j as int].par == dv[i as int].par);
            }
            return true;
        }
        j = j + 1;
    }
    false
}

/// Os endereços em que o par `p` aparece nas descobertas, em ordem.
fn enderecos_de(d: &Vec<Descoberta>, p: &IdPar) -> (r: Vec<String>)
    ensures
        visao_textos(r@) == enderecos_do_par(visao_descobertas(d@), p@, d@.len() as int),
{
    let ghost dv = visao_descobertas(d@);
    let mut r: Vec<String> = Vec::new();
    let n = d.len();
    let mut k: usize = 0;
    while k < n
        invariant
            n == d.len(),
            dv == visao_descobertas(d@),
            k <= n,
            visao_textos(r@) == enderecos_do_par(dv, p@, k as int),
        decreases n - k,
    {
        if d[k].par.mesmo(p) {
            let e = d[k].endereco.clone();
            let ghost antes = r@;
            r.push(e);
            proof {
                assert(visao_textos(r@) =~= visao_textos(antes).push(dv[k as int].endereco));
            }
        }
        k = k + 1;
    }
    r
}

/// O par local nunca muda; o oponente só muda quando um par se inscreve no tópico do jogo
/// sem haver oponente, ou quando o oponente vai embora (e então a interface é avisada).
pub proof fn lei_oponente_estavel(c: ControleVisao, e: EventoSwarmVisao)
    ensures
        estado_apos(c, e).local == c.local,
        estado_apos(c, e).oponente != c.oponente ==> {
            ||| novo_oponente(c, e) && estado_apos(c, e).oponente == Some(e->Inscrito_par)
            ||| oponente_saiu(c, e) && estado_apos(c, e).oponente is None && acoes_de(
                c,
                e,
            ).contains(AcaoVisao::Notificar(EventoRedeVisao::OponenteDesconectado))
        },
{
    if oponente_saiu(c, e) {
        let a = acoes_de(c, e);
        if e is Desinscrito {
            assert(a[0] == AcaoVisao::Notificar(EventoRedeVisao::OponenteDesconectado));
        } else {
            assert(a[1] == AcaoVisao::Notificar(EventoRedeVisao::OponenteDesconectado));
        }
    }
}

/// A ação só avisa a interface de um texto de status, ou é uma discagem.
pub open spec fn status_ou_discagem(a: AcaoVisao) -> bool {
    a matches AcaoVisao::Notificar(EventoRedeVisao::Status(_)) || a is Discar
}

/// As ações dos grupos de uma descoberta são só textos de status e discagens.
proof fn lema_grupos_so_status(local: Seq<u8>, d: Seq<DescobertaVisao>, n: int)
    ensures
        forall|k: int|
            0 <= k < acoes_dos_grupos(local, d, n).len() ==> status_ou_discagem(
                #[trigger] acoes_dos_grupos(local, d, n)[k],
            ),
    decreases n,
{
    if n > 0 {
        lema_grupos_so_status(local, d, n - 1);
        let r = acoes_dos_grupos(local, d, n - 1);
        if !ja_visto(d, n - 1) {
            let g = acoes_do_grupo(local, d, n - 1);
            assert forall|k: int| 0 <= k < (r + g).len() implies status_ou_discagem(
                #[trigger] (r + g)[k],
            ) by {
                if k >= r.len() {
                    assert((r + g)[k] == g[k - r.len()]);
                } else {
                    assert((r + g)[k] == r[k]);
                }
            }
        }
    }
}

/// O aviso de oponente que a ação dá à interface: `true` para um oponente que chegou,
/// `false` para um que foi embora.
pub open spec fn aviso_de_oponente(a: AcaoVisao) -> Option<bool> {
    match a {
        AcaoVisao::Notificar(EventoRedeVisao::OponenteConectado { .. }) => Some(true),
        AcaoVisao::Notificar(EventoRedeVisao::OponenteDesconectado) => Some(false),
        _ => None,
    }
}

/// Os avisos de oponente das ações, em ordem.
pub open spec fn avisos_de_oponente(a: Seq<AcaoVisao>) -> Seq<bool>
    decreases a.len(),
{
    if a.len() == 0 {
        seq![]
    } else {
        let r = avisos_de_oponente(a.drop_last());
        match aviso_de_oponente(a.last()) {
            Some(b) => r.push(b),
            None => r,
        }
    }
}

/// O estado depois de uma sequência de eventos.
pub open spec fn estado_apos_sequencia(c: ControleVisao, es: Seq<EventoSwarmVisao>) -> ControleVisao
    decreases es.len(),
{
    if es.len() == 0 {
        c
    } else {
        estado_apos(estado_apos_sequencia(c, es.drop_last()), es.last())
    }
}

/// Todas as ações de uma sequência de eventos, em ordem.
pub open spec fn acoes_da_sequencia(c: ControleVisao, es: Seq<EventoSwarmVisao>) -> Seq<AcaoVisao>
    decreases es.len(),
{
    if es.len() == 0 {
        seq![]
    } else {
        acoes_da_sequencia(c, es.drop_last()) + acoes_de(
            estado_apos_sequencia(c, es.drop_last()),
            es.last(),
        )
    }
}

/// Os avisos de oponente de uma concatenação são os de cada parte, em ordem.
proof fn lema_avisos_concatenados(a: Seq<AcaoVisao>, b: Seq<AcaoVisao>)
    ensures
        avisos_de_oponente(a + b) == avisos_de_oponente(a) + avisos_de_oponente(b),
    decreases b.len(),
{
    if b.len() == 0 {
        assert(a + b =~= a);
        assert(avisos_de_oponente(a) + avisos_de_oponente(b) =~= avisos_de_oponente(a));
    } else {
        assert((a + b).drop_last() =~= a + b.drop_last());
        assert((a + b).last() == b.last());
        lema_avisos_concatenados(a, b.drop_last());
        let ra = avisos_de_oponente(a);
        let rb = avisos_de_oponente(b.drop_last());
        match aviso_de_oponente(b.last()) {
            Some(x) => {
                assert((ra + rb).push(x) =~= ra + rb.push(x));
            },
            None => {},
        }
    }
}

/// Ações sem aviso de oponente não dão aviso algum.
proof fn lema_sem_avisos(a: Seq<AcaoVisao>)
    requires
        forall|k: int| 0 <= k < a.len() ==> aviso_de_oponente(#[trigger] a[k]) is None,
    ensures
        avisos_de_oponente(a) == Seq::<bool>::empty(),
    decreases a.len(),
{
    if a.len() > 0 {
        assert(aviso_de_oponente(a[a.len() - 1]) is None);
        lema_sem_avisos(a.drop_last());
    }
}

/// Os avisos de oponente de um único evento: a chegada de um oponente quando não havia
/// nenhum, a saída do oponente, ou nada.
proof fn lema_avisos_do_evento(c: ControleVisao, e: EventoSwarmVisao)
    ensures
        avisos_de_oponente(acoes_de(c, e)) == (if novo_oponente(c, e) {
            seq![true]
        } else if oponente_saiu(c, e) {
            seq![false]
        } else {
            Seq::<bool>::empty()
        }),
{
    let a = acoes_de(c, e);
    let esperado = if novo_oponente(c, e) {
        seq![true]
    } else if oponente_saiu(c, e) {
        seq![false]
    } else {
        Seq::<bool>::empty()
    };
    match e {
        EventoSwarmVisao::Descobertos(d) => {
            let adicoes = Seq::new(d.len(), |i: int| AcaoVisao::AdicionarExplicito(d[i].par));
            let grupos = acoes_dos_grupos(c.local, d, d.len() as int);
            lema_grupos_so_status(c.local, d, d.len() as int);
            lema_sem_avisos(adicoes);
            assert forall|k: int| 0 <= k < grupos.len() implies aviso_de_oponente(
                #[trigger] grupos[k],
            ) is None by {
                assert(status_ou_discagem(grupos[k]));
            }
            lema_sem_avisos(grupos);
            lema_avisos_concatenados(adicoes, grupos);
            assert(a =~= adicoes + grupos);
            assert(avisos_de_oponente(adicoes) + avisos_de_oponente(grupos) =~= Seq::<bool>::empty());
            assert(avisos_de_oponente(a) == esperado);
        },
        EventoSwarmVisao::ConexaoEncerrada { .. } => {
            let s1 = seq![a[0]];
            let resto = a.subrange(1, a.len() as int);
            assert(a =~= s1 + resto);
            lema_sem_avisos(s1);
            lema_avisos_concatenados(s1, resto);
            if oponente_saiu(c, e) {
                assert(resto.drop_last() =~= Seq::<AcaoVisao>::empty());
                assert(avisos_de_oponente(resto.drop_last()) =~= Seq::<bool>::empty());
                assert(avisos_de_oponente(resto) =~= seq![false]);
            } else {
                assert(resto =~= Seq::<AcaoVisao>::empty());
            }
            assert(avisos_de_oponente(a) =~= esperado);
        },
        _ => {
            if novo_oponente(c, e) || oponente_saiu(c, e) {
                assert(a.drop_last() =~= Seq::<AcaoVisao>::empty());
                assert(avisos_de_oponente(a.drop_last()) =~= Seq::<bool>::empty());
                assert(avisos_de_oponente(a) =~= esperado);
            } else {
                assert forall|k: int| 0 <= k < a.len() implies aviso_de_oponente(
                    #[trigger] a[k],
                ) is None by {}
                lema_sem_avisos(a);
            }
            assert(avisos_de_oponente(a) == esperado);
        },
    }
}

/// Uma ação que avisa algo do oponente aparece entre os avisos de oponente.
proof fn lema_aviso_aparece(a: Seq<AcaoVisao>, k: int)
    requires
        0 <= k < a.len(),
        aviso_de_oponente(a[k]) is Some,
    ensures
        avisos_de_oponente(a).len() > 0,
    decreases a.len(),
{
    if k < a.len() - 1 {
        assert(a.drop_last()[k] == a[k]);
        lema_aviso_aparece(a.drop_last(), k);
    }
}

/// Só o oponente pode deixar de ser o oponente: um evento sobre outro par (saída do tópico ou
/// fim da última conexão) não muda o oponente nem avisa a interface de que ele saiu; e um
/// novo oponente só é aceito quando não há nenhum.
pub proof fn lei_outro_par_nao_tira_oponente(c: ControleVisao, e: EventoSwarmVisao, o: Seq<u8>)
    requires
        c.oponente == Some(o),
        match e {
            EventoSwarmVisao::Desinscrito { par } => par != o,
            EventoSwarmVisao::ConexaoEncerrada { par, .. } => par != o,
            _ => true,
        },
    ensures
        estado_apos(c, e).oponente == Some(o),
        !acoes_de(c, e).contains(AcaoVisao::Notificar(EventoRedeVisao::OponenteDesconectado)),
        !acoes_de(c, e).contains(
            AcaoVisao::Notificar(EventoRedeVisao::OponenteConectado { sou_x: true }),
        ),
        !acoes_de(c, e).contains(
            AcaoVisao::Notificar(EventoRedeVisao::OponenteConectado { sou_x: false }),
        ),
{
    lema_avisos_do_evento(c, e);
    let a = acoes_de(c, e);
    assert(!novo_oponente(c, e) && !oponente_saiu(c, e));
    assert forall|x: AcaoVisao| aviso_de_oponente(x) is Some implies !a.contains(x) by {
        if a.contains(x) {
            let k = choose|k: int| 0 <= k < a.len() && a[k] == x;
            lema_aviso_aparece(a, k);
        }
    }
    assert(aviso_de_oponente(AcaoVisao::Notificar(EventoRedeVisao::OponenteDesconectado)) is Some);
    assert(aviso_de_oponente(
        AcaoVisao::Notificar(EventoRedeVisao::OponenteConectado { sou_x: true }),
    ) is Some);
    assert(aviso_de_oponente(
        AcaoVisao::Notificar(EventoRedeVisao::OponenteConectado { sou_x: false }),
    ) is Some);
}

/// Os avisos de oponente à interface alternam, começando pela chegada: nenhum segundo
/// oponente é aceito antes que o primeiro vá embora. Depois de qualquer sequência de eventos,
/// a partir de um estado sem oponente, há oponente exatamente quando o último aviso foi de
/// chegada.
pub proof fn lei_avisos_de_oponente_alternam(c: ControleVisao, es: Seq<EventoSwarmVisao>)
    requires
        c.oponente is None,
    ensures
        forall|i: int|
            0 <= i < avisos_de_oponente(acoes_da_sequencia(c, es)).len() ==> #[trigger] avisos_de_oponente(
                acoes_da_sequencia(c, es),
            )[i] == (i % 2 == 0),
        (avisos_de_oponente(acoes_da_sequencia(c, es)).len() % 2 == 1) == (estado_apos_sequencia(
            c,
            es,
        ).oponente is Some),
    decreases es.len(),
{
    if es.len() > 0 {
        let anteriores = es.drop_last();
        lei_avisos_de_oponente_alternam(c, anteriores);
        let c1 = estado_apos_sequencia(c, anteriores);
        let e = es.last();
        let a1 = acoes_da_sequencia(c, anteriores);
        let novas = acoes_de(c1, e);
        lema_avisos_concatenados(a1, novas);
        lema_avisos_do_evento(c1, e);
        let v1 = avisos_de_oponente(a1);
        let v = avisos_de_oponente(acoes_da_sequencia(c, es));
        assert(v == v1 + avisos_de_oponente(novas));
        assert forall|i: int| 0 <= i < v.len() implies #[trigger] v[i] == (i % 2 == 0) by {
            if i < v1.len() {
                assert(v[i] == v1[i]);
            }
        }
    }
}

/// Só chegam à interface as mensagens assinadas pelo oponente atual.
pub proof fn lei_so_mensagens_do_oponente(c: ControleVisao, e: EventoSwarmVisao, m: Mensagem)
    requires
        acoes_de(c, e).contains(AcaoVisao::Notificar(EventoRedeVisao::MensagemRecebida(m))),
    ensures
        e matches EventoSwarmVisao::MensagemGossip { fonte, conteudo } && fonte is Some && fonte
            == c.oponente && conteudo == Some(m),
{
    let a = acoes_de(c, e);
    let k = choose|k: int|
        0 <= k < a.len() && a[k] == AcaoVisao::Notificar(EventoRedeVisao::MensagemRecebida(m));
    if let EventoSwarmVisao::Descobertos(d) = e {
        lema_grupos_so_status(c.local, d, d.len() as int);
        assert(k >= d.len());
        assert(a[k] == acoes_dos_grupos(c.local, d, d.len() as int)[k - d.len()]);
    }
}

impl ControleRede {
    /// O estado inicial: o par local, sem oponente.
    pub fn new(local: IdPar) -> (r: ControleRede)
        ensures
            r@ == (ControleVisao { local: local@, oponente: None }),
    {
        ControleRede { local, oponente: None }
    }

    /// As ações para o par que aparece pela primeira vez na descoberta `i`.
    fn acoes_grupo(&self, d: &Vec<Descoberta>, i: usize) -> (r: Vec<Acao>)
        requires
            i < d.len(),
        ensures
            visao_acoes(r@) == acoes_do_grupo(self@.local, visao_descobertas(d@), i as int),
            discagens_sem_cruzamento(self@.local, visao_acoes(r@)),
    {
        let ghost dv = visao_descobertas(d@);
        let x = &d[i];
        let mut r: Vec<Acao> = Vec::new();
        if x.conectado {
            proof {
                assert(visao_acoes(r@) =~= seq![]);
            }
            return r;
        }
        let nome = x.par.nome();
        if self.local.precede(&x.par) {
            let texto = juntar("Peer encontrado, discando: ", nome.as_str());
            let enderecos = enderecos_de(d, &x.par);
            r.push(Acao::Notificar(EventoRede::Status(texto)));
            r.push(Acao::Discar { par: x.par.copia(), enderecos });
            proof {
                assert(visao_acoes(r@) =~= acoes_do_grupo(self@.local, dv, i as int));
            }
        } else {
            let texto = juntar("Peer encontrado, aguardando conexão: ", nome.as_str());
            r.push(Acao::Notificar(EventoRede::Status(texto)));
            proof {
                assert(visao_acoes(r@) =~= acoes_do_grupo(self@.local, dv, i as int));
            }
        }
        r
    }

    /// As ações de uma descoberta de pares pelo mDNS.
    fn acoes_descoberta(&self, d: &Vec<Descoberta>) -> (r: Vec<Acao>)
        ensures
            visao_acoes(r@) == acoes_de_descoberta(self@.local, visao_descobertas(d@)),
            discagens_sem_cruzamento(self@.local, visao_acoes(r@)),
    {
        let ghost dv = visao_descobertas(d@);
        let ghost local = self@.local;
        let n = d.len();
        let mut acoes: Vec<Acao> = Vec::new();
        let mut i: usize = 0;
        while i < n
            invariant
                n == d.len(),
                dv == visao_descobertas(d@),
                i <= n,
                visao_acoes(acoes@) =~= Seq::new(
                    i as nat,
                    |k: int| AcaoVisao::AdicionarExplicito(dv[k].par),
                ),
            decreases n - i,
        {
            let p = d[i].par.copia();
            let ghost antes = visao_acoes(acoes@);
            acoes.push(Acao::AdicionarExplicito(p));
            proof {
                assert(dv[i as int] == d@[i as int]@);
                assert(visao_acoes(acoes@) =~= antes.push(AcaoVisao::AdicionarExplicito(dv[i as int].par)));
            }
            i = i + 1;
            proof {
                assert(visao_acoes(acoes@) =~= Seq::new(
                    i as nat,
                    |k: int| AcaoVisao::AdicionarExplicito(dv[k].par),
                ));
            }
        }
        let ghost base = visao_acoes(acoes@);
        i = 0;
        while i < n
            invariant
                n == d.len(),
                dv == visao_descobertas(d@),
                local == self@.local,
                i <= n,
                base == Seq::new(n as nat, |k: int| AcaoVisao::AdicionarExplicito(dv[k].par)),
                visao_acoes(acoes@) =~= base + acoes_dos_grupos(local, dv, i as int),
                discagens_sem_cruzamento(local, visao_acoes(acoes@)),
            decreases n - i,
        {
            if !visto_antes(d, i) {
                let grupo = self.acoes_grupo(d, i);
                let ghost antes = visao_acoes(acoes@);
                let ghost g = visao_acoes(grupo@);
                acrescentar(&mut acoes, grupo);
                proof {
                    assert forall|k: int| 0 <= k < visao_acoes(acoes@).len() implies ((#[trigger] visao_acoes(
                        acoes@,
                    )[k]) matches AcaoVisao::Discar { par, .. } ==> precede_par(local, par)
                        && !precede_par(par, local)) by {
                        if k < antes.len() {
                            assert(visao_acoes(acoes@)[k] == antes[k]);
                        } else {
                            assert(visao_acoes(acoes@)[k] == g[k - antes.len()]);
                        }
                    }
                }
            }
            i = i + 1;
        }
        acoes
    }

    /// A reação ao evento: o novo estado e as ações a executar, em ordem.
    pub fn tratar(&mut self, evento: EventoSwarm) -> (r: Vec<Acao>)
        ensures
            final(self)@ == estado_apos(old(self)@, evento@),
            visao_acoes(r@) == acoes_de(old(self)@, evento@),
            discagens_sem_cruzamento(old(self)@.local, visao_acoes(r@)),
            novo_oponente(old(self)@, evento@) ==> precede_par(
                old(self)@.local,
                evento@->Inscrito_par,
            ) != precede_par(evento@->Inscrito_par, old(self)@.local) || old(self)@.local
                == evento@->Inscrito_par,
    {
        let ghost c = self@;
        let ghost e = evento@;
        match evento {
            EventoSwarm::EscutandoEm { endereco } => {
                let r = so_status(juntar("Escutando em ", endereco.as_str()));
                proof {
                    assert(visao_acoes(r@) =~= acoes_de(c, e));
                }
                r
            },
            EventoSwarm::Descobertos(d) => {
                self.acoes_descoberta(&d)
            },
            EventoSwarm::FalhaDiscagem { par, erro } => {
                let nome = par.nome();
                let r = so_status(juntar4("Falha ao discar para ", nome.as_str(), ": ", erro.as_str()));
                proof {
                    assert(visao_acoes(r@) =~= acoes_de(c, e));
                }
                r
            },
            EventoSwarm::ErroConexaoSaida { par, erro } => {
                let r = so_status(juntar4("Erro ao conectar com ", par.as_str(), ": ", erro.as_str()));
                proof {
                    assert(visao_acoes(r@) =~= acoes_de(c, e));
                }
                r
            },
            EventoSwarm::ConexaoEstabelecida { par } => {
                let nome = par.nome();
                let mut t = juntar("Conectado a ", nome.as_str());
                t.append(", aguardando inscrição no tópico");
                let r = so_status(t);
                proof {
                    assert(visao_acoes(r@) =~= acoes_de(c, e));
                }
                r
            },
            EventoSwarm::Expirados(ps) => {
                let mut r: Vec<Acao> = Vec::new();
                let n = ps.len();
                let mut i: usize = 0;
                while i < n
                    invariant
                        n == ps.len(),
                        i <= n,
                        visao_acoes(r@) =~= Seq::new(
                            i as nat,
                            |k: int| AcaoVisao::RemoverExplicito(ps@[k]@),
                        ),
                    decreases n - i,
                {
                    let ghost antes = visao_acoes(r@);
                    r.push(Acao::RemoverExplicito(ps[i].copia()));
                    proof {
                        assert(visao_acoes(r@) =~= antes.push(AcaoVisao::RemoverExplicito(ps@[i as int]@)));
                    }
                    i = i + 1;
                    proof {
                        assert(visao_acoes(r@) =~= Seq::new(
                            i as nat,
                            |k: int| AcaoVisao::RemoverExplicito(ps@[k]@),
                        ));
                    }
                }
                proof {
                    assert(visao_acoes(r@) =~= acoes_de(c, e));
                }
                r
            },
            EventoSwarm::Inscrito { par, topico } => {
                let alvo = String::from_str(TOPICO);
                if topico == alvo && self.oponente.is_none() {
                    let sou_x = self.local.precede(&par);
                    self.oponente = Some(par);
                    let r = so_notificar(EventoRede::OponenteConectado { sou_x });
                    proof {
                        assert(visao_acoes(r@) =~= acoes_de(c, e));
                    }
                    r
                } else {
                    let r: Vec<Acao> = Vec::new();
                    proof {
                        assert(visao_acoes(r@) =~= acoes_de(c, e));
                    }
                    r
                }
            },
            EventoSwarm::Desinscrito { par } => {
                let sai = match &self.oponente {
                    Some(o) => o.mesmo(&par),
                    None => false,
                };
                if sai {
                    self.oponente = None;
                    let r = so_notificar(EventoRede::OponenteDesconectado);
                    proof {
                        assert(visao_acoes(r@) =~= acoes_de(c, e));
                    }
                    r
                } else {
                    let r: Vec<Acao> = Vec::new();
                    proof {
                        assert(visao_acoes(r@) =~= acoes_de(c, e));
                    }
                    r
                }
            },
            EventoSwarm::MensagemGossip { fonte, conteudo } => {
                let aceita = match (&fonte, &self.oponente) {
                    (Some(f), Some(o)) => f.mesmo(o),
                    _ => false,
                };
                if aceita {
                    let r = match conteudo {
                        Some(m) => so_notificar(EventoRede::MensagemRecebida(m)),
                        None => so_notificar(
                            EventoRede::Erro(String::from_str("Mensagem inválida recebida.")),
                        ),
                    };
                    proof {
                        assert(visao_acoes(r@) =~= acoes_de(c, e));
                    }
                    r
                } else {
                    let r: Vec<Acao> = Vec::new();
                    proof {
                        assert(visao_acoes(r@) =~= acoes_de(c, e));
                    }
                    r
                }
            },
            EventoSwarm::ConexaoEncerrada { par, restantes, causa } => {
                let nome = par.nome();
                let mut r = so_status(juntar4("Conexão encerrada com ", nome.as_str(), ": ", causa.as_str()));
                let sai = match &self.oponente {
                    Some(o) => o.mesmo(&par) && restantes == 0,
                    None => false,
                };
                if sai {
                    self.oponente = None;
                    let extra = so_notificar(EventoRede::OponenteDesconectado);
                    acrescentar(&mut r, extra);
                }
                proof {
                    assert(visao_acoes(r@) =~= acoes_de(c, e));
                }
                r
            },
            EventoSwarm::FalhaPublicacao { erro } => {
                let r = so_notificar(EventoRede::Erro(juntar("Falha ao enviar jogada: ", erro.as_str())));
                proof {
                    assert(visao_acoes(r@) =~= acoes_de(c, e));
                }
                r
            },
        }
    }
}

} // verus!
