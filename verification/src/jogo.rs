//! As regras do jogo da velha: tabuleiro, jogadas e verificação de vitória ou empate.
use vstd::prelude::*;

verus! {

/// O símbolo de um jogador.
#[derive(Clone, Copy, PartialEq, Eq, Debug, Structural)]
pub enum Simbolo {
    X,
    O,
}

/// O resultado de uma partida encerrada.
#[derive(Clone, Copy, PartialEq, Eq, Debug, Structural)]
pub enum Resultado {
    Vitoria(Simbolo),
    Empate,
}

/// O símbolo do outro jogador.
pub open spec fn simbolo_oposto(s: Simbolo) -> Simbolo {
    match s {
        Simbolo::X => Simbolo::O,
        Simbolo::O => Simbolo::X,
    }
}

/// O texto com que um símbolo é mostrado.
pub open spec fn texto_do_simbolo(s: Simbolo) -> Seq<char> {
    match s {
        Simbolo::X => "X"@,
        Simbolo::O => "O"@,
    }
}

impl Simbolo {
    pub fn oposto(self) -> (r: Simbolo)
        ensures
            r == simbolo_oposto(self),
    {
        match self {
            Simbolo::X => Simbolo::O,
            Simbolo::O => Simbolo::X,
        }
    }

    /// O texto do símbolo ("X" ou "O").
    pub fn texto(self) -> (r: String)
        ensures
            r@ == texto_do_simbolo(self),
    {
        match self {
            Simbolo::X => String::from_str("X"),
            Simbolo::O => String::from_str("O"),
        }
    }
}

/// O conteúdo de um tabuleiro: nove casas, lidas linha a linha.
pub type Casas = Seq<Option<Simbolo>>;

/// As três casas da `i`-ésima linha vencedora: três linhas, três colunas, duas diagonais.
pub open spec fn casas_da_linha(i: int) -> (int, int, int) {
    if i == 0 {
        (0, 1, 2)
    } else if i == 1 {
        (3, 4, 5)
    } else if i == 2 {
        (6, 7, 8)
    } else if i == 3 {
        (0, 3, 6)
    } else if i == 4 {
        (1, 4, 7)
    } else if i == 5 {
        (2, 5, 8)
    } else if i == 6 {
        (0, 4, 8)
    } else {
        (2, 4, 6)
    }
}

/// O número de linhas vencedoras.
pub const NUMERO_DE_LINHAS: usize = 8;

/// O símbolo que ocupa as três casas da linha `i`, se um só a ocupa inteira.
pub open spec fn vencedor_da_linha(t: Casas, i: int) -> Option<Simbolo> {
    let (a, b, c) = casas_da_linha(i);
    match t[a] {
        Some(s) => if t[b] == Some(s) && t[c] == Some(s) {
            Some(s)
        } else {
            None
        },
        None => None,
    }
}

/// O vencedor da primeira linha completa, na ordem das linhas, a partir da linha `i`.
pub open spec fn primeira_vitoria(t: Casas, i: int) -> Option<Simbolo>
    decreases 8 - i,
{
    if i >= 8 || i < 0 {
        None
    } else {
        match vencedor_da_linha(t, i) {
            Some(s) => Some(s),
            None => primeira_vitoria(t, i + 1),
        }
    }
}

/// Todas as casas estão ocupadas.
pub open spec fn tabuleiro_cheio(t: Casas) -> bool {
    forall|i: int| 0 <= i < 9 ==> (#[trigger] t[i]) is Some
}

/// Nenhuma casa está ocupada.
pub open spec fn tabuleiro_vazio(t: Casas) -> bool {
    forall|i: int| 0 <= i < 9 ==> (#[trigger] t[i]) is None
}

/// O resultado que um tabuleiro determina: a vitória da primeira linha completa; senão,
/// empate se o tabuleiro estiver cheio; senão, nenhum.
pub open spec fn resultado_de(t: Casas) -> Option<Resultado> {
    match primeira_vitoria(t, 0) {
        Some(s) => Some(Resultado::Vitoria(s)),
        None => if tabuleiro_cheio(t) {
            Some(Resultado::Empate)
        } else {
            None
        },
    }
}

/// Quantas casas de `t` o símbolo `s` ocupa.
pub open spec fn contagem(t: Casas, s: Simbolo) -> nat
    decreases t.len(),
{
    if t.len() == 0 {
        0
    } else {
        contagem(t.drop_last(), s) + (if t.last() == Some(s) {
            1nat
        } else {
            0nat
        })
    }
}

/// Quem começa a partida de número `partida`: X nas pares, O nas ímpares.
pub open spec fn simbolo_inicial(partida: u32) -> Simbolo {
    if partida % 2 == 0 {
        Simbolo::X
    } else {
        Simbolo::O
    }
}

/// O estado de uma partida, visto como valores matemáticos.
pub struct JogoVisao {
    pub tabuleiro: Casas,
    pub vez: Simbolo,
    pub resultado: Option<Resultado>,
    pub partida: u32,
}

/// O estado de uma partida.
pub struct Jogo {
    pub tabuleiro: [Option<Simbolo>; 9],
    pub vez: Simbolo,
    pub resultado: Option<Resultado>,
    pub partida: u32,
}

impl View for Jogo {
    type V = JogoVisao;

    open spec fn view(&self) -> JogoVisao {
        JogoVisao {
            tabuleiro: self.tabuleiro@,
            vez: self.vez,
            resultado: self.resultado,
            partida: self.partida,
        }
    }
}

/// Um tabuleiro de nove casas vazias.
pub open spec fn casas_vazias() -> Casas {
    Seq::new(9, |i: int| None::<Simbolo>)
}

/// O jogo de uma sessão que acaba de começar.
pub open spec fn jogo_inicial() -> JogoVisao {
    JogoVisao { tabuleiro: casas_vazias(), vez: Simbolo::X, resultado: None, partida: 0 }
}

/// O jogo no começo da partida de número `partida`.
pub open spec fn jogo_da_partida(partida: u32) -> JogoVisao {
    JogoVisao {
        tabuleiro: casas_vazias(),
        vez: simbolo_inicial(partida),
        resultado: None,
        partida,
    }
}

/// Se `s` pode jogar na casa `posicao` do jogo `j`.
pub open spec fn jogada_permitida(j: JogoVisao, posicao: int, s: Simbolo) -> bool {
    &&& 0 <= posicao < 9
    &&& j.resultado is None
    &&& j.vez == s
    &&& j.tabuleiro[posicao] is None
}

/// O jogo depois que `s` joga na casa `posicao`, quando a jogada é permitida;
/// o mesmo jogo, quando não é.
pub open spec fn apos_jogada(j: JogoVisao, posicao: int, s: Simbolo) -> JogoVisao {
    if jogada_permitida(j, posicao, s) {
        let t = j.tabuleiro.update(posicao, Some(s));
        JogoVisao { tabuleiro: t, vez: simbolo_oposto(s), resultado: resultado_de(t), partida: j.partida }
    } else {
        j
    }
}

impl JogoVisao {
    /// O estado é coerente: o resultado é o que o tabuleiro determina, e as contagens de
    /// X e O condizem com quem começou a partida e com quem tem a vez.
    pub open spec fn bem_formado(self) -> bool {
        let t = self.tabuleiro;
        let vez = self.vez;
        let outro = simbolo_oposto(vez);
        &&& t.len() == 9
        &&& self.resultado == resultado_de(t)
        &&& {
            ||| contagem(t, vez) == contagem(t, outro) && vez == simbolo_inicial(self.partida)
            ||| contagem(t, outro) == contagem(t, vez) + 1 && outro == simbolo_inicial(
                self.partida,
            )
        }
    }
}

/// Ocupar uma casa vazia com `s` aumenta em um a contagem de `s` e mantém a do outro símbolo.
pub proof fn lema_contagem_ao_ocupar(t: Casas, p: int, s: Simbolo)
    requires
        0 <= p < t.len(),
        t[p] is None,
    ensures
        contagem(t.update(p, Some(s)), s) == contagem(t, s) + 1,
        contagem(t.update(p, Some(s)), simbolo_oposto(s)) == contagem(t, simbolo_oposto(s)),
    decreases t.len(),
{
    let u = t.update(p, Some(s));
    if p == t.len() - 1 {
        assert(u.drop_last() =~= t.drop_last());
    } else {
        assert(u.drop_last() =~= t.drop_last().update(p, Some(s)));
        lema_contagem_ao_ocupar(t.drop_last(), p, s);
    }
}

/// Um tabuleiro vazio não tem casa de nenhum símbolo.
pub proof fn lema_contagem_vazia(t: Casas, s: Simbolo)
    requires
        forall|i: int| 0 <= i < t.len() ==> (#[trigger] t[i]) is None,
    ensures
        contagem(t, s) == 0,
    decreases t.len(),
{
    if t.len() > 0 {
        lema_contagem_vazia(t.drop_last(), s);
    }
}

/// Se nenhuma linha está completa antes de uma jogada de `s`, toda linha completa depois
/// dela é de `s`.
pub proof fn lema_vitoria_nova_e_de_quem_jogou(t: Casas, p: int, s: Simbolo, i: int)
    requires
        t.len() == 9,
        0 <= p < 9,
        t[p] is None,
        primeira_vitoria(t, i) is None,
    ensures
        primeira_vitoria(t.update(p, Some(s)), i) is None
            || primeira_vitoria(t.update(p, Some(s)), i) == Some(s),
    decreases 8 - i,
{
    if 0 <= i < 8 {
        lema_vitoria_nova_e_de_quem_jogou(t, p, s, i + 1);
    }
}

/// Uma jogada permitida mantém o jogo coerente, e toda vitória que ela produz é de quem jogou.
pub proof fn lei_jogada_preserva(j: JogoVisao, posicao: int, s: Simbolo)
    requires
        j.bem_formado(),
        jogada_permitida(j, posicao, s),
    ensures
        apos_jogada(j, posicao, s).bem_formado(),
        apos_jogada(j, posicao, s).resultado matches Some(Resultado::Vitoria(w)) ==> w == s,
{
    let t = j.tabuleiro;
    lema_contagem_ao_ocupar(t, posicao, s);
    lema_vitoria_nova_e_de_quem_jogou(t, posicao, s, 0);
}

/// O oposto do oposto é o próprio símbolo, e nenhum símbolo é o seu oposto.
pub proof fn lei_oposto_involucao(s: Simbolo)
    ensures
        simbolo_oposto(simbolo_oposto(s)) == s,
        simbolo_oposto(s) != s,
{
}

/// Quem começa alterna de uma partida para a seguinte.
pub proof fn lei_inicio_alterna(partida: u32)
    requires
        partida < u32::MAX,
    ensures
        simbolo_inicial((partida + 1) as u32) == simbolo_oposto(simbolo_inicial(partida)),
{
}

/// O jogo de uma sessão nova é o começo da partida zero.
pub proof fn lei_jogo_inicial_e_partida_zero()
    ensures
        jogo_inicial() == jogo_da_partida(0),
{
}

/// Depois que a partida termina, nenhuma jogada é aceita e o jogo não muda.
pub proof fn lei_partida_encerrada_recusa(j: JogoVisao, posicao: int, s: Simbolo)
    requires
        j.resultado is Some,
    ensures
        !jogada_permitida(j, posicao, s),
        apos_jogada(j, posicao, s) == j,
{
}

/// As jogadas aceitas alternam: depois de uma jogada de `s`, só o outro símbolo pode jogar.
pub proof fn lei_vez_alterna(j: JogoVisao, p: int, s: Simbolo, q: int, t: Simbolo)
    requires
        jogada_permitida(j, p, s),
        jogada_permitida(apos_jogada(j, p, s), q, t),
    ensures
        t == simbolo_oposto(s),
{
}

/// Um tabuleiro cheio sempre tem resultado.
pub proof fn lei_tabuleiro_cheio_encerra(t: Casas)
    ensures
        tabuleiro_cheio(t) ==> resultado_de(t) is Some,
{
}

/// Nenhum símbolo ocupa mais casas do que o tabuleiro tem, somando os dois.
pub proof fn lema_contagem_limitada(t: Casas)
    ensures
        contagem(t, Simbolo::X) + contagem(t, Simbolo::O) <= t.len(),
    decreases t.len(),
{
    if t.len() > 0 {
        lema_contagem_limitada(t.drop_last());
    }
}

/// Cada jogada aceita ocupa uma casa a mais; por isso uma partida tem no máximo nove jogadas.
pub proof fn lei_jogada_ocupa_uma_casa(j: JogoVisao, posicao: int, s: Simbolo)
    requires
        j.tabuleiro.len() == 9,
        jogada_permitida(j, posicao, s),
    ensures
        contagem(apos_jogada(j, posicao, s).tabuleiro, Simbolo::X) + contagem(
            apos_jogada(j, posicao, s).tabuleiro,
            Simbolo::O,
        ) == contagem(j.tabuleiro, Simbolo::X) + contagem(j.tabuleiro, Simbolo::O) + 1,
        contagem(apos_jogada(j, posicao, s).tabuleiro, Simbolo::X) + contagem(
            apos_jogada(j, posicao, s).tabuleiro,
            Simbolo::O,
        ) <= 9,
{
    lema_contagem_ao_ocupar(j.tabuleiro, posicao, s);
    lema_contagem_limitada(apos_jogada(j, posicao, s).tabuleiro);
}

/// O começo de toda partida é um jogo coerente.
pub proof fn lema_inicio_de_partida_bem_formado(partida: u32)
    ensures
        jogo_da_partida(partida).bem_formado(),
{
    let t = casas_vazias();
    lema_contagem_vazia(t, Simbolo::X);
    lema_contagem_vazia(t, Simbolo::O);
    assert(primeira_vitoria(t, 0) is None) by {
        reveal_with_fuel(primeira_vitoria, 9);
    }
    assert(!tabuleiro_cheio(t)) by {
        assert(t[0] is None);
    }
}

/// O resultado de um jogo depende só do tabuleiro: jogos com o mesmo tabuleiro têm o mesmo
/// resultado, seja qual for a vez, o resultado guardado ou o número da partida.
pub proof fn lei_resultado_so_do_tabuleiro(g1: JogoVisao, g2: JogoVisao)
    requires
        g1.tabuleiro == g2.tabuleiro,
    ensures
        resultado_de(g1.tabuleiro) == resultado_de(g2.tabuleiro),
{
}

/// As casas `a`, `b` e `c` do tabuleiro estão todas com `s`.
pub open spec fn tres_de(t: Casas, a: int, b: int, c: int, s: Simbolo) -> bool {
    t[a] == Some(s) && t[b] == Some(s) && t[c] == Some(s)
}

/// `s` completou uma das oito linhas do jogo da velha: as três linhas, as três colunas ou as
/// duas diagonais do tabuleiro 3×3, lido linha a linha.
pub open spec fn completou_linha(t: Casas, s: Simbolo) -> bool {
    ||| tres_de(t, 0, 1, 2, s)
    ||| tres_de(t, 3, 4, 5, s)
    ||| tres_de(t, 6, 7, 8, s)
    ||| tres_de(t, 0, 3, 6, s)
    ||| tres_de(t, 1, 4, 7, s)
    ||| tres_de(t, 2, 5, 8, s)
    ||| tres_de(t, 0, 4, 8, s)
    ||| tres_de(t, 2, 4, 6, s)
}

/// O resultado de um tabuleiro segue as regras do jogo da velha: toda linha, coluna ou
/// diagonal completa dá vitória; só quem completou uma delas pode ser o vencedor, e quem é o
/// único a ter completado uma é o vencedor; sem linha completa, o tabuleiro cheio é empate e
/// o incompleto não tem resultado.
pub proof fn lei_vitoria_nas_oito_linhas(t: Casas, s: Simbolo)
    requires
        t.len() == 9,
    ensures
        completou_linha(t, s) ==> resultado_de(t) matches Some(Resultado::Vitoria(_)),
        resultado_de(t) == Some(Resultado::Vitoria(s)) ==> completou_linha(t, s),
        completou_linha(t, s) && !completou_linha(t, simbolo_oposto(s)) ==> resultado_de(t)
            == Some(Resultado::Vitoria(s)),
        (resultado_de(t) == Some(Resultado::Empate)) == (tabuleiro_cheio(t) && !completou_linha(
            t,
            Simbolo::X,
        ) && !completou_linha(t, Simbolo::O)),
        (resultado_de(t) is None) == (!tabuleiro_cheio(t) && !completou_linha(t, Simbolo::X)
            && !completou_linha(t, Simbolo::O)),
{
    reveal_with_fuel(primeira_vitoria, 9);
    let o = simbolo_oposto(s);
    if let Some(Resultado::Vitoria(w)) = resultado_de(t) {
        assert(completou_linha(t, w));
        if w != s {
            assert(w == o);
        }
    }
}

impl Jogo {
    pub fn new() -> (r: Jogo)
        ensures
            r@ == jogo_inicial(),
            r@.bem_formado(),
    {
        let r = Jogo { tabuleiro: [None;9], vez: Simbolo::X, resultado: None, partida: 0 };
        proof {
            assert(r@.tabuleiro =~= casas_vazias());
            lema_inicio_de_partida_bem_formado(0);
        }
        r
    }

    pub fn reiniciar(&mut self)
        ensures
            final(self)@ == jogo_inicial(),
            final(self)@.bem_formado(),
    {
        *self = Jogo::new();
    }

    pub fn nova_partida(&mut self, partida: u32)
        ensures
            final(self)@ == jogo_da_partida(partida),
            final(self)@.bem_formado(),
    {
        self.tabuleiro = [None;9];
        self.resultado = None;
        self.partida = partida;
        self.vez = if partida % 2 == 0 {
            Simbolo::X
        } else {
            Simbolo::O
        };
        proof {
            assert(self@.tabuleiro =~= casas_vazias());
            lema_inicio_de_partida_bem_formado(partida);
        }
    }

    pub fn vazio(&self) -> (r: bool)
        ensures
            r == tabuleiro_vazio(self@.tabuleiro),
    {
        let mut i: usize = 0;
        while i < 9
            invariant
                i <= 9,
                forall|k: int| 0 <= k < i ==> (#[trigger] self.tabuleiro@[k]) is None,
            decreases 9 - i,
        {
            if self.tabuleiro[i].is_some() {
                return false;
            }
            i = i + 1;
        }
        true
    }

    pub fn jogar(&mut self, posicao: usize, simbolo: Simbolo) -> (r: bool)
        ensures
            r == jogada_permitida(old(self)@, posicao as int, simbolo),
            final(self)@ == apos_jogada(old(self)@, posicao as int, simbolo),
            old(self)@.bem_formado() ==> final(self)@.bem_formado(),
            r ==> contagem(final(self)@.tabuleiro, simbolo) == contagem(old(self)@.tabuleiro, simbolo)
                + 1,
            r ==> contagem(final(self)@.tabuleiro, simbolo_oposto(simbolo)) == contagem(
                old(self)@.tabuleiro,
                simbolo_oposto(simbolo),
            ),
            r && old(self)@.bem_formado() ==> (final(self)@.resultado matches Some(
                Resultado::Vitoria(w),
            ) ==> w == simbolo),
    {
        if posicao >= 9 || self.resultado.is_some() || self.vez != simbolo
            || self.tabuleiro[posicao].is_some() {
            return false;
        }
        let ghost antes = self@;
        self.tabuleiro[posicao] = Some(simbolo);
        self.resultado = self.verificar_resultado();
        self.vez = simbolo.oposto();
        proof {
            assert(self@.tabuleiro =~= antes.tabuleiro.update(posicao as int, Some(simbolo)));
            lema_contagem_ao_ocupar(antes.tabuleiro, posicao as int, simbolo);
            if antes.bem_formado() {
                lei_jogada_preserva(antes, posicao as int, simbolo);
            }
        }
        true
    }

    /// As casas da `i`-ésima linha vencedora.
    fn linha(i: usize) -> (r: (usize, usize, usize))
        requires
            i < 8,
        ensures
            (r.0 as int, r.1 as int, r.2 as int) == casas_da_linha(i as int),
            r.0 < 9,
            r.1 < 9,
            r.2 < 9,
    {
        if i == 0 {
            (0, 1, 2)
        } else if i == 1 {
            (3, 4, 5)
        } else if i == 2 {
            (6, 7, 8)
        } else if i == 3 {
            (0, 3, 6)
        } else if i == 4 {
            (1, 4, 7)
        } else if i == 5 {
            (2, 5, 8)
        } else if i == 6 {
            (0, 4, 8)
        } else {
            (2, 4, 6)
        }
    }

    /// O resultado que o tabuleiro determina; não muda o jogo.
    pub fn verificar_resultado(&self) -> (r: Option<Resultado>)
        ensures
            r == resultado_de(self@.tabuleiro),
    {
        let ghost t = self@.tabuleiro;
        let mut i: usize = 0;
        while i < NUMERO_DE_LINHAS
            invariant
                i <= 8,
                t == self@.tabuleiro,
                primeira_vitoria(t, 0) == primeira_vitoria(t, i as int),
            decreases 8 - i,
        {
            let (a, b, c) = Self::linha(i);
            if let Some(simbolo) = self.tabuleiro[a] {
                if self.tabuleiro[b] == Some(simbolo) && self.tabuleiro[c] == Some(simbolo) {
                    return Some(Resultado::Vitoria(simbolo));
                }
            }
            i = i + 1;
        }
        assert(primeira_vitoria(t, 0) is None);
        let mut k: usize = 0;
        while k < 9
            invariant
                k <= 9,
                t == self@.tabuleiro,
                primeira_vitoria(t, 0) is None,
                forall|m: int| 0 <= m < k ==> (#[trigger] t[m]) is Some,
            decreases 9 - k,
        {
            if self.tabuleiro[k].is_none() {
                return None;
            }
            k = k + 1;
        }
        Some(Resultado::Empate)
    }
}

} // verus!
