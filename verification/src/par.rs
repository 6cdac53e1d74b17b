//! A identidade de um par da rede, guardada como os bytes do seu `PeerId`.
use libp2p::PeerId;
use vstd::prelude::*;

verus! {

/// O que `PeerId::from_bytes` seguido de `PeerId::to_bytes` faz dos bytes: os bytes do
/// `PeerId` lido, ou nada, se `from_bytes` os recusa.
pub uninterp spec fn recodificacao(bytes: Seq<u8>) -> Option<Seq<u8>>;

/// Os bytes são a codificação de um `PeerId`: `from_bytes` os aceita e `to_bytes` os devolve
/// iguais.
pub open spec fn par_canonico(bytes: Seq<u8>) -> bool {
    recodificacao(bytes) == Some(bytes)
}

/// O `PeerId` dos bytes `a` vem antes do `PeerId` dos bytes `b` na ordem de `PeerId`.
pub uninterp spec fn precede_par(a: Seq<u8>, b: Seq<u8>) -> bool;

/// O texto com que o `PeerId` dos bytes é mostrado (sua codificação base-58).
pub uninterp spec fn nome_do_par(bytes: Seq<u8>) -> Seq<char>;

/// Chama `PeerId::from_bytes` e, se ele aceita os bytes, `PeerId::to_bytes` sobre o
/// resultado. O resultado depende só dos bytes.
#[verifier::external_body]
fn recodificar(bytes: &Vec<u8>) -> (r: Option<Vec<u8>>)
    ensures
        r is Some <==> recodificacao(bytes@) is Some,
        r matches Some(v) ==> recodificacao(bytes@) == Some(v@),
{
    match PeerId::from_bytes(bytes) {
        Ok(p) => Some(p.to_bytes()),
        Err(_) => None,
    }
}

/// Compara com `<` os `PeerId` de duas codificações canônicas. Bytes iguais dão o mesmo
/// `PeerId`, que não precede a si mesmo. Codificações canônicas diferentes são o `to_bytes`
/// de `PeerId` diferentes, isto é, de multihashes com código, tamanho ou resumo diferentes
/// (o resto do resumo é zero); a ordem de `PeerId` vem de `derive(Ord)` sobre esses campos,
/// logo, de dois `PeerId` diferentes, exatamente um precede o outro. (De bytes quaisquer isso
/// não vale: `from_bytes` aceita varints não minimais, que dão o mesmo `PeerId` de bytes
/// diferentes.)
#[verifier::external_body]
fn par_precede(a: &Vec<u8>, b: &Vec<u8>) -> (r: bool)
    requires
        par_canonico(a@),
        par_canonico(b@),
    ensures
        r == precede_par(a@, b@),
        a@ == b@ ==> !r,
        a@ != b@ ==> r != precede_par(b@, a@),
{
    match (PeerId::from_bytes(a), PeerId::from_bytes(b)) {
        (Ok(x), Ok(y)) => x < y,
        _ => false,
    }
}

/// Chama `PeerId::to_base58` sobre o `PeerId` dos bytes, o texto que `Display` mostra.
#[verifier::external_body]
fn nome_par(bytes: &Vec<u8>) -> (r: String)
    requires
        par_canonico(bytes@),
    ensures
        r@ == nome_do_par(bytes@),
{
    match PeerId::from_bytes(bytes) {
        Ok(p) => p.to_base58(),
        Err(_) => String::new(),
    }
}

/// Se os dois vetores de bytes são iguais.
fn bytes_iguais(a: &Vec<u8>, b: &Vec<u8>) -> (r: bool)
    ensures
        r == (a@ == b@),
{
    let n = a.len();
    if n != b.len() {
        proof {
            assert(a@.len() != b@.len());
        }
        return false;
    }
    let mut i: usize = 0;
    while i < n
        invariant
            n == a@.len(),
            n == b@.len(),
            i <= n,
            forall|k: int| 0 <= k < i ==> a@[k] == b@[k],
        decreases n - i,
    {
        if a[i] != b[i] {
            proof {
                assert(a@[i as int] != b@[i as int]);
            }
            return false;
        }
        i = i + 1;
    }
    proof {
        assert(a@ =~= b@);
    }
    true
}

/// A identidade de um par: a codificação canônica de um `PeerId`.
pub struct IdPar {
    bytes: Vec<u8>,
}

impl View for IdPar {
    type V = Seq<u8>;

    closed spec fn view(&self) -> Seq<u8> {
        self.bytes@
    }
}

impl IdPar {
    #[verifier::type_invariant]
    spec fn bytes_validos(self) -> bool {
        par_canonico(self.bytes@)
    }

    /// A identidade cujos bytes são `bytes`, se eles são a codificação de um `PeerId`.
    pub fn de_bytes(bytes: Vec<u8>) -> (r: Option<IdPar>)
        ensures
            r is Some <==> par_canonico(bytes@),
            r matches Some(p) ==> p@ == bytes@,
    {
        match recodificar(&bytes) {
            Some(v) => if bytes_iguais(&v, &bytes) {
                Some(IdPar { bytes })
            } else {
                None
            },
            None => None,
        }
    }

    /// Os bytes do `PeerId`.
    pub fn bytes(&self) -> (r: &Vec<u8>)
        ensures
            r@ == self@,
    {
        &self.bytes
    }

    /// O texto do par, como `Display` o mostra.
    pub fn nome(&self) -> (r: String)
        ensures
            r@ == nome_do_par(self@),
    {
        proof {
            use_type_invariant(self);
        }
        nome_par(&self.bytes)
    }

    /// Se este par vem antes de `outro` na ordem de `PeerId`.
    pub fn precede(&self, outro: &IdPar) -> (r: bool)
        ensures
            r == precede_par(self@, outro@),
            self@ == outro@ ==> !r,
            self@ != outro@ ==> r != precede_par(outro@, self@),
    {
        proof {
            use_type_invariant(self);
            use_type_invariant(outro);
        }
        par_precede(&self.bytes, &outro.bytes)
    }

    /// Se as duas identidades são a mesma.
    pub fn mesmo(&self, outro: &IdPar) -> (r: bool)
        ensures
            r == (self@ == outro@),
    {
        bytes_iguais(&self.bytes, &outro.bytes)
    }

    /// Uma cópia da identidade.
    pub fn copia(&self) -> (r: IdPar)
        ensures
            r@ == self@,
    {
        proof {
            use_type_invariant(self);
        }
        let mut bytes: Vec<u8> = Vec::new();
        let n = self.bytes.len();
        let mut i: usize = 0;
        while i < n
            invariant
                n == self.bytes@.len(),
                i <= n,
                bytes@ =~= self.bytes@.take(i as int),
            decreases n - i,
        {
            bytes.push(self.bytes[i]);
            i = i + 1;
            proof {
                assert(bytes@ =~= self.bytes@.take(i as int));
            }
        }
        proof {
            assert(self.bytes@.take(n as int) =~= self.bytes@);
        }
        IdPar { bytes }
    }
}

} // verus!
