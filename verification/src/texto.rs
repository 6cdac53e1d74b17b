//! Textos: números em notação decimal.
use vstd::prelude::*;

verus! {

/// O algarismo decimal de `d`, para `d` de 0 a 9.
pub open spec fn algarismo(d: nat) -> char {
    if d == 0 {
        '0'
    } else if d == 1 {
        '1'
    } else if d == 2 {
        '2'
    } else if d == 3 {
        '3'
    } else if d == 4 {
        '4'
    } else if d == 5 {
        '5'
    } else if d == 6 {
        '6'
    } else if d == 7 {
        '7'
    } else if d == 8 {
        '8'
    } else {
        '9'
    }
}

/// A notação decimal de `n`, sem zeros à esquerda.
pub open spec fn decimal(n: nat) -> Seq<char>
    decreases n,
{
    if n < 10 {
        seq![algarismo(n)]
    } else {
        decimal(n / 10).push(algarismo(n % 10))
    }
}

/// Chama `String::push`: acrescenta o caractere ao fim do texto.
#[verifier::external_body]
fn empurrar(s: &mut String, c: char)
    ensures
        final(s)@ == old(s)@.push(c),
{
    s.push(c)
}

fn algarismo_de(d: u64) -> (r: char)
    requires
        d < 10,
    ensures
        r == algarismo(d as nat),
{
    if d == 0 {
        '0'
    } else if d == 1 {
        '1'
    } else if d == 2 {
        '2'
    } else if d == 3 {
        '3'
    } else if d == 4 {
        '4'
    } else if d == 5 {
        '5'
    } else if d == 6 {
        '6'
    } else if d == 7 {
        '7'
    } else if d == 8 {
        '8'
    } else {
        '9'
    }
}

/// Acrescenta ao texto a notação decimal de `n`.
pub fn escrever_decimal(s: &mut String, n: u64)
    ensures
        final(s)@ == old(s)@ + decimal(n as nat),
    decreases n,
{
    let ghost antes = s@;
    if n >= 10 {
        escrever_decimal(s, n / 10);
    }
    let c = algarismo_de(n % 10);
    empurrar(s, c);
    proof {
        assert(s@ =~= antes + decimal(n as nat));
    }
}

} // verus!
