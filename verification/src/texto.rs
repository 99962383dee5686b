//! Texto: números en decimal y separación por un carácter.

use vstd::prelude::*;
use vstd::string::*;

verus! {

/// `c` es uno de los dígitos del `0` al `9`.
pub open spec fn es_digito(c: char) -> bool {
    0x30 <= c as u32 <= 0x39
}

/// El número que escribe el dígito `c`.
pub open spec fn valor_digito(c: char) -> nat {
    (c as u32 - 0x30) as nat
}

/// El carácter del dígito `d`, para `d < 10`.
pub open spec fn digito(d: nat) -> char {
    (0x30 + d) as char
}

/// Todos los caracteres de `s` son dígitos.
pub open spec fn son_digitos(s: Seq<char>) -> bool {
    forall|i: int| 0 <= i < s.len() ==> es_digito(#[trigger] s[i])
}

/// El número que escribe una tira de dígitos decimales.
pub open spec fn valor_decimal(s: Seq<char>) -> nat
    decreases s.len(),
{
    if s.len() == 0 {
        0
    } else {
        valor_decimal(s.drop_last()) * 10 + valor_digito(s.last())
    }
}

/// La escritura decimal de `n`, sin ceros a la izquierda.
pub open spec fn decimal(n: nat) -> Seq<char>
    decreases n,
{
    if n < 10 {
        seq![digito(n)]
    } else {
        decimal(n / 10).push(digito(n % 10))
    }
}

/// La tira sin el signo `+` inicial, si lo tiene.
pub open spec fn sin_signo(s: Seq<char>) -> Seq<char> {
    if s.len() > 0 && s[0] == '+' {
        s.subrange(1, s.len() as int)
    } else {
        s
    }
}

/// El `u32` que escribe `s`: un `+` opcional y al menos un dígito decimal,
/// con valor que entra en 32 bits. `None` en cualquier otro caso.
pub open spec fn leer_u32(s: Seq<char>) -> Option<u32> {
    let d = sin_signo(s);
    if d.len() > 0 && son_digitos(d) && valor_decimal(d) <= u32::MAX {
        Some(valor_decimal(d) as u32)
    } else {
        None
    }
}

/// Los trozos de `s` entre apariciones de `sep`. Siempre hay al menos uno;
/// dos separadores seguidos, o uno al principio o al final, dejan un trozo
/// vacío.
pub open spec fn separar(s: Seq<char>, sep: char) -> Seq<Seq<char>>
    decreases s.len(),
{
    if s.len() == 0 {
        seq![Seq::<char>::empty()]
    } else {
        let antes = separar(s.drop_last(), sep);
        if s.last() == sep {
            antes.push(Seq::<char>::empty())
        } else {
            antes.update(antes.len() - 1, antes.last().push(s.last()))
        }
    }
}

/// Los números de `v` en decimal, unidos por comas.
pub open spec fn unir(v: Seq<u32>) -> Seq<char>
    decreases v.len(),
{
    if v.len() == 0 {
        Seq::<char>::empty()
    } else if v.len() == 1 {
        decimal(v[0] as nat)
    } else {
        unir(v.drop_last()) + seq![','] + decimal(v.last() as nat)
    }
}

/// Separar siempre deja al menos un trozo.
pub proof fn lema_separar_no_vacio(s: Seq<char>, sep: char)
    ensures
        separar(s, sep).len() >= 1,
    decreases s.len(),
{
    if s.len() > 0 {
        lema_separar_no_vacio(s.drop_last(), sep);
    }
}

/// Agregar dígitos a la derecha nunca achica el valor.
pub proof fn lema_valor_crece(s: Seq<char>, k: int)
    requires
        0 <= k <= s.len(),
    ensures
        valor_decimal(s.take(k)) <= valor_decimal(s),
    decreases s.len() - k,
{
    if k < s.len() {
        lema_valor_crece(s, k + 1);
        assert(s.take(k + 1).drop_last() =~= s.take(k));
    } else {
        assert(s.take(k) =~= s);
    }
}

/// La escritura decimal de `n` son dígitos, al menos uno, y valen `n`.
pub proof fn lema_decimal(n: nat)
    ensures
        decimal(n).len() >= 1,
        son_digitos(decimal(n)),
        valor_decimal(decimal(n)) == n,
    decreases n,
{
    let d = decimal(n);
    if n < 10 {
        assert(valor_decimal(d.drop_last()) == 0);
    } else {
        lema_decimal(n / 10);
        assert(d.drop_last() =~= decimal(n / 10));
        assert forall|i: int| 0 <= i < d.len() implies es_digito(#[trigger] d[i]) by {}
    }
}

/// Lo que se escribe en decimal se vuelve a leer igual.
pub proof fn lema_leer_lo_escrito(n: u32)
    ensures
        leer_u32(decimal(n as nat)) == Some(n),
{
    lema_decimal(n as nat);
    let d = decimal(n as nat);
}

fn texto_digito(d: u64) -> (t: &'static str)
    requires
        d < 10,
    ensures
        t@ == seq![digito(d as nat)],
{
    proof {
        reveal_strlit("0");
        reveal_strlit("1");
        reveal_strlit("2");
        reveal_strlit("3");
        reveal_strlit("4");
        reveal_strlit("5");
        reveal_strlit("6");
        reveal_strlit("7");
        reveal_strlit("8");
        reveal_strlit("9");
    }
    let t = if d == 0 {
        "0"
    } else if d == 1 {
        "1"
    } else if d == 2 {
        "2"
    } else if d == 3 {
        "3"
    } else if d == 4 {
        "4"
    } else if d == 5 {
        "5"
    } else if d == 6 {
        "6"
    } else if d == 7 {
        "7"
    } else if d == 8 {
        "8"
    } else {
        "9"
    };
    t
}

/// Agrega a `dest` la escritura decimal de `n`.
pub fn agregar_decimal(dest: &mut String, n: u64)
    ensures
        final(dest)@ == old(dest)@ + decimal(n as nat),
    decreases n,
{
    if n >= 10 {
        agregar_decimal(dest, n / 10);
    }
    dest.append(texto_digito(n % 10));
}

/// Agrega a `dest` los números de `v`, unidos por comas.
pub fn agregar_unidos(dest: &mut String, v: &Vec<u32>)
    ensures
        final(dest)@ == old(dest)@ + unir(v@),
{
    let mut i: usize = 0;
    while i < v.len()
        invariant
            i <= v.len(),
            dest@ == old(dest)@ + unir(v@.take(i as int)),
        decreases v.len() - i,
    {
        proof {
            assert(v@.take(i + 1).drop_last() =~= v@.take(i as int));
        }
        if i > 0 {
            proof {
                reveal_strlit(",");
            }
            dest.append(",");
        }
        agregar_decimal(dest, v[i] as u64);
        i = i + 1;
    }
    proof {
        assert(v@.take(v.len() as int) =~= v@);
    }
}

/// Lee un `u32` escrito en decimal, con un `+` inicial opcional.
pub fn leer_natural(s: &str) -> (r: Option<u32>)
    ensures
        r == leer_u32(s@),
{
    let n: usize = s.unicode_len();
    let mut i: usize = 0;
    if n > 0 && s.get_char(0) == '+' {
        i = 1;
    }
    let inicio: usize = i;
    if i == n {
        return None;
    }
    let ghost d = sin_signo(s@);
    let mut acc: u64 = 0;
    while i < n
        invariant
            inicio <= i <= n,
            n == s@.len(),
            d == sin_signo(s@),
            d == s@.subrange(inicio as int, n as int),
            son_digitos(d.take(i - inicio)),
            acc == valor_decimal(d.take(i - inicio)),
            acc <= u32::MAX,
        decreases n - i,
    {
        let c = s.get_char(i);
        proof {
            assert(d.take(i - inicio + 1).drop_last() =~= d.take(i - inicio));
        }
        if !(c >= '0' && c <= '9') {
            assert(!es_digito(d[i - inicio]));
            return None;
        }
        let v: u64 = (c as u32 - '0' as u32) as u64;
        acc = acc * 10 + v;
        proof {
            assert forall|j: int| 0 <= j < i - inicio + 1 implies es_digito(
                #[trigger] d.take(i - inicio + 1)[j],
            ) by {}
        }
        if acc > u32::MAX as u64 {
            proof {
                lema_valor_crece(d, i - inicio + 1);
            }
            return None;
        }
        i = i + 1;
    }
    proof {
        assert(d.take(n - inicio) =~= d);
    }
    Some(acc as u32)
}

/// Parte `s` en los trozos que deja `sep`.
pub fn separar_texto<'a>(s: &'a str, sep: char) -> (trozos: Vec<&'a str>)
    ensures
        trozos@.len() == separar(s@, sep).len(),
        forall|j: int| 0 <= j < trozos@.len() ==> (#[trigger] trozos@[j])@ == separar(s@, sep)[j],
{
    let n: usize = s.unicode_len();
    let mut trozos: Vec<&'a str> = Vec::new();
    let mut inicio: usize = 0;
    let mut i: usize = 0;
    while i < n
        invariant
            inicio <= i <= n,
            n == s@.len(),
            separar(s@.take(i as int), sep).len() == trozos@.len() + 1,
            forall|j: int| 0 <= j < trozos@.len() ==> (#[trigger] trozos@[j])@ == separar(s@.take(i as int), sep)[j],
            separar(s@.take(i as int), sep).last() == s@.subrange(inicio as int, i as int),
        decreases n - i,
    {
        let c = s.get_char(i);
        proof {
            assert(s@.take(i + 1).drop_last() =~= s@.take(i as int));
        }
        if c == sep {
            let trozo = s.substring_char(inicio, i);
            trozos.push(trozo);
            inicio = i + 1;
        }
        i = i + 1;
    }
    let ultimo = s.substring_char(inicio, n);
    trozos.push(ultimo);
    proof {
        assert(s@.take(n as int) =~= s@);
    }
    trozos
}

/// Dice si dos textos son iguales carácter por carácter.
pub fn iguales(a: &str, b: &str) -> (r: bool)
    ensures
        r <==> a@ == b@,
{
    let n: usize = a.unicode_len();
    if n != b.unicode_len() {
        return false;
    }
    let mut i: usize = 0;
    while i < n
        invariant
            i <= n,
            n == a@.len(),
            n == b@.len(),
            a@.take(i as int) == b@.take(i as int),
        decreases n - i,
    {
        if a.get_char(i) != b.get_char(i) {
            return false;
        }
        i = i + 1;
    }
    proof {
        assert(a@.take(n as int) =~= a@);
        assert(b@.take(n as int) =~= b@);
    }
    true
}

} // verus!
