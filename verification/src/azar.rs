//! Números al azar. Todo lo que el resto del parque sabe de un sorteo es el
//! rango en el que cae: nada se prueba de cómo se sortea.

use rand::rngs::StdRng;
use rand::Rng;
use rand::SeedableRng;
use vstd::prelude::*;

verus! {

/// `rand::rngs::StdRng`, opaco.
#[verifier::external_type_specification]
#[verifier::external_body]
pub struct ExStdRng(rand::rngs::StdRng);

/// El generador que `StdRng::seed_from_u64` arma con cada semilla. Depende
/// sólo de la semilla: la misma semilla da el mismo generador en cualquier
/// máquina.
pub uninterp spec fn generador_sembrado(semilla: u64) -> StdRng;

/// `StdRng::seed_from_u64`: un generador nuevo sembrado con `semilla`. Se
/// afirma que es el que corresponde a esa semilla, y nada de lo que sortea.
#[verifier::external_body]
pub(crate) fn generador_con_semilla(semilla: u64) -> (generador: StdRng)
    ensures
        generador == generador_sembrado(semilla),
{
    StdRng::seed_from_u64(semilla)
}

/// `Rng::gen_range` de un `StdRng` sobre el rango `0..n` de `usize`: se
/// afirma que el sorteo cae en el rango, que es lo que su documentación
/// promete. El rango vacío queda afuera porque `gen_range` lo rechaza con un
/// pánico.
#[verifier::external_body]
pub(crate) fn indice_al_azar(rng: &mut StdRng, n: usize) -> (i: usize)
    requires
        n > 0,
    ensures
        i < n,
{
    rng.gen_range(0..n)
}

/// `Rng::gen_range` de un `StdRng` sobre el rango `0..tope` de `u64`: se
/// afirma que el sorteo cae en el rango. El rango vacío queda afuera porque
/// `gen_range` lo rechaza con un pánico.
#[verifier::external_body]
pub(crate) fn milisegundos_al_azar(rng: &mut StdRng, tope: u64) -> (ms: u64)
    requires
        tope > 0,
    ensures
        ms < tope,
{
    rng.gen_range(0..tope)
}

/// `Rng::gen_range` del generador del hilo (`rand::thread_rng`) sobre el
/// rango `min..max` de `u32`: se afirma que el sorteo cae en el rango. El
/// rango vacío queda afuera porque `gen_range` lo rechaza con un pánico. El
/// generador del hilo se siembra con el azar del sistema la primera vez que
/// se lo pide, y eso falla con un pánico si el sistema no lo puede dar.
#[verifier::external_body]
pub(crate) fn natural_al_azar(min: u32, max: u32) -> (n: u32)
    requires
        min < max,
    ensures
        min <= n < max,
{
    rand::thread_rng().gen_range(min..max)
}

/// `Rng::gen` del generador del hilo (`rand::thread_rng`) para un `u32`:
/// puede salir cualquiera, así que no se afirma nada. El generador del hilo
/// se siembra con el azar del sistema la primera vez que se lo pide, y eso
/// falla con un pánico si el sistema no lo puede dar.
#[verifier::external_body]
pub(crate) fn semilla_del_sistema() -> u32 {
    rand::thread_rng().gen()
}

} // verus!
