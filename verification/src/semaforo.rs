//! El semáforo con el que un juego reparte los permisos de salida. Lo
//! comparten el hilo del juego y los de las personas, así que de su cuenta
//! no se afirma nada.

use std_semaphore::Semaphore;
use vstd::prelude::*;

verus! {

/// `std_semaphore::Semaphore`, opaco.
#[verifier::external_type_specification]
#[verifier::external_body]
pub struct ExSemaphore(std_semaphore::Semaphore);

/// `Semaphore::release`: suma uno a la cuenta del semáforo y despierta a
/// alguien que espere. No devuelve nada y nada se afirma. Toma el cerrojo
/// interno del semáforo, y falla con un pánico si otro hilo lo dejó
/// envenenado.
#[verifier::external_body]
pub(crate) fn liberar_permiso(semaforo: &Semaphore) {
    semaforo.release();
}

} // verus!
