//! Simulación de un parque de diversiones.
//!
//! - [`args`]: los parámetros de la simulación y su lectura desde la línea
//!   de comando.
//! - [`juego`]: un juego con cupo por vuelta y las decisiones de su ciclo.
//! - [`parque`]: el cupo del parque, su caja y el registro de juegos.
//! - [`persona`]: un visitante, su presupuesto y su recorrido.
//! - [`simulacion`]: la simulación completa, una persona por vez.
//! - [`texto`]: números en decimal y separación de textos.
//! - [`azar`] y [`semaforo`]: lo que se usa, sin probarlo, de los sorteos y
//!   del semáforo de los permisos de salida.
//!
//! La biblioteca guarda el estado y decide; esperar, dormir y repartir el
//! trabajo entre hilos queda para quien la usa.

pub mod args;
pub mod azar;
pub mod juego;
pub mod parque;
pub mod persona;
pub mod semaforo;
pub mod simulacion;
pub mod texto;
