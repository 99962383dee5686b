//! La simulación completa a partir de sus parámetros, con las personas
//! pasando por el parque una tras otra.

use crate::args::Args;
use crate::args::VistaArgs;
use crate::azar::generador_sembrado;
use crate::juego::cantidad_descripta;
use crate::juego::crear_juegos;
use crate::juego::juego_nuevo;
use crate::juego::EstadoJuego;
use crate::parque::en_u32;
use crate::parque::EstadoParque;
use crate::parque::Parque;
use crate::persona::comienzo;
use crate::persona::costo_de;
use crate::persona::nada_alcanza;
use crate::persona::presupuestos_de;
use crate::persona::recaudado;
use crate::persona::recorrer_parque;
use crate::persona::suma;
use crate::persona::tras_vueltas;
use crate::persona::vueltas_de;
use crate::persona::vueltas_validas;
use crate::persona::Recorrido;
use vstd::prelude::*;

verus! {

/// Los juegos que describen tres arreglos de costos, capacidades y
/// duraciones, recién creados.
pub open spec fn juegos_descriptos(
    costos: Seq<u32>,
    capacidades: Seq<u32>,
    duraciones: Seq<u32>,
) -> Seq<EstadoJuego> {
    Seq::new(
        cantidad_descripta(costos.len(), capacidades.len(), duraciones.len()),
        |i: int| juego_nuevo(i as usize, costos[i], capacidades[i], duraciones[i]),
    )
}

/// Los juegos que describen los parámetros, si están los tres arreglos.
pub open spec fn juegos_de(a: VistaArgs) -> Seq<EstadoJuego>
    recommends
        a.costo_juegos is Some,
        a.capacidad_juegos is Some,
        a.duracion_juegos is Some,
{
    juegos_descriptos(
        a.costo_juegos->Some_0,
        a.capacidad_juegos->Some_0,
        a.duracion_juegos->Some_0,
    )
}

/// Con estos parámetros se puede armar el parque: están los tres arreglos
/// de los juegos y todos los juegos tienen algún lugar.
pub open spec fn se_puede_armar(a: VistaArgs) -> bool {
    &&& a.costo_juegos is Some
    &&& a.capacidad_juegos is Some
    &&& a.duracion_juegos is Some
    &&& forall|i: int| 0 <= i < juegos_de(a).len() ==> (#[trigger] juegos_de(a)[i]).capacidad >= 1
}

/// Con estos parámetros se puede simular: se puede armar el parque, al
/// parque entra al menos una persona y todos los juegos cobran entrada.
pub open spec fn se_puede_simular(a: VistaArgs) -> bool {
    &&& se_puede_armar(a)
    &&& a.capacidad_parque >= 1
    &&& forall|i: int| 0 <= i < juegos_de(a).len() ==> (#[trigger] juegos_de(a)[i]).precio >= 1
}

/// El parque recién armado con estos parámetros.
pub open spec fn parque_de(a: VistaArgs) -> EstadoParque {
    EstadoParque {
        capacidad: a.capacidad_parque as usize,
        gente_adentro: 0,
        salieron: 0,
        caja: 0,
        juegos: juegos_de(a),
    }
}

/// Los parámetros que se terminan de leer sirven para simular.
pub proof fn lema_parametros_simulables(a: VistaArgs)
    requires
        a.naturales(),
        a.resueltos(),
    ensures
        se_puede_simular(a),
{
    let costos = a.costo_juegos->Some_0;
    let capacidades = a.capacidad_juegos->Some_0;
    assert forall|i: int| 0 <= i < juegos_de(a).len() implies (#[trigger] juegos_de(a)[i]).capacidad
        >= 1 && juegos_de(a)[i].precio >= 1 by {}
}

/// Arma el parque que describen los parámetros, vacío y con sus juegos
/// registrados. El parque y cada juego sortean con el generador que
/// corresponde a la semilla de los parámetros. No lo arma si falta alguno de
/// los arreglos de los juegos o si algún juego no tiene lugares.
pub fn armar_parque(args: &Args) -> (r: Option<Parque>)
    ensures
        r is Some <==> se_puede_armar(args@),
        r matches Some(parque) ==> parque@ == parque_de(args@) && parque@.wf() && parque@.con_lugar(),
        r matches Some(parque) ==> parque.generador_propio() == generador_sembrado(
            args.semilla as u64,
        ) && forall|i: int|
            0 <= i < parque@.juegos.len() ==> #[trigger] parque.generador_del_juego(i)
                == generador_sembrado(args.semilla as u64),
{
    let costos = match &args.costo_juegos {
        Some(v) => v,
        None => {
            return None;
        },
    };
    let capacidades = match &args.capacidad_juegos {
        Some(v) => v,
        None => {
            return None;
        },
    };
    let duraciones = match &args.duracion_juegos {
        Some(v) => v,
        None => {
            return None;
        },
    };
    let ghost descriptos = juegos_de(args@);
    match crear_juegos(costos, capacidades, duraciones, args.semilla as u64) {
        Some(juegos) => {
            let mut parque = Parque::new(args.capacidad_parque as usize, args.semilla as u64);
            proof {
                assert forall|i: int| 0 <= i < descriptos.len() implies (
                #[trigger] descriptos[i]).capacidad >= 1 by {}
            }
            parque.registrar_juegos(juegos);
            assert(parque@.juegos =~= descriptos);
            Some(parque)
        },
        None => {
            proof {
                let i = choose|i: int|
                    0 <= i < cantidad_descripta(
                        costos@.len(),
                        capacidades@.len(),
                        duraciones@.len(),
                    ) && !(#[trigger] capacidades@[i] >= 1);
                assert(descriptos[i].capacidad == 0);
            }
            None
        },
    }
}

/// Una simulación terminada: el parque como quedó y lo que hicieron las
/// personas.
pub struct Simulacion {
    pub parque: Parque,
    pub recorrido: Recorrido,
}

/// Simula el parque que describen los parámetros: lo arma y hace pasar a
/// las personas, una tras otra, cada una con su presupuesto.
///
/// Al terminar salieron todas, no queda nadie adentro, a ninguna le alcanza
/// para otro juego, lo que gastó cada una es lo que cuestan sus propias
/// vueltas, los juegos quedaron vacíos, y en la caja está lo que gastaron
/// entre todas, que es lo que recaudó cada juego: su precio por las vueltas
/// que se dieron en él.
pub fn simular(args: &Args) -> (r: Option<Simulacion>)
    ensures
        r is Some <==> se_puede_simular(args@),
        r matches Some(simulacion) ==> {
            let juegos = juegos_de(args@);
            let personas = simulacion.recorrido.personas@;
            let vueltas = simulacion.recorrido.vueltas@;
            let cantidades = simulacion.recorrido.vueltas_por_persona@;
            &&& personas.len() == args@.presupuesto_personas.len()
            &&& forall|i: int|
                0 <= i < personas.len() ==> {
                    let persona = (#[trigger] personas[i])@;
                    &&& persona.id == i
                    &&& persona.presupuesto <= args@.presupuesto_personas[i]
                    &&& nada_alcanza(juegos, persona.presupuesto)
                }
            &&& vueltas_validas(juegos, vueltas)
            &&& cantidades.len() == personas.len()
            &&& comienzo(cantidades, personas.len() as int) == vueltas.len()
            &&& forall|i: int|
                0 <= i < personas.len() ==> args@.presupuesto_personas[i] - (
                #[trigger] personas[i])@.presupuesto == costo_de(
                    juegos,
                    vueltas_de(vueltas, cantidades, i),
                )
            &&& suma(args@.presupuesto_personas) - suma(presupuestos_de(personas)) == costo_de(
                juegos,
                vueltas,
            )
            &&& costo_de(juegos, vueltas) == recaudado(juegos, vueltas, juegos.len())
            &&& simulacion.parque@.salieron == personas.len()
            &&& simulacion.parque@ == (EstadoParque {
                caja: en_u32(costo_de(juegos, vueltas)),
                salieron: simulacion.parque@.salieron,
                ..parque_de(args@)
            })
        },
{
    let mut parque = match armar_parque(args) {
        Some(parque) => parque,
        None => {
            return None;
        },
    };
    let ghost juegos = juegos_de(args@);
    if args.capacidad_parque == 0 {
        return None;
    }
    let cantidad: usize = parque.cantidad_juegos();
    let mut i: usize = 0;
    while i < cantidad
        invariant
            i <= cantidad,
            cantidad == juegos.len(),
            parque@ == parque_de(args@),
            juegos == juegos_de(args@),
            forall|j: int| 0 <= j < i ==> (#[trigger] juegos[j]).precio >= 1,
        decreases cantidad - i,
    {
        if parque.juego(i).precio() == 0 {
            return None;
        }
        i = i + 1;
    }
    let poblacion: usize = args.presupuesto_personas.len();
    let recorrido = recorrer_parque(&mut parque, &args.presupuesto_personas);
    proof {
        assert forall|j: int| 0 <= j < juegos.len() implies (#[trigger] tras_vueltas(
            juegos,
            recorrido.vueltas@,
        )[j]) == juegos[j] by {}
        assert(tras_vueltas(juegos, recorrido.vueltas@) =~= juegos);
    }
    Some(Simulacion { parque, recorrido })
}

} // verus!
