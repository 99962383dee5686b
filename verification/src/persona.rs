//! Un visitante, su presupuesto y su recorrido por el parque.

use crate::juego::EstadoJuego;
use crate::juego::Juego;
use crate::parque::en_u32;
use crate::parque::una_salida_mas;
use crate::parque::EstadoParque;
use crate::parque::Parque;
use vstd::prelude::*;

verus! {

/// Lo que un visitante es para las especificaciones.
pub struct EstadoPersona {
    pub id: usize,
    pub presupuesto: u32,
}

/// Un visitante del parque. Su presupuesto sólo puede bajar.
pub struct Persona {
    id: usize,
    presupuesto: u32,
}

impl View for Persona {
    type V = EstadoPersona;

    closed spec fn view(&self) -> EstadoPersona {
        EstadoPersona { id: self.id, presupuesto: self.presupuesto }
    }
}

/// Lo que cuestan, sumadas, las vueltas de `vueltas`, cada una dada por la
/// posición de su juego.
pub open spec fn costo_de(juegos: Seq<EstadoJuego>, vueltas: Seq<usize>) -> int
    decreases vueltas.len(),
{
    if vueltas.len() == 0 {
        0
    } else {
        costo_de(juegos, vueltas.drop_last()) + juegos[vueltas.last() as int].precio
    }
}

/// Cuántas de las `vueltas` fueron en el juego `indice`.
pub open spec fn veces(vueltas: Seq<usize>, indice: usize) -> nat
    decreases vueltas.len(),
{
    if vueltas.len() == 0 {
        0
    } else {
        veces(vueltas.drop_last(), indice) + if vueltas.last() == indice {
            1nat
        } else {
            0nat
        }
    }
}

/// Lo recaudado por los primeros `n` juegos: el precio de cada uno por las
/// vueltas que se dieron en él.
pub open spec fn recaudado(juegos: Seq<EstadoJuego>, vueltas: Seq<usize>, n: nat) -> int
    decreases n,
{
    if n == 0 {
        0
    } else {
        recaudado(juegos, vueltas, (n - 1) as nat) + juegos[n - 1].precio * veces(
            vueltas,
            (n - 1) as usize,
        )
    }
}

/// Los juegos después de las `vueltas`: vacío cada uno en el que se dio
/// alguna, igual que antes el resto.
pub open spec fn tras_vueltas(juegos: Seq<EstadoJuego>, vueltas: Seq<usize>) -> Seq<EstadoJuego> {
    Seq::new(
        juegos.len(),
        |i: int|
            if vueltas.contains(i as usize) {
                juegos[i].desocupado()
            } else {
                juegos[i]
            },
    )
}

/// Las `vueltas` son en juegos que existen.
pub open spec fn vueltas_validas(juegos: Seq<EstadoJuego>, vueltas: Seq<usize>) -> bool {
    forall|k: int| 0 <= k < vueltas.len() ==> (#[trigger] vueltas[k]) < juegos.len()
}

/// Ningún juego se puede pagar con `presupuesto`.
pub open spec fn nada_alcanza(juegos: Seq<EstadoJuego>, presupuesto: u32) -> bool {
    forall|i: int| 0 <= i < juegos.len() ==> (#[trigger] juegos[i]).precio > presupuesto
}

/// El contador de salidas después de `n` salidas más.
pub open spec fn salidas_tras(salieron: usize, n: nat) -> usize
    decreases n,
{
    if n == 0 {
        salieron
    } else {
        una_salida_mas(salidas_tras(salieron, (n - 1) as nat))
    }
}

/// La suma de los números de `v`.
pub open spec fn suma(v: Seq<u32>) -> int
    decreases v.len(),
{
    if v.len() == 0 {
        0
    } else {
        suma(v.drop_last()) + v.last()
    }
}

/// Dónde empiezan, entre todas las vueltas, las de la persona `i`: detrás de
/// las de quienes pasaron antes, que dieron `cantidades[0]`,
/// `cantidades[1]`, ... vueltas.
pub open spec fn comienzo(cantidades: Seq<usize>, i: int) -> int
    decreases i,
{
    if i <= 0 {
        0
    } else {
        comienzo(cantidades, i - 1) + cantidades[i - 1]
    }
}

/// Las vueltas de la persona `i`, en orden: de todas las vueltas, el tramo
/// que le toca.
pub open spec fn vueltas_de(vueltas: Seq<usize>, cantidades: Seq<usize>, i: int) -> Seq<usize> {
    vueltas.subrange(comienzo(cantidades, i), comienzo(cantidades, i) + cantidades[i])
}

/// Los presupuestos de una lista de personas.
pub open spec fn presupuestos_de(personas: Seq<Persona>) -> Seq<u32> {
    Seq::new(personas.len(), |i: int| personas[i]@.presupuesto)
}

impl Persona {
    /// La persona `id` con su presupuesto inicial.
    pub fn new(id: usize, presupuesto: u32) -> (p: Self)
        ensures
            p@ == (EstadoPersona { id, presupuesto }),
    {
        Persona { id, presupuesto }
    }

    pub fn id(&self) -> (id: usize)
        ensures
            id == self@.id,
    {
        self.id
    }

    pub fn presupuesto(&self) -> (presupuesto: u32)
        ensures
            presupuesto == self@.presupuesto,
    {
        self.presupuesto
    }

    /// Paga la entrada del juego y devuelve lo que le queda.
    pub fn pagar_juego(&mut self, juego: &Juego) -> (restante: u32)
        requires
            old(self)@.presupuesto >= juego@.precio,
        ensures
            final(self)@ == (EstadoPersona {
                presupuesto: (old(self)@.presupuesto - juego@.precio) as u32,
                ..old(self)@
            }),
            restante == final(self)@.presupuesto,
    {
        self.presupuesto = self.presupuesto - juego.precio();
        self.presupuesto
    }

    /// El próximo juego de la persona: uno al azar entre los que puede
    /// pagar. No hay próximo juego cuando se quedó sin dinero o cuando no le
    /// alcanza para ninguno: ahí termina su visita.
    pub fn proximo_juego(&self, parque: &mut Parque) -> (proximo: Option<usize>)
        ensures
            final(parque)@ == old(parque)@,
            proximo is None <==> self@.presupuesto == 0 || nada_alcanza(
                old(parque)@.juegos,
                self@.presupuesto,
            ),
            proximo matches Some(indice) ==> indice < old(parque)@.juegos.len() && old(
                parque,
            )@.juegos[indice as int].precio <= self@.presupuesto,
    {
        if self.presupuesto == 0 {
            return None;
        }
        match parque.elegir_juego_random(self.presupuesto) {
            Ok(indice) => Some(indice),
            Err(e) => None,
        }
    }

    /// Juega una vuelta en el juego `indice` del parque, sin que nadie más
    /// se mueva mientras tanto. Lo que paga queda en la caja y el juego
    /// queda vacío.
    pub fn jugar(&mut self, parque: &mut Parque, indice: usize)
        requires
            old(parque)@.wf(),
            indice < old(parque)@.juegos.len(),
            old(parque)@.juegos[indice as int].admite(),
            old(self)@.presupuesto >= old(parque)@.juegos[indice as int].precio,
        ensures
            final(parque)@.wf(),
            final(parque)@ == (EstadoParque {
                caja: en_u32(old(parque)@.caja + old(parque)@.juegos[indice as int].precio),
                juegos: old(parque)@.juegos.update(
                    indice as int,
                    old(parque)@.juegos[indice as int].desocupado(),
                ),
                ..old(parque)@
            }),
            final(self)@ == (EstadoPersona {
                presupuesto: (old(self)@.presupuesto - old(parque)@.juegos[indice as int].precio) as u32,
                ..old(self)@
            }),
    {
        let cobrado: u32 = parque.juego_mut(indice).agregar_a_la_fila(self);
        parque.guardar_dinero(cobrado);
    }

    /// La visita completa de una persona que recorre el parque sin que
    /// nadie más se mueva: entra, juega mientras algún juego le alcance,
    /// eligiendo al azar entre los que puede pagar, y se va. Devuelve los
    /// juegos en los que dio una vuelta, en orden.
    ///
    /// Al irse no le alcanza para ningún juego; lo que gastó es lo que
    /// cuestan sus vueltas y está en la caja; el parque la cuenta entre las
    /// que salieron.
    pub fn visitar_parque(&mut self, parque: &mut Parque) -> (vueltas: Vec<usize>)
        requires
            old(parque)@.wf(),
            old(parque)@.precios_positivos(),
            old(parque)@.con_lugar(),
            old(parque)@.gente_adentro < old(parque)@.capacidad,
        ensures
            final(self)@.id == old(self)@.id,
            final(self)@.presupuesto <= old(self)@.presupuesto,
            vueltas_validas(old(parque)@.juegos, vueltas@),
            old(self)@.presupuesto - final(self)@.presupuesto == costo_de(
                old(parque)@.juegos,
                vueltas@,
            ),
            nada_alcanza(old(parque)@.juegos, final(self)@.presupuesto),
            final(parque)@ == (EstadoParque {
                caja: en_u32(old(parque)@.caja + costo_de(old(parque)@.juegos, vueltas@)),
                salieron: una_salida_mas(old(parque)@.salieron),
                juegos: tras_vueltas(old(parque)@.juegos, vueltas@),
                ..old(parque)@
            }),
            final(parque)@.wf(),
            final(parque)@.precios_positivos(),
            final(parque)@.con_lugar(),
    {
        let ghost antes = parque@;
        let ghost inicial = self@.presupuesto;
        let mut vueltas: Vec<usize> = Vec::new();
        let cantidad: usize = parque.cantidad_juegos();
        let entro: bool = parque.ingresar_persona();
        assert(entro);
        assert(parque@.juegos =~= tras_vueltas(antes.juegos, vueltas@));
        loop
            invariant
                self@.id == old(self)@.id,
                inicial == old(self)@.presupuesto,
                antes == old(parque)@,
                antes.wf(),
                antes.precios_positivos(),
                antes.juegos.len() == cantidad,
                self@.presupuesto <= inicial,
                vueltas_validas(antes.juegos, vueltas@),
                inicial - self@.presupuesto == costo_de(antes.juegos, vueltas@),
                parque@ == (EstadoParque {
                    gente_adentro: (antes.gente_adentro + 1) as usize,
                    caja: en_u32(antes.caja + costo_de(antes.juegos, vueltas@)),
                    juegos: tras_vueltas(antes.juegos, vueltas@),
                    ..antes
                }),
                parque@.wf(),
                parque@.con_lugar(),
            ensures
                nada_alcanza(antes.juegos, self@.presupuesto),
            decreases self@.presupuesto,
        {
            let ghost previas = vueltas@;
            let ghost juegos = parque@.juegos;
            match self.proximo_juego(parque) {
                Some(indice) => {
                    self.jugar(parque, indice);
                    vueltas.push(indice);
                    proof {
                        assert(vueltas@ =~= previas.push(indice));
                        assert(vueltas@.drop_last() =~= previas);
                        assert(juegos[indice as int].precio == antes.juegos[indice as int].precio);
                        lema_una_vuelta_mas(antes.juegos, previas, indice);
                    }
                },
                None => {
                    assert forall|i: int| 0 <= i < antes.juegos.len() implies (
                    #[trigger] antes.juegos[i]).precio > self@.presupuesto by {
                        assert(juegos[i].precio == antes.juegos[i].precio);
                    }
                    break ;
                },
            }
        }
        parque.salir_persona();
        vueltas
    }
}

/// Las personas que recorrieron el parque y las vueltas que dieron.
pub struct Recorrido {
    /// Las personas, con lo que le quedó a cada una.
    pub personas: Vec<Persona>,
    /// Los juegos en los que se dio cada vuelta, en orden: primero las de
    /// la primera persona, después las de la segunda, y así.
    pub vueltas: Vec<usize>,
    /// Cuántas vueltas dio cada persona.
    pub vueltas_por_persona: Vec<usize>,
}

/// Hace pasar por el parque, una tras otra, a una persona por cada
/// presupuesto; la persona `i` lleva el presupuesto `i`.
///
/// Todas salen, a ninguna le alcanza para otro juego, lo que gastó cada una
/// es lo que cuestan sus propias vueltas, y lo que gastaron entre todas es
/// lo que cuestan todas las vueltas y está en la caja.
pub fn recorrer_parque(parque: &mut Parque, presupuestos: &Vec<u32>) -> (recorrido: Recorrido)
    requires
        old(parque)@.wf(),
        old(parque)@.precios_positivos(),
        old(parque)@.con_lugar(),
        old(parque)@.gente_adentro < old(parque)@.capacidad,
    ensures
        recorrido.personas@.len() == presupuestos@.len(),
        forall|i: int|
            0 <= i < presupuestos@.len() ==> {
                let persona = (#[trigger] recorrido.personas@[i])@;
                &&& persona.id == i
                &&& persona.presupuesto <= presupuestos@[i]
                &&& nada_alcanza(old(parque)@.juegos, persona.presupuesto)
            },
        vueltas_validas(old(parque)@.juegos, recorrido.vueltas@),
        recorrido.vueltas_por_persona@.len() == presupuestos@.len(),
        comienzo(recorrido.vueltas_por_persona@, presupuestos@.len() as int)
            == recorrido.vueltas@.len(),
        forall|i: int|
            0 <= i < presupuestos@.len() ==> presupuestos@[i] - (
            #[trigger] recorrido.personas@[i])@.presupuesto == costo_de(
                old(parque)@.juegos,
                vueltas_de(recorrido.vueltas@, recorrido.vueltas_por_persona@, i),
            ),
        suma(presupuestos@) - suma(presupuestos_de(recorrido.personas@)) == costo_de(
            old(parque)@.juegos,
            recorrido.vueltas@,
        ),
        final(parque)@ == (EstadoParque {
            caja: en_u32(old(parque)@.caja + costo_de(old(parque)@.juegos, recorrido.vueltas@)),
            salieron: salidas_tras(old(parque)@.salieron, presupuestos@.len()),
            juegos: tras_vueltas(old(parque)@.juegos, recorrido.vueltas@),
            ..old(parque)@
        }),
        old(parque)@.salieron + presupuestos@.len() <= usize::MAX ==> final(parque)@.salieron
            == old(parque)@.salieron + presupuestos@.len(),
        costo_de(old(parque)@.juegos, recorrido.vueltas@) == recaudado(
            old(parque)@.juegos,
            recorrido.vueltas@,
            old(parque)@.juegos.len(),
        ),
        final(parque)@.wf(),
{
    let ghost antes = parque@;
    let mut personas: Vec<Persona> = Vec::new();
    let mut vueltas: Vec<usize> = Vec::new();
    let mut vueltas_por_persona: Vec<usize> = Vec::new();
    let mut id: usize = 0;
    let cantidad: usize = parque.cantidad_juegos();
    assert(parque@.juegos =~= tras_vueltas(antes.juegos, vueltas@));
    while id < presupuestos.len()
        invariant
            id <= presupuestos@.len(),
            antes == old(parque)@,
            antes.wf(),
            antes.precios_positivos(),
            antes.gente_adentro < antes.capacidad,
            antes.juegos.len() == cantidad,
            personas@.len() == id,
            forall|i: int|
                0 <= i < id ==> {
                    let persona = (#[trigger] personas@[i])@;
                    &&& persona.id == i
                    &&& persona.presupuesto <= presupuestos@[i]
                    &&& nada_alcanza(antes.juegos, persona.presupuesto)
                },
            vueltas_validas(antes.juegos, vueltas@),
            vueltas_por_persona@.len() == id,
            comienzo(vueltas_por_persona@, id as int) == vueltas@.len(),
            forall|i: int|
                0 <= i < id ==> presupuestos@[i] - (#[trigger] personas@[i])@.presupuesto
                    == costo_de(antes.juegos, vueltas_de(vueltas@, vueltas_por_persona@, i)),
            suma(presupuestos@.take(id as int)) - suma(presupuestos_de(personas@)) == costo_de(
                antes.juegos,
                vueltas@,
            ),
            parque@ == (EstadoParque {
                caja: en_u32(antes.caja + costo_de(antes.juegos, vueltas@)),
                salieron: salidas_tras(antes.salieron, id as nat),
                juegos: tras_vueltas(antes.juegos, vueltas@),
                ..antes
            }),
            parque@.wf(),
            parque@.precios_positivos(),
            parque@.con_lugar(),
        decreases presupuestos@.len() - id,
    {
        let ghost previas = vueltas@;
        let ghost anteriores = personas@;
        let ghost cantidades = vueltas_por_persona@;
        let ghost juegos = parque@.juegos;
        let mut persona = Persona::new(id, presupuestos[id]);
        let mut suyas: Vec<usize> = persona.visitar_parque(parque);
        vueltas_por_persona.push(suyas.len());
        proof {
            let nuevas = cantidades.push(suyas@.len() as usize);
            let todas = previas + suyas@;
            lema_comienzo_igual(cantidades, nuevas, id as int);
            assert(comienzo(nuevas, id + 1) == previas.len() + suyas@.len());
            assert(vueltas_de(todas, nuevas, id as int) =~= suyas@);
            assert forall|i: int| 0 <= i < id implies vueltas_de(todas, nuevas, i) == vueltas_de(
                previas,
                cantidades,
                i,
            ) by {
                lema_comienzo_igual(cantidades, nuevas, i);
                lema_comienzo_crece(cantidades, i, i + 1);
                lema_comienzo_crece(cantidades, i + 1, id as int);
                assert(comienzo(cantidades, i + 1) == comienzo(cantidades, i) + cantidades[i]);
                assert(nuevas[i] == cantidades[i]);
                assert(comienzo(cantidades, i) + cantidades[i] <= previas.len());
                assert(vueltas_de(todas, nuevas, i) =~= vueltas_de(previas, cantidades, i));
            }
            lema_costo_igual(antes.juegos, juegos, suyas@);
            lema_costo_suma(antes.juegos, previas, suyas@);
            lema_vueltas_seguidas(antes.juegos, previas, suyas@);
            assert forall|i: int| 0 <= i < antes.juegos.len() implies (
            #[trigger] antes.juegos[i]).precio > persona@.presupuesto by {
                assert(juegos[i].precio == antes.juegos[i].precio);
            }
            assert(presupuestos@.take(id + 1).drop_last() =~= presupuestos@.take(id as int));
            assert(presupuestos_de(anteriores.push(persona)).drop_last() =~= presupuestos_de(
                anteriores,
            ));
        }
        vueltas.append(&mut suyas);
        personas.push(persona);
        id = id + 1;
    }
    proof {
        assert(presupuestos@.take(id as int) =~= presupuestos@);
        if antes.salieron + presupuestos@.len() <= usize::MAX {
            lema_salidas(antes.salieron, presupuestos@.len());
        }
        lema_recaudacion_por_juego(antes.juegos, vueltas@);
    }
    Recorrido { personas, vueltas, vueltas_por_persona }
}

/// Dónde empiezan las vueltas de una persona sólo depende de cuántas dieron
/// las que pasaron antes.
pub proof fn lema_comienzo_igual(a: Seq<usize>, b: Seq<usize>, i: int)
    requires
        i <= a.len(),
        i <= b.len(),
        forall|j: int| 0 <= j < i ==> a[j] == b[j],
    ensures
        comienzo(a, i) == comienzo(b, i),
    decreases i,
{
    if i > 0 {
        lema_comienzo_igual(a, b, i - 1);
    }
}

/// Las vueltas de quien pasa después empiezan después.
pub proof fn lema_comienzo_crece(cantidades: Seq<usize>, i: int, j: int)
    requires
        0 <= i <= j,
    ensures
        0 <= comienzo(cantidades, i) <= comienzo(cantidades, j),
    decreases j,
{
    if i < j {
        lema_comienzo_crece(cantidades, i, j - 1);
    } else if i > 0 {
        lema_comienzo_crece(cantidades, i - 1, j - 1);
    }
}

/// Donde todos los juegos cuestan lo mismo, unas vueltas cuestan ese precio
/// por la cantidad de vueltas.
pub proof fn lema_costo_con_precio_unico(juegos: Seq<EstadoJuego>, vueltas: Seq<usize>, precio: u32)
    requires
        vueltas_validas(juegos, vueltas),
        forall|i: int| 0 <= i < juegos.len() ==> (#[trigger] juegos[i]).precio == precio,
    ensures
        costo_de(juegos, vueltas) == precio * vueltas.len(),
    decreases vueltas.len(),
{
    if vueltas.len() > 0 {
        let previas = vueltas.drop_last();
        assert(vueltas_validas(juegos, previas)) by {
            assert forall|k: int| 0 <= k < previas.len() implies (#[trigger] previas[k])
                < juegos.len() by {
                assert(previas[k] == vueltas[k]);
            }
        }
        lema_costo_con_precio_unico(juegos, previas, precio);
        assert(vueltas[vueltas.len() - 1] < juegos.len());
        assert(precio * (previas.len() + 1) == precio * previas.len() + precio)
            by (nonlinear_arith);
    }
}

/// Una vuelta más deja vacío el juego en el que se da y no toca el resto.
pub proof fn lema_una_vuelta_mas(juegos: Seq<EstadoJuego>, vueltas: Seq<usize>, indice: usize)
    requires
        indice < juegos.len(),
        juegos.len() <= usize::MAX,
    ensures
        tras_vueltas(juegos, vueltas.push(indice)) == tras_vueltas(juegos, vueltas).update(
            indice as int,
            tras_vueltas(juegos, vueltas)[indice as int].desocupado(),
        ),
{
    let todas = vueltas.push(indice);
    assert forall|i: int| 0 <= i < juegos.len() implies (#[trigger] todas.contains(i as usize)) == (
    i == indice || vueltas.contains(i as usize)) by {
        let x = i as usize;
        if vueltas.contains(x) {
            let k = choose|k: int| 0 <= k < vueltas.len() && vueltas[k] == x;
            assert(todas[k] == x);
        }
        if i == indice {
            assert(todas[todas.len() - 1] == x);
        }
        if todas.contains(x) {
            let k = choose|k: int| 0 <= k < todas.len() && todas[k] == x;
            assert(k < vueltas.len() ==> vueltas[k] == x);
        }
    }
    assert(tras_vueltas(juegos, todas) =~= tras_vueltas(juegos, vueltas).update(
        indice as int,
        tras_vueltas(juegos, vueltas)[indice as int].desocupado(),
    ));
}

/// Sin vueltas no se recauda nada.
pub proof fn lema_recaudado_sin_vueltas(juegos: Seq<EstadoJuego>, n: nat)
    ensures
        recaudado(juegos, Seq::<usize>::empty(), n) == 0,
    decreases n,
{
    if n > 0 {
        lema_recaudado_sin_vueltas(juegos, (n - 1) as nat);
        assert(juegos[n - 1].precio * 0 == 0);
    }
}

/// Una vuelta más en el juego `indice` suma su precio a lo recaudado por
/// los primeros `n` juegos, si está entre ellos.
pub proof fn lema_recaudado_una_mas(
    juegos: Seq<EstadoJuego>,
    vueltas: Seq<usize>,
    indice: usize,
    n: nat,
)
    requires
        n <= usize::MAX,
    ensures
        recaudado(juegos, vueltas.push(indice), n) == recaudado(juegos, vueltas, n) + if indice
            < n {
            juegos[indice as int].precio as int
        } else {
            0
        },
    decreases n,
{
    if n > 0 {
        lema_recaudado_una_mas(juegos, vueltas, indice, (n - 1) as nat);
        let j = (n - 1) as usize;
        let precio = juegos[n - 1].precio as int;
        let antes = veces(vueltas, j) as int;
        assert(vueltas.push(indice).drop_last() =~= vueltas);
        if indice == j {
            assert(precio * (antes + 1) == precio * antes + precio) by (nonlinear_arith);
        }
    }
}

/// Lo que cuestan las vueltas es lo que recauda cada juego: su precio por
/// las vueltas que se dieron en él, sumado sobre todos los juegos.
pub proof fn lema_recaudacion_por_juego(juegos: Seq<EstadoJuego>, vueltas: Seq<usize>)
    requires
        juegos.len() <= usize::MAX,
        vueltas_validas(juegos, vueltas),
    ensures
        costo_de(juegos, vueltas) == recaudado(juegos, vueltas, juegos.len()),
    decreases vueltas.len(),
{
    if vueltas.len() == 0 {
        assert(vueltas =~= Seq::<usize>::empty());
        lema_recaudado_sin_vueltas(juegos, juegos.len());
    } else {
        let previas = vueltas.drop_last();
        let indice = vueltas.last();
        assert(vueltas_validas(juegos, previas)) by {
            assert forall|k: int| 0 <= k < previas.len() implies (#[trigger] previas[k])
                < juegos.len() by {
                assert(previas[k] == vueltas[k]);
            }
        }
        lema_recaudacion_por_juego(juegos, previas);
        lema_recaudado_una_mas(juegos, previas, indice, juegos.len());
        assert(previas.push(indice) =~= vueltas);
    }
}

/// Mientras el contador de salidas no pase su máximo, `n` salidas más lo
/// suben en `n`.
pub proof fn lema_salidas(salieron: usize, n: nat)
    requires
        salieron + n <= usize::MAX,
    ensures
        salidas_tras(salieron, n) == salieron + n,
    decreases n,
{
    if n > 0 {
        lema_salidas(salieron, (n - 1) as nat);
    }
}

/// El costo de unas vueltas sólo depende de los precios.
pub proof fn lema_costo_igual(a: Seq<EstadoJuego>, b: Seq<EstadoJuego>, vueltas: Seq<usize>)
    requires
        a.len() == b.len(),
        forall|i: int| 0 <= i < a.len() ==> (#[trigger] a[i]).precio == b[i].precio,
        vueltas_validas(a, vueltas),
    ensures
        costo_de(a, vueltas) == costo_de(b, vueltas),
    decreases vueltas.len(),
{
    if vueltas.len() > 0 {
        assert(vueltas_validas(a, vueltas.drop_last())) by {
            assert forall|j: int| 0 <= j < vueltas.drop_last().len() implies (
            #[trigger] vueltas.drop_last()[j]) < a.len() by {
                assert(vueltas.drop_last()[j] == vueltas[j]);
            }
        }
        lema_costo_igual(a, b, vueltas.drop_last());
    }
}

/// El costo de unas vueltas seguidas de otras es la suma de sus costos.
pub proof fn lema_costo_suma(juegos: Seq<EstadoJuego>, primeras: Seq<usize>, segundas: Seq<usize>)
    ensures
        costo_de(juegos, primeras + segundas) == costo_de(juegos, primeras) + costo_de(
            juegos,
            segundas,
        ),
    decreases segundas.len(),
{
    if segundas.len() > 0 {
        assert((primeras + segundas).drop_last() =~= primeras + segundas.drop_last());
        lema_costo_suma(juegos, primeras, segundas.drop_last());
    }
}

/// Dar unas vueltas y después otras deja los juegos como darlas todas
/// juntas.
pub proof fn lema_vueltas_seguidas(
    juegos: Seq<EstadoJuego>,
    primeras: Seq<usize>,
    segundas: Seq<usize>,
)
    requires
        juegos.len() <= usize::MAX,
    ensures
        tras_vueltas(tras_vueltas(juegos, primeras), segundas) == tras_vueltas(
            juegos,
            primeras + segundas,
        ),
        vueltas_validas(juegos, primeras) && vueltas_validas(juegos, segundas) ==> vueltas_validas(
            juegos,
            primeras + segundas,
        ),
{
    let todas = primeras + segundas;
    assert forall|i: int| 0 <= i < juegos.len() implies (#[trigger] tras_vueltas(
        tras_vueltas(juegos, primeras),
        segundas,
    )[i]) == tras_vueltas(juegos, todas)[i] by {
        let x = i as usize;
        if primeras.contains(x) {
            let k = choose|k: int| 0 <= k < primeras.len() && primeras[k] == x;
            assert(todas[k] == x);
        }
        if segundas.contains(x) {
            let k = choose|k: int| 0 <= k < segundas.len() && segundas[k] == x;
            assert(todas[primeras.len() + k] == x);
        }
        if todas.contains(x) {
            let k = choose|k: int| 0 <= k < todas.len() && todas[k] == x;
            assert(k < primeras.len() ==> primeras[k] == x);
            assert(k >= primeras.len() ==> segundas[k - primeras.len()] == x);
        }
    }
}

} // verus!
