//! Un juego del parque: sus parámetros fijos, el estado de sus lugares y las
//! decisiones de su ciclo de vueltas.
//!
//! El ciclo de un juego alterna esperas (dormir, esperar gente, esperar que
//! todos salgan) con decisiones. Las esperas las hace quien conduce el juego;
//! las decisiones están acá: a cada suceso que el conductor informa,
//! [`Juego::avanzar`] responde con la próxima acción.

use crate::azar::generador_con_semilla;
use crate::azar::generador_sembrado;
use crate::azar::milisegundos_al_azar;
use crate::persona::EstadoPersona;
use crate::persona::Persona;
use crate::semaforo::liberar_permiso;
use rand::rngs::StdRng;
use std_semaphore::Semaphore;
use vstd::prelude::*;

verus! {

/// Tope, en milisegundos, del tiempo de arreglo de un desperfecto.
pub const TIEMPO_MAXIMO_ARREGLO_DESPERFECTO: u64 = 25;

/// Cuánto espera un juego, en milisegundos, a que se llene.
pub const TIEMPO_DE_ESPERA_DE_PERSONAS: u64 = 5000;

/// Lo que un juego es para las especificaciones.
pub struct EstadoJuego {
    pub id: usize,
    pub precio: u32,
    pub duracion_ms: u32,
    pub capacidad: u32,
    pub espacio_libre: u32,
    pub desperfectos: u32,
    pub cerrado: bool,
    /// Hay una vuelta en curso: empezó y todavía no salieron todos.
    pub en_vuelta: bool,
}

impl EstadoJuego {
    /// El juego admite al menos una persona por vuelta, nunca tiene más
    /// lugares libres que su capacidad, y si hay una vuelta en curso alguien
    /// la está dando.
    pub open spec fn wf(self) -> bool {
        &&& 1 <= self.capacidad
        &&& self.espacio_libre <= self.capacidad
        &&& self.en_vuelta ==> self.espacio_libre < self.capacidad
    }

    /// Al suceso le toca llegar ahora: el fin de la vuelta y la salida de
    /// todos sólo llegan con una vuelta en curso, y los demás sólo sin ella.
    pub open spec fn en_turno(self, suceso: Suceso) -> bool {
        match suceso {
            Suceso::FinDeVuelta => self.en_vuelta,
            Suceso::SalieronTodos => self.en_vuelta,
            _ => !self.en_vuelta,
        }
    }

    /// Personas sentadas esperando la vuelta.
    pub open spec fn gente_adentro(self) -> int {
        self.capacidad - self.espacio_libre
    }

    /// El juego deja sentarse a alguien: tiene un lugar libre y no hay una
    /// vuelta en curso.
    pub open spec fn admite(self) -> bool {
        self.espacio_libre >= 1 && !self.en_vuelta
    }

    /// El mismo juego con todos sus lugares libres y sin vuelta en curso.
    pub open spec fn desocupado(self) -> EstadoJuego {
        EstadoJuego { espacio_libre: self.capacidad, en_vuelta: false, ..self }
    }

    /// El mismo juego con una vuelta en curso.
    pub open spec fn girando(self) -> EstadoJuego {
        EstadoJuego { en_vuelta: true, ..self }
    }

    /// El mismo juego con un lugar libre menos.
    pub open spec fn con_uno_mas(self) -> EstadoJuego {
        EstadoJuego { espacio_libre: (self.espacio_libre - 1) as u32, ..self }
    }

    /// El mismo juego con un desperfecto más. El contador da la vuelta al
    /// pasar su máximo.
    pub open spec fn con_desperfecto(self) -> EstadoJuego {
        EstadoJuego {
            desperfectos: if self.desperfectos == u32::MAX {
                0
            } else {
                (self.desperfectos + 1) as u32
            },
            ..self
        }
    }

    /// Con cuánta gente arranca la vuelta al terminar una espera, si
    /// arranca. Arranca con el juego lleno, o al agotarse el tiempo con
    /// alguien sentado. Un despertar sin tiempo agotado y sin juego lleno no
    /// arranca nada.
    pub open spec fn vuelta(self, tiempo_agotado: bool) -> Option<u32> {
        if tiempo_agotado {
            if self.espacio_libre == self.capacidad {
                None
            } else {
                Some((self.capacidad - self.espacio_libre) as u32)
            }
        } else if self.espacio_libre != 0 {
            None
        } else {
            Some(self.capacidad)
        }
    }
}

/// Cómo se desaloja un juego al terminar una vuelta: cuántos esperan en la
/// salida y cuántos permisos de salida se reparten.
#[derive(Clone, Copy, Debug, PartialEq, Eq, Structural)]
pub struct Salida {
    pub participantes: u64,
    pub permisos: u32,
}

/// Lo que el conductor del juego informa.
#[derive(Clone, Copy, Debug, PartialEq, Eq, Structural)]
pub enum Suceso {
    /// Se sorteó si hay desperfecto.
    Sorteo { desperfecto: bool },
    /// Pasó el tiempo de arreglo.
    Arreglado,
    /// Terminó la espera de personas, por aviso o por tiempo agotado.
    FinDeEspera { tiempo_agotado: bool },
    /// Pasó el tiempo de la vuelta.
    FinDeVuelta,
    /// Todos los que jugaron dejaron el juego.
    SalieronTodos,
}

/// Lo que el conductor del juego tiene que hacer a continuación.
#[derive(Clone, Copy, Debug, PartialEq, Eq, Structural)]
pub enum Accion {
    /// Sortear si hay desperfecto.
    Sortear,
    /// Dormir el tiempo de arreglo.
    Arreglar { ms: u64 },
    /// Esperar el aviso de juego lleno, a lo sumo este tiempo.
    EsperarPersonas { ms: u64 },
    /// Dormir lo que dura la vuelta.
    DarVuelta { personas: u32, duracion_ms: u32 },
    /// Armar la salida, repartir los permisos y esperar en ella.
    Desalojar { salida: Salida },
    /// Dejar de funcionar.
    Terminar,
}

/// La acción con la que empieza cada ciclo.
pub open spec fn comienzo_de_ciclo(e: EstadoJuego) -> Accion {
    if e.cerrado {
        Accion::Terminar
    } else {
        Accion::Sortear
    }
}

/// Un juego recién creado: abierto, sin desperfectos y vacío.
pub open spec fn juego_nuevo(id: usize, precio: u32, capacidad: u32, duracion_ms: u32) -> EstadoJuego {
    EstadoJuego {
        id,
        precio,
        duracion_ms,
        capacidad,
        espacio_libre: capacidad,
        desperfectos: 0,
        cerrado: false,
        en_vuelta: false,
    }
}

/// Cuántos juegos describen tres arreglos de costos, capacidades y
/// duraciones: tantos como tenga el más corto.
pub open spec fn cantidad_descripta(costos: nat, capacidades: nat, duraciones: nat) -> nat {
    if costos <= capacidades && costos <= duraciones {
        costos
    } else if capacidades <= duraciones {
        capacidades
    } else {
        duraciones
    }
}

/// Un juego con capacidad fija por vuelta.
pub struct Juego {
    id: usize,
    precio: u32,
    tiempo: u32,
    capacidad: u32,
    espacio_libre: u32,
    desperfectos: u32,
    cerrado: bool,
    en_vuelta: bool,
    rng: StdRng,
}

impl View for Juego {
    type V = EstadoJuego;

    closed spec fn view(&self) -> EstadoJuego {
        EstadoJuego {
            id: self.id,
            precio: self.precio,
            duracion_ms: self.tiempo,
            capacidad: self.capacidad,
            espacio_libre: self.espacio_libre,
            desperfectos: self.desperfectos,
            cerrado: self.cerrado,
            en_vuelta: self.en_vuelta,
        }
    }
}

impl Juego {
    /// Un juego abierto, sin desperfectos y con todos sus lugares libres.
    pub fn new(id: usize, precio: u32, capacidad: u32, duracion_ms: u32, semilla: u64) -> (juego:
        Self)
        requires
            capacidad >= 1,
        ensures
            juego@ == juego_nuevo(id, precio, capacidad, duracion_ms),
            juego@.wf(),
            juego.generador_propio() == generador_sembrado(semilla),
    {
        Juego {
            id,
            precio,
            tiempo: duracion_ms,
            capacidad,
            espacio_libre: capacidad,
            desperfectos: 0,
            cerrado: false,
            en_vuelta: false,
            rng: generador_con_semilla(semilla),
        }
    }

    pub fn id(&self) -> (id: usize)
        ensures
            id == self@.id,
    {
        self.id
    }

    pub fn precio(&self) -> (precio: u32)
        ensures
            precio == self@.precio,
    {
        self.precio
    }

    pub fn capacidad(&self) -> (capacidad: u32)
        ensures
            capacidad == self@.capacidad,
    {
        self.capacidad
    }

    pub fn duracion_ms(&self) -> (ms: u32)
        ensures
            ms == self@.duracion_ms,
    {
        self.tiempo
    }

    pub fn espacio_libre(&self) -> (libre: u32)
        ensures
            libre == self@.espacio_libre,
    {
        self.espacio_libre
    }

    /// Dice si el juego deja sentarse a alguien ahora.
    pub fn admite(&self) -> (admite: bool)
        ensures
            admite == self@.admite(),
    {
        self.espacio_libre >= 1 && !self.en_vuelta
    }

    /// Dice si al suceso le toca llegar ahora.
    pub fn en_turno(&self, suceso: Suceso) -> (en_turno: bool)
        ensures
            en_turno == self@.en_turno(suceso),
    {
        match suceso {
            Suceso::FinDeVuelta => self.en_vuelta,
            Suceso::SalieronTodos => self.en_vuelta,
            _ => !self.en_vuelta,
        }
    }

    pub fn esta_en_vuelta(&self) -> (en_vuelta: bool)
        ensures
            en_vuelta == self@.en_vuelta,
    {
        self.en_vuelta
    }

    pub fn esta_cerrado(&self) -> (cerrado: bool)
        ensures
            cerrado == self@.cerrado,
    {
        self.cerrado
    }

    /// Cantidad de desperfectos que ocurrieron.
    pub fn obtener_desperfectos(&self) -> (n: u32)
        ensures
            n == self@.desperfectos,
    {
        self.desperfectos
    }

    /// El generador propio del juego, como valor para las especificaciones.
    /// De lo que sortea no se sabe nada: sólo sirve para decir cuál es.
    pub closed spec fn generador_propio(&self) -> StdRng {
        self.rng
    }

    /// El generador propio del juego, para los sorteos de su conductor. Lo
    /// que se entrega es ese generador y no otro, y como quede después de
    /// usarlo queda en el juego. Del juego no cambia nada más.
    pub fn generador(&mut self) -> (rng: &mut StdRng)
        ensures
            *rng == old(self).generador_propio(),
            final(self).generador_propio() == *final(rng),
            final(self)@ == old(self)@,
    {
        &mut self.rng
    }

    /// Marca el juego para que deje de funcionar al empezar su próximo
    /// ciclo.
    pub fn cerrar(&mut self)
        ensures
            final(self)@ == (EstadoJuego { cerrado: true, ..old(self)@ }),
            old(self)@.wf() ==> final(self)@.wf(),
    {
        self.cerrado = true;
    }

    /// Ocupa un lugar libre. Devuelve `true` cuando era el último: quien lo
    /// ocupa avisa que el juego está lleno y no deja pasar a nadie más hasta
    /// salir.
    pub fn ocupar_lugar(&mut self) -> (lleno: bool)
        requires
            old(self)@.wf(),
            old(self)@.admite(),
        ensures
            final(self)@ == old(self)@.con_uno_mas(),
            final(self)@.wf(),
            final(self)@.gente_adentro() == old(self)@.gente_adentro() + 1,
            lleno <==> final(self)@.espacio_libre == 0,
    {
        self.espacio_libre = self.espacio_libre - 1;
        self.espacio_libre == 0
    }

    /// Cobra la entrada: la persona paga el precio del juego. Devuelve lo
    /// cobrado, que es lo que va a la caja del parque.
    pub fn cobrar_entrada(&self, persona: &mut Persona) -> (cobrado: u32)
        requires
            old(persona)@.presupuesto >= self@.precio,
        ensures
            cobrado == self@.precio,
            final(persona)@ == (EstadoPersona {
                presupuesto: (old(persona)@.presupuesto - self@.precio) as u32,
                ..old(persona)@
            }),
    {
        persona.pagar_juego(self);
        self.precio
    }

    /// La persona juega una vuelta sin que nadie más llegue mientras tanto:
    /// ocupa un lugar, paga la entrada, la vuelta se da con los que estén
    /// sentados (al llenarse el juego, o si no al agotarse la espera) y
    /// todos salen. El juego queda vacío. Devuelve lo cobrado.
    pub fn agregar_a_la_fila(&mut self, persona: &mut Persona) -> (cobrado: u32)
        requires
            old(self)@.wf(),
            old(self)@.admite(),
            old(persona)@.presupuesto >= old(self)@.precio,
        ensures
            cobrado == old(self)@.precio,
            cobrado == old(persona)@.presupuesto - final(persona)@.presupuesto,
            final(self)@ == old(self)@.desocupado(),
            final(self)@.wf(),
            final(self)@.espacio_libre == final(self)@.capacidad,
            final(self)@.gente_adentro() == 0,
            final(persona)@ == (EstadoPersona {
                presupuesto: (old(persona)@.presupuesto - old(self)@.precio) as u32,
                ..old(persona)@
            }),
    {
        let lleno: bool = self.ocupar_lugar();
        let cobrado: u32 = self.cobrar_entrada(persona);
        self.avanzar(Suceso::FinDeEspera { tiempo_agotado: !lleno });
        self.avanzar(Suceso::FinDeVuelta);
        self.avanzar(Suceso::SalieronTodos);
        cobrado
    }

    /// Anota un desperfecto y sortea cuánto lleva arreglarlo. Los lugares
    /// ocupados no cambian.
    pub fn registrar_desperfecto(&mut self) -> (ms: u64)
        ensures
            final(self)@ == old(self)@.con_desperfecto(),
            old(self)@.desperfectos < u32::MAX ==> final(self)@.desperfectos > old(
                self,
            )@.desperfectos,
            ms < TIEMPO_MAXIMO_ARREGLO_DESPERFECTO,
            old(self)@.wf() ==> final(self)@.wf(),
    {
        self.desperfectos = self.desperfectos.wrapping_add(1);
        milisegundos_al_azar(&mut self.rng, TIEMPO_MAXIMO_ARREGLO_DESPERFECTO)
    }

    /// Decide, al terminar una espera, si arranca una vuelta y con cuánta
    /// gente.
    pub fn decidir_vuelta(&self, tiempo_agotado: bool) -> (personas: Option<u32>)
        requires
            self@.wf(),
        ensures
            personas == self@.vuelta(tiempo_agotado),
            personas matches Some(n) ==> 1 <= n && n + self@.espacio_libre == self@.capacidad,
    {
        if tiempo_agotado {
            if self.espacio_libre == self.capacidad {
                return None;
            }
        } else if self.espacio_libre != 0 {
            return None;
        }
        Some(self.capacidad - self.espacio_libre)
    }

    /// Arma el desalojo de una vuelta de `gente_adentro` personas: un
    /// permiso de salida por persona, y en la salida esperan ellas y el
    /// juego.
    pub fn terminar_vuelta(&self, gente_adentro: u32) -> (salida: Salida)
        ensures
            salida.permisos == gente_adentro,
            salida.participantes == gente_adentro + 1,
            salida.permisos == salida.participantes - 1,
    {
        Salida { participantes: gente_adentro as u64 + 1, permisos: gente_adentro }
    }

    /// Marca todo el espacio como libre para la siguiente vuelta y da por
    /// terminada la que estuviera en curso.
    pub fn liberar_lugares(&mut self)
        requires
            old(self)@.wf(),
        ensures
            final(self)@ == old(self)@.desocupado(),
            final(self)@.wf(),
            final(self)@.gente_adentro() == 0,
    {
        self.espacio_libre = self.capacidad;
        self.en_vuelta = false;
    }

    /// La primera acción del juego.
    pub fn iniciar_funcionamiento(&self) -> (accion: Accion)
        ensures
            accion == comienzo_de_ciclo(self@),
    {
        self.comenzar_ciclo()
    }

    fn comenzar_ciclo(&self) -> (accion: Accion)
        ensures
            accion == comienzo_de_ciclo(self@),
    {
        if self.cerrado {
            Accion::Terminar
        } else {
            Accion::Sortear
        }
    }

    /// Responde a un suceso con la próxima acción del ciclo de vueltas.
    ///
    /// El suceso tiene que llegar en su turno: no se desaloja un juego que
    /// no está dando una vuelta, ni se sortea o se espera gente con una
    /// vuelta en curso.
    ///
    /// Un desperfecto se anota y se arregla sin tocar los lugares; sin
    /// desperfecto se espera gente. Al terminar la espera la vuelta arranca
    /// o el ciclo vuelve a empezar. Mientras la vuelta está en curso nadie
    /// más se sienta. Terminada la vuelta se desaloja a los que jugaron, y
    /// cuando salieron todos los lugares quedan libres. El cierre sólo se
    /// mira al empezar un ciclo.
    pub fn avanzar(&mut self, suceso: Suceso) -> (accion: Accion)
        requires
            old(self)@.wf(),
            old(self)@.en_turno(suceso),
        ensures
            final(self)@.wf(),
            match suceso {
                Suceso::Sorteo { desperfecto: true } => final(self)@ == old(self)@.con_desperfecto()
                    && (accion matches Accion::Arreglar { ms } && ms
                    < TIEMPO_MAXIMO_ARREGLO_DESPERFECTO),
                Suceso::Sorteo { desperfecto: false } => final(self)@ == old(self)@ && accion
                    == (Accion::EsperarPersonas { ms: TIEMPO_DE_ESPERA_DE_PERSONAS }),
                Suceso::Arreglado => final(self)@ == old(self)@ && accion == comienzo_de_ciclo(
                    old(self)@,
                ),
                Suceso::FinDeEspera { tiempo_agotado } => match old(self)@.vuelta(tiempo_agotado) {
                    Some(personas) => final(self)@ == old(self)@.girando() && accion
                        == (Accion::DarVuelta { personas, duracion_ms: old(self)@.duracion_ms }),
                    None => final(self)@ == old(self)@ && accion == comienzo_de_ciclo(old(self)@),
                },
                Suceso::FinDeVuelta => final(self)@ == old(self)@ && accion == (Accion::Desalojar {
                    salida: Salida {
                        participantes: (old(self)@.gente_adentro() + 1) as u64,
                        permisos: old(self)@.gente_adentro() as u32,
                    },
                }),
                Suceso::SalieronTodos => final(self)@ == old(self)@.desocupado() && accion
                    == comienzo_de_ciclo(old(self)@),
            },
    {
        match suceso {
            Suceso::Sorteo { desperfecto } => {
                if desperfecto {
                    let ms: u64 = self.registrar_desperfecto();
                    Accion::Arreglar { ms }
                } else {
                    Accion::EsperarPersonas { ms: TIEMPO_DE_ESPERA_DE_PERSONAS }
                }
            },
            Suceso::Arreglado => self.comenzar_ciclo(),
            Suceso::FinDeEspera { tiempo_agotado } => {
                match self.decidir_vuelta(tiempo_agotado) {
                    Some(personas) => {
                        self.en_vuelta = true;
                        Accion::DarVuelta { personas, duracion_ms: self.tiempo }
                    },
                    None => self.comenzar_ciclo(),
                }
            },
            Suceso::FinDeVuelta => {
                let salida = self.terminar_vuelta(self.capacidad - self.espacio_libre);
                Accion::Desalojar { salida }
            },
            Suceso::SalieronTodos => {
                self.liberar_lugares();
                self.comenzar_ciclo()
            },
        }
    }
}

/// Los lugares de un juego bien formado: los libres nunca son menos que cero
/// ni más que la capacidad, y con los ocupados suman la capacidad. Sentarse
/// ocupa exactamente un lugar y sólo se puede con alguno libre y sin vuelta
/// en curso. La vuelta arranca con los que están sentados, que son al menos
/// uno. Desocupar deja todos los lugares libres. Nada de esto, ni un
/// desperfecto, saca al juego de estar bien formado.
pub proof fn lema_lugares(e: EstadoJuego, tiempo_agotado: bool)
    requires
        e.wf(),
    ensures
        0 <= e.espacio_libre <= e.capacidad,
        e.espacio_libre + e.gente_adentro() == e.capacidad,
        e.espacio_libre == 0 ==> !e.admite(),
        e.en_vuelta ==> !e.admite(),
        e.admite() ==> e.con_uno_mas().wf() && e.con_uno_mas().espacio_libre == e.espacio_libre
            - 1 && e.con_uno_mas().gente_adentro() == e.gente_adentro() + 1,
        !e.en_vuelta ==> (e.vuelta(tiempo_agotado) matches Some(personas) ==> e.girando().wf()
            && personas == e.gente_adentro() && personas >= 1),
        e.desocupado().wf() && e.desocupado().espacio_libre == e.capacidad
            && e.desocupado().gente_adentro() == 0,
        e.con_desperfecto().wf() && e.con_desperfecto().espacio_libre == e.espacio_libre,
{
}

/// Reparte los permisos de salida de un desalojo: libera el semáforo una
/// vez por cada persona que jugó. Devuelve cuántos permisos repartió.
pub fn repartir_permisos(semaforo: &Semaphore, salida: Salida) -> (repartidos: u32)
    ensures
        repartidos == salida.permisos,
{
    let mut repartidos: u32 = 0;
    while repartidos < salida.permisos
        invariant
            repartidos <= salida.permisos,
        decreases salida.permisos - repartidos,
    {
        liberar_permiso(semaforo);
        repartidos = repartidos + 1;
    }
    repartidos
}

/// Crea los juegos que describen los tres arreglos: el juego `i` toma el
/// costo, la capacidad y la duración de la posición `i`, y todos la misma
/// semilla. No hay juegos sin lugares: con alguna capacidad en cero no se
/// crea ninguno.
pub fn crear_juegos(
    costos: &Vec<u32>,
    capacidades: &Vec<u32>,
    duraciones: &Vec<u32>,
    semilla: u64,
) -> (r: Option<Vec<Juego>>)
    ensures
        r is Some <==> forall|i: int|
            0 <= i < cantidad_descripta(costos@.len(), capacidades@.len(), duraciones@.len())
                ==> #[trigger] capacidades@[i] >= 1,
        r matches Some(juegos) ==> juegos@.len() == cantidad_descripta(
            costos@.len(),
            capacidades@.len(),
            duraciones@.len(),
        ) && forall|i: int|
            0 <= i < juegos@.len() ==> (#[trigger] juegos@[i])@ == juego_nuevo(
                i as usize,
                costos@[i],
                capacidades@[i],
                duraciones@[i],
            ) && juegos@[i].generador_propio() == generador_sembrado(semilla),
{
    let mut n: usize = costos.len();
    if capacidades.len() < n {
        n = capacidades.len();
    }
    if duraciones.len() < n {
        n = duraciones.len();
    }
    let mut juegos: Vec<Juego> = Vec::new();
    let mut id: usize = 0;
    while id < n
        invariant
            id <= n,
            n == cantidad_descripta(costos@.len(), capacidades@.len(), duraciones@.len()),
            juegos@.len() == id,
            forall|i: int| 0 <= i < id ==> #[trigger] capacidades@[i] >= 1,
            forall|i: int|
                0 <= i < id ==> (#[trigger] juegos@[i])@ == juego_nuevo(
                    i as usize,
                    costos@[i],
                    capacidades@[i],
                    duraciones@[i],
                ) && juegos@[i].generador_propio() == generador_sembrado(semilla),
        decreases n - id,
    {
        if capacidades[id] == 0 {
            return None;
        }
        juegos.push(Juego::new(id, costos[id], capacidades[id], duraciones[id], semilla));
        id = id + 1;
    }
    Some(juegos)
}

} // verus!
