//! El parque: su cupo, su caja, la cuenta de quienes salieron y el registro
//! de juegos.

use crate::azar::generador_con_semilla;
use crate::azar::generador_sembrado;
use crate::azar::indice_al_azar;
use crate::juego::EstadoJuego;
use crate::juego::Juego;
use crate::persona::EstadoPersona;
use crate::persona::Persona;
use rand::rngs::StdRng;
use vstd::prelude::*;

verus! {

/// Lo que el parque es para las especificaciones.
pub struct EstadoParque {
    pub capacidad: usize,
    pub gente_adentro: usize,
    pub salieron: usize,
    pub caja: u32,
    pub juegos: Seq<EstadoJuego>,
}

impl EstadoParque {
    /// Adentro no hay más gente que el cupo.
    pub open spec fn cupo_respetado(self) -> bool {
        self.gente_adentro <= self.capacidad
    }

    /// Adentro nunca hay más gente que el cupo, y cada juego está bien
    /// formado.
    pub open spec fn wf(self) -> bool {
        &&& self.cupo_respetado()
        &&& forall|i: int| 0 <= i < self.juegos.len() ==> (#[trigger] self.juegos[i]).wf()
    }

    /// Todos los juegos cobran entrada.
    pub open spec fn precios_positivos(self) -> bool {
        forall|i: int| 0 <= i < self.juegos.len() ==> (#[trigger] self.juegos[i]).precio >= 1
    }

    /// Todos los juegos dejan sentarse a alguien.
    pub open spec fn con_lugar(self) -> bool {
        forall|i: int| 0 <= i < self.juegos.len() ==> (#[trigger] self.juegos[i]).admite()
    }
}

/// El resto de dividir `n` por dos a la treinta y dos: lo que queda en un
/// contador de 32 bits que da la vuelta.
pub open spec fn en_u32(n: int) -> u32 {
    (n % 0x1_0000_0000) as u32
}

/// El contador de salidas después de una salida más. Da la vuelta al pasar
/// su máximo.
pub open spec fn una_salida_mas(salieron: usize) -> usize {
    if salieron == usize::MAX {
        0
    } else {
        (salieron + 1) as usize
    }
}

/// Los índices de los juegos que se pueden pagar con `presupuesto`, en
/// orden.
pub open spec fn posibles(juegos: Seq<EstadoJuego>, presupuesto: u32) -> Seq<usize>
    decreases juegos.len(),
{
    if juegos.len() == 0 {
        Seq::empty()
    } else {
        let antes = posibles(juegos.drop_last(), presupuesto);
        if juegos.last().precio <= presupuesto {
            antes.push((juegos.len() - 1) as usize)
        } else {
            antes
        }
    }
}

/// La suma de los desperfectos de todos los juegos.
pub open spec fn total_de_desperfectos(juegos: Seq<EstadoJuego>) -> int
    decreases juegos.len(),
{
    if juegos.len() == 0 {
        0
    } else {
        total_de_desperfectos(juegos.drop_last()) + juegos.last().desperfectos
    }
}

/// Los mismos juegos, todos cerrados.
pub open spec fn cerrados(juegos: Seq<EstadoJuego>) -> Seq<EstadoJuego> {
    Seq::new(juegos.len(), |i: int| EstadoJuego { cerrado: true, ..juegos[i] })
}

/// Lo que devuelve la elección cuando se sortea la posición `sorteo` entre
/// los juegos que se pueden pagar.
pub open spec fn eleccion(juegos: Seq<EstadoJuego>, presupuesto: u32, sorteo: int) -> Result<
    usize,
    Seq<char>,
> {
    if posibles(juegos, presupuesto).len() == 0 {
        Err("No alcanza el dinero"@)
    } else {
        Ok(posibles(juegos, presupuesto)[sorteo])
    }
}

/// Una elección con el mensaje de error como secuencia de caracteres.
pub open spec fn vista_eleccion(r: Result<usize, &'static str>) -> Result<usize, Seq<char>> {
    match r {
        Ok(i) => Ok(i),
        Err(e) => Err(e@),
    }
}

/// Un juego está entre los posibles exactamente cuando existe y su precio
/// no pasa del presupuesto.
pub proof fn lema_posibles(juegos: Seq<EstadoJuego>, presupuesto: u32)
    requires
        juegos.len() <= usize::MAX,
    ensures
        posibles(juegos, presupuesto).len() <= juegos.len(),
        forall|k: int|
            0 <= k < posibles(juegos, presupuesto).len() ==> (#[trigger] posibles(
                juegos,
                presupuesto,
            )[k]) < juegos.len() && juegos[posibles(juegos, presupuesto)[k] as int].precio
                <= presupuesto,
        forall|i: int|
            0 <= i < juegos.len() && (#[trigger] juegos[i]).precio <= presupuesto ==> posibles(
                juegos,
                presupuesto,
            ).contains(i as usize),
    decreases juegos.len(),
{
    if juegos.len() > 0 {
        let antes = juegos.drop_last();
        let p = posibles(juegos, presupuesto);
        lema_posibles(antes, presupuesto);
        assert forall|i: int|
            0 <= i < juegos.len() && (#[trigger] juegos[i]).precio <= presupuesto implies p.contains(
            i as usize,
        ) by {
            if i < juegos.len() - 1 {
                assert(antes[i] == juegos[i]);
                let k = choose|k: int|
                    0 <= k < posibles(antes, presupuesto).len() && posibles(antes, presupuesto)[k]
                        == i as usize;
                assert(p[k] == i as usize);
            } else {
                assert(p[p.len() - 1] == i as usize);
            }
        }
        assert forall|k: int| 0 <= k < p.len() implies (#[trigger] p[k]) < juegos.len()
            && juegos[p[k] as int].precio <= presupuesto by {
            let pa = posibles(antes, presupuesto);
            if k < pa.len() {
                assert(p[k] == pa[k]);
                assert(antes[pa[k] as int] == juegos[pa[k] as int]);
            }
        }
    }
}

/// El parque de diversiones.
pub struct Parque {
    juegos: Vec<Juego>,
    caja: u32,
    capacidad: usize,
    gente_adentro: usize,
    cantidad_visitantes: usize,
    rng: StdRng,
}

impl View for Parque {
    type V = EstadoParque;

    closed spec fn view(&self) -> EstadoParque {
        EstadoParque {
            capacidad: self.capacidad,
            gente_adentro: self.gente_adentro,
            salieron: self.cantidad_visitantes,
            caja: self.caja,
            juegos: Seq::new(self.juegos@.len(), |i: int| self.juegos@[i]@),
        }
    }
}

/// Los estados de una lista de juegos.
pub open spec fn estados(juegos: Seq<Juego>) -> Seq<EstadoJuego> {
    Seq::new(juegos.len(), |i: int| juegos[i]@)
}

impl Parque {
    /// El generador con el que el parque elige juegos, como valor para las
    /// especificaciones. De lo que sortea no se sabe nada: sólo sirve para
    /// decir cuál es.
    pub closed spec fn generador_propio(&self) -> StdRng {
        self.rng
    }

    /// El generador propio del juego registrado en la posición `indice`.
    pub closed spec fn generador_del_juego(&self, indice: int) -> StdRng {
        self.juegos@[indice].generador_propio()
    }

    /// Un parque vacío, sin juegos y con la caja en cero, que elige juegos
    /// con el generador que corresponde a `semilla`.
    pub fn new(capacidad: usize, semilla: u64) -> (parque: Self)
        ensures
            parque.generador_propio() == generador_sembrado(semilla),
            parque@ == (EstadoParque {
                capacidad,
                gente_adentro: 0,
                salieron: 0,
                caja: 0,
                juegos: Seq::empty(),
            }),
            parque@.wf(),
    {
        let parque = Parque {
            juegos: Vec::new(),
            caja: 0,
            capacidad,
            gente_adentro: 0,
            cantidad_visitantes: 0,
            rng: generador_con_semilla(semilla),
        };
        assert(parque@.juegos =~= Seq::empty());
        parque
    }

    /// Agrega los juegos al registro, detrás de los que ya había.
    pub fn registrar_juegos(&mut self, juegos: Vec<Juego>)
        ensures
            final(self)@ == (EstadoParque {
                juegos: old(self)@.juegos + estados(juegos@),
                ..old(self)@
            }),
            old(self)@.wf() && (forall|i: int|
                0 <= i < juegos@.len() ==> (#[trigger] juegos@[i])@.wf()) ==> final(self)@.wf(),
            final(self).generador_propio() == old(self).generador_propio(),
            forall|i: int|
                0 <= i < old(self)@.juegos.len() ==> #[trigger] final(self).generador_del_juego(i)
                    == old(self).generador_del_juego(i),
            forall|i: int|
                old(self)@.juegos.len() <= i < final(self)@.juegos.len() ==> (#[trigger] final(self).generador_del_juego(i))
                    == juegos@[i - old(self)@.juegos.len()].generador_propio(),
    {
        let mut juegos = juegos;
        let ghost nuevos = juegos@;
        self.juegos.append(&mut juegos);
        assert(self@.juegos =~= old(self)@.juegos + estados(nuevos));
    }

    pub fn cantidad_juegos(&self) -> (n: usize)
        ensures
            n == self@.juegos.len(),
    {
        self.juegos.len()
    }

    /// El juego registrado en la posición `indice`.
    pub fn juego(&self, indice: usize) -> (juego: &Juego)
        requires
            indice < self@.juegos.len(),
        ensures
            juego@ == self@.juegos[indice as int],
    {
        &self.juegos[indice]
    }

    /// El juego registrado en la posición `indice`, para cambiarlo. Lo que
    /// se le haga queda en el registro; el resto del parque no cambia.
    pub fn juego_mut(&mut self, indice: usize) -> (juego: &mut Juego)
        requires
            indice < old(self)@.juegos.len(),
        ensures
            juego@ == old(self)@.juegos[indice as int],
            final(self)@ == (EstadoParque {
                juegos: old(self)@.juegos.update(indice as int, final(juego)@),
                ..old(self)@
            }),
    {
        proof {
            assert forall|nuevo: Juego|
                #![trigger self.juegos@.update(indice as int, nuevo)]
                estados(self.juegos@.update(indice as int, nuevo)) =~= estados(self.juegos@).update(
                    indice as int,
                    nuevo@,
                ) by {}
        }
        &mut self.juegos[indice]
    }

    /// Los juegos que se pueden pagar con `presupuesto_maximo`, por su
    /// posición en el registro.
    pub fn obtener_juegos_posibles(&self, presupuesto_maximo: u32) -> (resultado: Vec<usize>)
        ensures
            resultado@ == posibles(self@.juegos, presupuesto_maximo),
    {
        let mut resultado: Vec<usize> = Vec::new();
        let mut i: usize = 0;
        while i < self.juegos.len()
            invariant
                i <= self.juegos.len(),
                resultado@ == posibles(self@.juegos.take(i as int), presupuesto_maximo),
            decreases self.juegos.len() - i,
        {
            proof {
                assert(self@.juegos.take(i + 1).drop_last() =~= self@.juegos.take(i as int));
            }
            if presupuesto_maximo >= self.juegos[i].precio() {
                resultado.push(i);
            }
            i = i + 1;
        }
        proof {
            assert(self@.juegos.take(i as int) =~= self@.juegos);
        }
        resultado
    }

    /// El juego que queda elegido cuando, entre los que se pueden pagar, el
    /// sorteo cae en la posición `sorteo`.
    pub fn elegir_juego(&self, presupuesto_maximo: u32, sorteo: usize) -> (r: Result<
        usize,
        &'static str,
    >)
        requires
            posibles(self@.juegos, presupuesto_maximo).len() > 0 ==> sorteo < posibles(
                self@.juegos,
                presupuesto_maximo,
            ).len(),
        ensures
            vista_eleccion(r) == eleccion(self@.juegos, presupuesto_maximo, sorteo as int),
    {
        let juegos_posibles = self.obtener_juegos_posibles(presupuesto_maximo);
        if juegos_posibles.len() == 0 {
            Err("No alcanza el dinero")
        } else {
            Ok(juegos_posibles[sorteo])
        }
    }

    /// Elige al azar uno de los juegos que se pueden pagar con
    /// `presupuesto_maximo`. Falla sólo cuando no hay ninguno.
    pub fn elegir_juego_random(&mut self, presupuesto_maximo: u32) -> (r: Result<
        usize,
        &'static str,
    >)
        ensures
            final(self)@ == old(self)@,
            exists|sorteo: int|
                0 <= sorteo && (posibles(old(self)@.juegos, presupuesto_maximo).len() > 0 ==> sorteo
                    < posibles(old(self)@.juegos, presupuesto_maximo).len()) && vista_eleccion(r)
                    == #[trigger] eleccion(old(self)@.juegos, presupuesto_maximo, sorteo),
            r is Err <==> forall|i: int|
                0 <= i < old(self)@.juegos.len() ==> (#[trigger] old(self)@.juegos[i]).precio
                    > presupuesto_maximo,
            r matches Ok(i) ==> i < old(self)@.juegos.len() && old(self)@.juegos[i as int].precio
                <= presupuesto_maximo,
    {
        let cantidad: usize = self.juegos.len();
        let juegos_posibles = self.obtener_juegos_posibles(presupuesto_maximo);
        proof {
            assert(self@.juegos.len() == cantidad);
            lema_posibles(self@.juegos, presupuesto_maximo);
        }
        if juegos_posibles.len() == 0 {
            assert(vista_eleccion(Err("No alcanza el dinero")) == eleccion(
                self@.juegos,
                presupuesto_maximo,
                0,
            ));
            Err("No alcanza el dinero")
        } else {
            let sorteo: usize = indice_al_azar(&mut self.rng, juegos_posibles.len());
            assert(vista_eleccion(Ok(juegos_posibles@[sorteo as int])) == eleccion(
                self@.juegos,
                presupuesto_maximo,
                sorteo as int,
            ));
            Ok(juegos_posibles[sorteo])
        }
    }

    /// Deja entrar a una persona si hay cupo. Devuelve si entró.
    pub fn ingresar_persona(&mut self) -> (entro: bool)
        requires
            old(self)@.wf(),
        ensures
            final(self)@.wf(),
            final(self)@.cupo_respetado(),
            entro <==> old(self)@.gente_adentro < old(self)@.capacidad,
            entro ==> final(self)@ == (EstadoParque {
                gente_adentro: (old(self)@.gente_adentro + 1) as usize,
                ..old(self)@
            }),
            !entro ==> final(self)@ == old(self)@,
    {
        if self.gente_adentro < self.capacidad {
            self.gente_adentro = self.gente_adentro + 1;
            true
        } else {
            false
        }
    }

    /// Una persona que estaba adentro sale del parque: primero se la cuenta
    /// entre las que salieron y después se libera su lugar.
    pub fn salir_persona(&mut self)
        requires
            old(self)@.wf(),
            old(self)@.gente_adentro > 0,
        ensures
            final(self)@.wf(),
            final(self)@ == (EstadoParque {
                gente_adentro: (old(self)@.gente_adentro - 1) as usize,
                salieron: una_salida_mas(old(self)@.salieron),
                ..old(self)@
            }),
            old(self)@.salieron < usize::MAX ==> final(self)@.salieron > old(self)@.salieron,
    {
        self.cantidad_visitantes = self.cantidad_visitantes.wrapping_add(1);
        self.gente_adentro = self.gente_adentro - 1;
    }

    /// Cuánta gente salió del parque desde que abrió.
    pub fn obtener_cantidad_gente_que_salio_del_parque(&self) -> (n: usize)
        ensures
            n == self@.salieron,
    {
        self.cantidad_visitantes
    }

    /// Dice si ya salieron todas las personas de una población de
    /// `poblacion`.
    pub fn salieron_todos(&self, poblacion: usize) -> (todos: bool)
        ensures
            todos <==> self@.salieron >= poblacion,
    {
        self.cantidad_visitantes >= poblacion
    }

    /// Cuánta gente hay adentro del parque.
    pub fn obtener_gente_adentro(&self) -> (n: usize)
        ensures
            n == self@.gente_adentro,
    {
        self.gente_adentro
    }

    pub fn capacidad(&self) -> (n: usize)
        ensures
            n == self@.capacidad,
    {
        self.capacidad
    }

    /// Indica a todos los juegos que deben cerrarse.
    pub fn cerrar(&mut self)
        ensures
            final(self)@ == (EstadoParque { juegos: cerrados(old(self)@.juegos), ..old(self)@ }),
            old(self)@.wf() ==> final(self)@.wf(),
    {
        let mut i: usize = 0;
        while i < self.juegos.len()
            invariant
                i <= self.juegos.len(),
                self.juegos@.len() == old(self).juegos@.len(),
                self.caja == old(self).caja,
                self.capacidad == old(self).capacidad,
                self.gente_adentro == old(self).gente_adentro,
                self.cantidad_visitantes == old(self).cantidad_visitantes,
                forall|j: int|
                    0 <= j < i ==> (#[trigger] self.juegos@[j])@ == (EstadoJuego {
                        cerrado: true,
                        ..old(self).juegos@[j]@
                    }),
                forall|j: int|
                    i <= j < self.juegos@.len() ==> (#[trigger] self.juegos@[j])@ == old(
                        self,
                    ).juegos@[j]@,
            decreases self.juegos.len() - i,
        {
            self.juegos[i].cerrar();
            i = i + 1;
        }
        assert(self@.juegos =~= cerrados(old(self)@.juegos));
    }

    /// Guarda dinero en la caja. La caja da la vuelta al pasar su máximo.
    pub fn guardar_dinero(&mut self, monto: u32)
        ensures
            final(self)@ == (EstadoParque {
                caja: en_u32(old(self)@.caja + monto),
                ..old(self)@
            }),
            old(self)@.caja + monto <= u32::MAX ==> final(self)@.caja >= old(self)@.caja,
            old(self)@.wf() ==> final(self)@.wf(),
    {
        self.caja = self.caja.wrapping_add(monto);
    }

    pub fn obtener_caja(&self) -> (caja: u32)
        ensures
            caja == self@.caja,
    {
        self.caja
    }

    /// La suma de los desperfectos de todos los juegos, en un contador que
    /// da la vuelta al pasar su máximo.
    pub fn obtener_desperfectos(&self) -> (cantidad: u32)
        ensures
            cantidad == en_u32(total_de_desperfectos(self@.juegos)),
    {
        let mut cantidad: u32 = 0;
        let mut i: usize = 0;
        while i < self.juegos.len()
            invariant
                i <= self.juegos.len(),
                cantidad == en_u32(total_de_desperfectos(self@.juegos.take(i as int))),
            decreases self.juegos.len() - i,
        {
            proof {
                assert(self@.juegos.take(i + 1).drop_last() =~= self@.juegos.take(i as int));
            }
            cantidad = cantidad.wrapping_add(self.juegos[i].obtener_desperfectos());
            i = i + 1;
        }
        proof {
            assert(self@.juegos.take(i as int) =~= self@.juegos);
        }
        cantidad
    }

    /// Cobra la entrada del juego `indice`: la persona paga el precio y el
    /// parque lo guarda en la caja.
    pub fn cobrar_entrada(&mut self, indice: usize, persona: &mut Persona)
        requires
            indice < old(self)@.juegos.len(),
            old(persona)@.presupuesto >= old(self)@.juegos[indice as int].precio,
        ensures
            final(self)@ == (EstadoParque {
                caja: en_u32(old(self)@.caja + old(self)@.juegos[indice as int].precio),
                ..old(self)@
            }),
            final(persona)@ == (EstadoPersona {
                presupuesto: (old(persona)@.presupuesto - old(self)@.juegos[indice as int].precio) as u32,
                ..old(persona)@
            }),
    {
        let cobrado: u32 = self.juegos[indice].cobrar_entrada(persona);
        self.guardar_dinero(cobrado);
    }
}

} // verus!
