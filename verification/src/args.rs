//! Parámetros de la simulación y su lectura desde la línea de comando.

use crate::azar::natural_al_azar;
use crate::azar::semilla_del_sistema;
use crate::texto::agregar_decimal;
use crate::texto::agregar_unidos;
use crate::texto::decimal;
use crate::texto::iguales;
use crate::texto::leer_natural;
use crate::texto::leer_u32;
use crate::texto::lema_separar_no_vacio;
use crate::texto::separar;
use crate::texto::separar_texto;
use crate::texto::unir;
use vstd::prelude::*;
use vstd::string::*;

verus! {

/// Los parámetros de una simulación.
#[derive(Debug)]
pub struct Args {
    /// Cantidad de personas que puede haber dentro del parque
    /// simultáneamente.
    pub capacidad_parque: u32,
    /// Presupuesto de cada una de las personas que ingresará al
    /// parque.
    pub presupuesto_personas: Vec<u32>,
    /// Costo de cada uno de los juegos
    pub costo_juegos: Option<Vec<u32>>,
    /// Cantidad de personas que ingresa por vuelta a cada uno de
    /// los juegos
    pub capacidad_juegos: Option<Vec<u32>>,
    /// Duración, en milisegundos, de la vuelta de cada juego.
    pub duracion_juegos: Option<Vec<u32>>,
    /// Imprimir salida a un archivo
    pub debug: bool,
    /// Semilla aleatoria
    pub semilla: u32,
}

/// Los parámetros como valores matemáticos.
pub struct VistaArgs {
    pub capacidad_parque: u32,
    pub presupuesto_personas: Seq<u32>,
    pub costo_juegos: Option<Seq<u32>>,
    pub capacidad_juegos: Option<Seq<u32>>,
    pub duracion_juegos: Option<Seq<u32>>,
    pub debug: bool,
    pub semilla: u32,
}

/// Todos los números de `v` son naturales mayores que cero.
pub open spec fn todos_naturales(v: Seq<u32>) -> bool {
    forall|i: int| 0 <= i < v.len() ==> #[trigger] v[i] >= 1
}

/// El arreglo, si está, es de naturales mayores que cero.
pub open spec fn opcional_natural(o: Option<Seq<u32>>) -> bool {
    o matches Some(v) ==> todos_naturales(v)
}

impl VistaArgs {
    /// La capacidad del parque y todos los números de los arreglos son
    /// mayores que cero.
    pub open spec fn naturales(self) -> bool {
        &&& self.capacidad_parque >= 1
        &&& todos_naturales(self.presupuesto_personas)
        &&& opcional_natural(self.costo_juegos)
        &&& opcional_natural(self.capacidad_juegos)
        &&& opcional_natural(self.duracion_juegos)
    }

    /// Los costos, las capacidades y las duraciones de los juegos están y
    /// tienen el mismo tamaño.
    pub open spec fn resueltos(self) -> bool {
        &&& self.costo_juegos is Some
        &&& self.capacidad_juegos is Some
        &&& self.duracion_juegos is Some
        &&& self.costo_juegos->Some_0.len() == self.capacidad_juegos->Some_0.len()
        &&& self.costo_juegos->Some_0.len() == self.duracion_juegos->Some_0.len()
    }
}

/// Un arreglo opcional como secuencia opcional.
pub open spec fn vista_opcional(o: Option<Vec<u32>>) -> Option<Seq<u32>> {
    match o {
        Some(v) => Some(v@),
        None => None,
    }
}

impl View for Args {
    type V = VistaArgs;

    open spec fn view(&self) -> VistaArgs {
        VistaArgs {
            capacidad_parque: self.capacidad_parque,
            presupuesto_personas: self.presupuesto_personas@,
            costo_juegos: vista_opcional(self.costo_juegos),
            capacidad_juegos: vista_opcional(self.capacidad_juegos),
            duracion_juegos: vista_opcional(self.duracion_juegos),
            debug: self.debug,
            semilla: self.semilla,
        }
    }
}

/// El resultado de leer la línea de comando.
pub enum ParseArgsResult {
    /// Los parámetros leídos, con los valores por defecto resueltos.
    Listo(Args),
    /// Se pidió la ayuda.
    MostrarAyuda,
    /// El mensaje del primer error.
    Error(String),
}

/// En qué termina la lectura de la línea de comando.
pub enum Desenlace {
    Listo(VistaArgs),
    Ayuda,
    Error(Seq<char>),
}

impl View for ParseArgsResult {
    type V = Desenlace;

    open spec fn view(&self) -> Desenlace {
        match *self {
            ParseArgsResult::Listo(args) => Desenlace::Listo(args@),
            ParseArgsResult::MostrarAyuda => Desenlace::Ayuda,
            ParseArgsResult::Error(e) => Desenlace::Error(e@),
        }
    }
}

/// Un parámetro que lleva valor.
#[derive(Clone, Copy, Debug, PartialEq, Eq, Structural)]
pub enum Parametro {
    Personas,
    CostoJuegos,
    CapacidadJuegos,
    DuracionJuegos,
    Capacidad,
    Semilla,
}

/// Lo que un texto dice de un arreglo: sus valores, o cuántos sortear y en
/// qué rango.
pub enum Forma {
    Fija(Seq<u32>),
    AlAzar { n: u32, min: u32, max: u32 },
}

/// Un resultado con el mensaje de error como secuencia de caracteres.
pub open spec fn vista_numero(r: Result<u32, String>) -> Result<u32, Seq<char>> {
    match r {
        Ok(n) => Ok(n),
        Err(e) => Err(e@),
    }
}

/// Un resultado con el arreglo y el mensaje de error como secuencias.
pub open spec fn vista_arreglo(r: Result<Vec<u32>, String>) -> Result<Seq<u32>, Seq<char>> {
    match r {
        Ok(v) => Ok(v@),
        Err(e) => Err(e@),
    }
}

/// Un resultado sin valor, con el mensaje de error como secuencia de
/// caracteres.
pub open spec fn vista_unidad(r: Result<(), String>) -> Result<(), Seq<char>> {
    match r {
        Ok(u) => Ok(()),
        Err(e) => Err(e@),
    }
}

/// El mensaje de error de un parámetro: `[param] err`.
pub open spec fn mensaje_error(param: Seq<char>, err: Seq<char>) -> Seq<char> {
    "["@ + param + "] "@ + err
}

/// El mensaje para un dato que no escribe un natural.
pub open spec fn mensaje_no_natural(dato: Seq<char>) -> Seq<char> {
    "'"@ + dato + "' no es un número natural"@
}

/// El mensaje para un rango `[min, max)` vacío: dice si el mínimo supera al
/// máximo o si lo iguala.
pub open spec fn mensaje_rango(min: u32, max: u32) -> Seq<char> {
    "Rango inválido ("@ + decimal(min as nat) + (if min == max {
        " >= "@
    } else {
        " > "@
    }) + decimal(max as nat) + ")"@
}

/// El mensaje para dos arreglos de juegos de distinto tamaño.
pub open spec fn mensaje_tamanos(
    nombre_base: Seq<char>,
    nombre_dest: Seq<char>,
    n_base: nat,
    n_dest: nat,
) -> Seq<char> {
    "Los parámetros "@ + nombre_base + " y "@ + nombre_dest
        + " deben ser arreglos del mismo tamaño ("@ + decimal(n_base) + " != "@ + decimal(n_dest)
        + ")"@
}

/// El natural (mayor que cero) que escribe `dato`, o el mensaje de error.
pub open spec fn natural(dato: Seq<char>) -> Result<u32, Seq<char>> {
    match leer_u32(dato) {
        Some(n) => if n == 0 {
            Err(mensaje_no_natural(decimal(0)))
        } else {
            Ok(n)
        },
        None => Err(mensaje_no_natural(dato)),
    }
}

/// Los naturales que escriben los `trozos`, en orden, o el primer error.
pub open spec fn naturales(trozos: Seq<Seq<char>>) -> Result<Seq<u32>, Seq<char>>
    decreases trozos.len(),
{
    if trozos.len() == 0 {
        Ok(Seq::empty())
    } else {
        match naturales(trozos.drop_last()) {
            Err(e) => Err(e),
            Ok(v) => match natural(trozos.last()) {
                Err(e) => Err(e),
                Ok(n) => Ok(v.push(n)),
            },
        }
    }
}

/// `valor` repetido `n` veces.
pub open spec fn repetido(valor: u32, n: nat) -> Seq<u32> {
    Seq::new(n, |i: int| valor)
}

/// Lo que `data` dice de un arreglo. Admite tres escrituras: `n1,n2,...,nk`,
/// `N:P` (N veces P) y `N:Pm:PM` (N sorteos en `[Pm, PM)`, que no puede ser
/// un rango vacío: tiene que ser `Pm < PM`).
pub open spec fn forma_de_arreglo(data: Seq<char>) -> Result<Forma, Seq<char>> {
    let partes = separar(data, ':');
    if partes.len() > 3 {
        Err("Formato inválido"@)
    } else if partes.len() == 1 {
        match naturales(separar(partes[0], ',')) {
            Err(e) => Err(e),
            Ok(v) => Ok(Forma::Fija(v)),
        }
    } else {
        match natural(partes[0]) {
            Err(e) => Err(e),
            Ok(n) => match natural(partes[1]) {
                Err(e) => Err(e),
                Ok(min) => if partes.len() == 2 {
                    Ok(Forma::Fija(repetido(min, n as nat)))
                } else {
                    match natural(partes[2]) {
                        Err(e) => Err(e),
                        Ok(max) => if min >= max {
                            Err(mensaje_rango(min, max))
                        } else {
                            Ok(Forma::AlAzar { n, min, max })
                        },
                    }
                },
            },
        }
    }
}

/// `v` es un arreglo que la forma admite.
pub open spec fn cumple(forma: Forma, v: Seq<u32>) -> bool {
    match forma {
        Forma::Fija(valores) => v == valores,
        Forma::AlAzar { n, min, max } => v.len() == n && forall|i: int|
            0 <= i < v.len() ==> min <= #[trigger] v[i] < max,
    }
}

/// Lo que `parse_array` puede devolver para `data`.
pub open spec fn arreglo_valido(data: Seq<char>, r: Result<Seq<u32>, Seq<char>>) -> bool {
    match forma_de_arreglo(data) {
        Err(m) => r == Err::<Seq<u32>, Seq<char>>(m),
        Ok(forma) => r is Ok && cumple(forma, r->Ok_0),
    }
}

/// El nombre del parámetro de los costos de los juegos.
pub open spec fn nombre_costo() -> Seq<char> {
    "--costo-juegos"@
}

/// El nombre del parámetro de las capacidades de los juegos.
pub open spec fn nombre_capacidad() -> Seq<char> {
    "--capacidad-juegos"@
}

/// El nombre del parámetro de las duraciones de los juegos.
pub open spec fn nombre_duracion() -> Seq<char> {
    "--duracion-juegos"@
}

/// `dest` si tiene el tamaño de `base`; si falta, `defval` repetido hasta
/// ese tamaño.
pub open spec fn igualado(
    base: Seq<u32>,
    dest: Option<Seq<u32>>,
    defval: u32,
    nombre_base: Seq<char>,
    nombre_dest: Seq<char>,
) -> Result<Seq<u32>, Seq<char>> {
    match dest {
        Some(d) => if base.len() != d.len() {
            Err(mensaje_tamanos(nombre_base, nombre_dest, base.len(), d.len()))
        } else {
            Ok(d)
        },
        None => Ok(repetido(defval, base.len())),
    }
}

/// Costos, capacidades y duraciones de los juegos una vez completados los
/// que faltan: sin ninguno, cinco juegos de (10, 2, 25); con alguno, los que
/// faltan toman 10, 2 y 25 tantas veces como juegos haya.
pub open spec fn resuelto(a: VistaArgs) -> Result<(Seq<u32>, Seq<u32>, Seq<u32>), Seq<char>> {
    match a.costo_juegos {
        Some(c) => match igualado(c, a.capacidad_juegos, 2, nombre_costo(), nombre_capacidad()) {
            Err(m) => Err(m),
            Ok(k) => match igualado(c, a.duracion_juegos, 25, nombre_costo(), nombre_duracion()) {
                Err(m) => Err(m),
                Ok(d) => Ok((c, k, d)),
            },
        },
        None => match a.capacidad_juegos {
            Some(k) => match igualado(
                k,
                a.duracion_juegos,
                25,
                nombre_capacidad(),
                nombre_duracion(),
            ) {
                Err(m) => Err(m),
                Ok(d) => Ok((repetido(10, k.len()), k, d)),
            },
            None => match a.duracion_juegos {
                Some(d) => Ok((repetido(10, d.len()), repetido(2, d.len()), d)),
                None => Ok((repetido(10, 5), repetido(2, 5), repetido(25, 5))),
            },
        },
    }
}

/// Los costos y las capacidades no coinciden en tamaño.
pub open spec fn falla_capacidad(a: VistaArgs) -> bool {
    a.costo_juegos is Some && igualado(
        a.costo_juegos->Some_0,
        a.capacidad_juegos,
        2,
        nombre_costo(),
        nombre_capacidad(),
    ) is Err
}

/// El nombre con que se escribe cada parámetro.
pub open spec fn nombre_de(p: Parametro) -> Seq<char> {
    match p {
        Parametro::Personas => "--personas"@,
        Parametro::CostoJuegos => "--costo-juegos"@,
        Parametro::CapacidadJuegos => "--capacidad-juegos"@,
        Parametro::DuracionJuegos => "--duracion-juegos"@,
        Parametro::Capacidad => "--capacidad"@,
        Parametro::Semilla => "--semilla"@,
    }
}

/// Los parámetros que llevan valor, en el orden en que se los busca.
pub open spec fn tabla() -> Seq<Parametro> {
    seq![
        Parametro::Personas,
        Parametro::CostoJuegos,
        Parametro::CapacidadJuegos,
        Parametro::DuracionJuegos,
        Parametro::Capacidad,
        Parametro::Semilla,
    ]
}

/// El primer parámetro de `tabla` que se llama `nombre`.
pub open spec fn buscar_en(tabla: Seq<Parametro>, nombre: Seq<char>) -> Option<Parametro>
    decreases tabla.len(),
{
    if tabla.len() == 0 {
        None
    } else if nombre_de(tabla[0]) == nombre {
        Some(tabla[0])
    } else {
        buscar_en(tabla.drop_first(), nombre)
    }
}

/// El parámetro que se llama `nombre`, si lo hay.
pub open spec fn parametro_de(nombre: Seq<char>) -> Option<Parametro> {
    buscar_en(tabla(), nombre)
}

/// El parámetro lleva un solo número y no un arreglo.
pub open spec fn lleva_numero(p: Parametro) -> bool {
    p == Parametro::Capacidad || p == Parametro::Semilla
}

/// Los parámetros `a` con el número `n` en `p`.
pub open spec fn con_numero(a: VistaArgs, p: Parametro, n: u32) -> VistaArgs {
    match p {
        Parametro::Capacidad => VistaArgs { capacidad_parque: n, ..a },
        Parametro::Semilla => VistaArgs { semilla: n, ..a },
        _ => a,
    }
}

/// Los parámetros `a` con el arreglo `v` en `p`.
pub open spec fn con_arreglo(a: VistaArgs, p: Parametro, v: Seq<u32>) -> VistaArgs {
    match p {
        Parametro::Personas => VistaArgs { presupuesto_personas: v, ..a },
        Parametro::CostoJuegos => VistaArgs { costo_juegos: Some(v), ..a },
        Parametro::CapacidadJuegos => VistaArgs { capacidad_juegos: Some(v), ..a },
        Parametro::DuracionJuegos => VistaArgs { duracion_juegos: Some(v), ..a },
        _ => a,
    }
}

/// Dar a `p` el valor escrito en `dato` lleva de `antes` a `despues` con
/// resultado `r`. Un error deja los parámetros como estaban.
pub open spec fn asignacion(
    antes: VistaArgs,
    p: Parametro,
    dato: Seq<char>,
    r: Result<(), Seq<char>>,
    despues: VistaArgs,
) -> bool {
    if lleva_numero(p) {
        match natural(dato) {
            Err(m) => r == Err::<(), Seq<char>>(m) && despues == antes,
            Ok(n) => r == Ok::<(), Seq<char>>(()) && despues == con_numero(antes, p, n),
        }
    } else {
        match forma_de_arreglo(dato) {
            Err(m) => r == Err::<(), Seq<char>>(m) && despues == antes,
            Ok(forma) => r == Ok::<(), Seq<char>>(()) && exists|v: Seq<u32>| #[trigger]
                cumple(forma, v) && despues == con_arreglo(antes, p, v),
        }
    }
}

/// El error de dar a `p` el valor escrito en `dato`, si lo hay.
pub open spec fn error_de_asignacion(p: Parametro, dato: Seq<char>) -> Option<Seq<char>> {
    if lleva_numero(p) {
        match natural(dato) {
            Err(m) => Some(m),
            Ok(n) => None,
        }
    } else {
        match forma_de_arreglo(dato) {
            Err(m) => Some(m),
            Ok(forma) => None,
        }
    }
}

/// Lo que pide un argumento de la línea de comando.
pub enum Lectura {
    Ayuda,
    Debug,
    Asignar { p: Parametro, dato: Seq<char> },
    Invalido(Seq<char>),
}

/// Lo que pide `arg`. Se lo parte por `=`: el primer trozo decide si es la
/// ayuda o el registro a un archivo, cualquiera sea el resto; si no, tiene
/// que ser `nombre=valor` con el nombre de un parámetro.
pub open spec fn leer_argumento(arg: Seq<char>) -> Lectura {
    let val = separar(arg, '=');
    if val[0] == "-h"@ || val[0] == "--help"@ {
        Lectura::Ayuda
    } else if val[0] == "-d"@ || val[0] == "--debug"@ {
        Lectura::Debug
    } else if val.len() != 2 {
        Lectura::Invalido(mensaje_error(arg, "Argumento inválido"@))
    } else {
        match parametro_de(val[0]) {
            Some(p) => Lectura::Asignar { p, dato: val[1] },
            None => Lectura::Invalido(mensaje_error(val[0], "Argumento inválido"@)),
        }
    }
}

/// En qué termina resolver los valores por defecto de `a`.
pub open spec fn cierre(a: VistaArgs) -> Desenlace {
    match resuelto(a) {
        Ok((costos, capacidades, duraciones)) => Desenlace::Listo(
            VistaArgs {
                costo_juegos: Some(costos),
                capacidad_juegos: Some(capacidades),
                duracion_juegos: Some(duraciones),
                ..a
            },
        ),
        Err(m) => Desenlace::Error(m),
    }
}

/// `fin` es un desenlace posible de leer `argumentos` en orden a partir de
/// `antes`. El primer pedido de ayuda o el primer error cortan la lectura;
/// si no hay ninguno, se resuelven los valores por defecto.
pub open spec fn recorrido(antes: VistaArgs, argumentos: Seq<Seq<char>>, fin: Desenlace) -> bool
    decreases argumentos.len(),
{
    if argumentos.len() == 0 {
        fin == cierre(antes)
    } else {
        let resto = argumentos.drop_first();
        match leer_argumento(argumentos[0]) {
            Lectura::Ayuda => fin == Desenlace::Ayuda,
            Lectura::Invalido(m) => fin == Desenlace::Error(m),
            Lectura::Debug => recorrido(VistaArgs { debug: true, ..antes }, resto, fin),
            Lectura::Asignar { p, dato } => match error_de_asignacion(p, dato) {
                Some(m) => fin == Desenlace::Error(mensaje_error(nombre_de(p), m)),
                None => exists|medio: VistaArgs| #[trigger]
                    asignacion(antes, p, dato, Ok::<(), Seq<char>>(()), medio) && recorrido(
                        medio,
                        resto,
                        fin,
                    ),
            },
        }
    }
}

/// Los argumentos como secuencias de caracteres.
pub open spec fn textos(argumentos: Seq<String>) -> Seq<Seq<char>> {
    Seq::new(argumentos.len(), |i: int| argumentos[i]@)
}

/// Los parámetros antes de leer nada: sólo la semilla varía.
pub open spec fn por_defecto(semilla: u32) -> VistaArgs {
    VistaArgs {
        capacidad_parque: 10,
        presupuesto_personas: repetido(40, 5),
        costo_juegos: None,
        capacidad_juegos: None,
        duracion_juegos: None,
        debug: false,
        semilla,
    }
}

/// `nombre=n1,n2,...,nk`.
pub open spec fn arreglo_en_texto(nombre: Seq<char>, v: Seq<u32>) -> Seq<char> {
    nombre + "="@ + unir(v)
}

/// `nombre=n1,n2,...,nk` si el arreglo está, nada si falta.
pub open spec fn opcional_en_texto(nombre: Seq<char>, o: Option<Seq<u32>>) -> Seq<char> {
    match o {
        Some(v) => arreglo_en_texto(nombre, v),
        None => Seq::empty(),
    }
}

/// La línea de comando que reproduce los parámetros `a` con el ejecutable
/// `exe`.
pub open spec fn linea_de_comando(a: VistaArgs, exe: Seq<char>) -> Seq<char> {
    exe + " --capacidad="@ + decimal(a.capacidad_parque as nat) + " "@ + arreglo_en_texto(
        "--personas"@,
        a.presupuesto_personas,
    ) + opcional_en_texto(" --costo-juegos"@, a.costo_juegos) + opcional_en_texto(
        " --capacidad-juegos"@,
        a.capacidad_juegos,
    ) + opcional_en_texto(" --duracion-juegos"@, a.duracion_juegos) + " --semilla="@ + decimal(
        a.semilla as nat,
    ) + " "@ + (if a.debug {
        "-d"@
    } else {
        Seq::empty()
    })
}

/// Las opciones de la línea de comando, como las explica la ayuda.
pub open spec fn opciones_de_ayuda() -> Seq<char> {
    " [--personas=<ARREGLO>] [--costo-juegos=<ARREGLO>] [--capacidad-juegos=<ARREGLO>] [--duracion-juegos=<ARREGLO>] [--capacidad=N] [--semilla=N] [-d|--debug] [-h|--help]\n\
\t --personas=<ARREGLO>: Cantidad de personas que ingresarán al parque\n\
\t y presupuesto inicial de las mismas\n\
\t --costo-juegos=<ARREGLO>: Costo de cada uno de los juegos\n\
\t --capacidad-juegos=<ARREGLO>: Cantidad de personas que ingresa por vuelta a cada juego\n\
\t --duracion-juegos=<ARREGLO>: Duración, en milisegundos, de la vuelta de cada juego\n\
\n\
\t <ARREGLO> se escribe de una de estas formas:\n\
\t n1,n2,n3,...,nk: k valores n1, n2, n3, ..., nk\n\
\t N:P: N valores, todos iguales a P.\n\
\t N:Pm:PM: N valores aleatorios en el rango [Pm,PM), con Pm < PM\n\
\n\
\t --capacidad=N: Cantidad de personas que puede haber simultáneamente\n\
\t dentro del parque en un momento dado.\n\
\t -d|--debug: Habilitar registro a un archivo.\n\
\t -h|--help: Muestra esta ayuda.\n\
\t --semilla=N: Semilla aleatoria a utilizar.\n"@
}

/// El texto de la ayuda para el ejecutable `exe`.
pub open spec fn texto_de_ayuda(exe: Seq<char>) -> Seq<char> {
    "Uso: "@ + exe + opciones_de_ayuda()
}

/// `valor` repetido `n` veces.
pub fn repetir(valor: u32, n: usize) -> (v: Vec<u32>)
    ensures
        v@ == repetido(valor, n as nat),
{
    let mut v: Vec<u32> = Vec::new();
    let mut i: usize = 0;
    while i < n
        invariant
            i <= n,
            v@ == repetido(valor, i as nat),
        decreases n - i,
    {
        v.push(valor);
        i = i + 1;
    }
    v
}

impl ParseArgsResult {
    /// El error `err` del parámetro `param`.
    pub fn error(param: &str, err: String) -> (r: ParseArgsResult)
        ensures
            r@ == Desenlace::Error(mensaje_error(param@, err@)),
    {
        let mut m = String::from_str("[");
        m.append(param);
        m.append("] ");
        m.append(err.as_str());
        ParseArgsResult::Error(m)
    }
}

impl Args {
    /// Los parámetros antes de leer nada, con una semilla sorteada.
    pub fn default() -> (a: Self)
        ensures
            a@ == por_defecto(a.semilla),
    {
        Args {
            capacidad_parque: 10,
            presupuesto_personas: repetir(40, 5),
            costo_juegos: None,
            capacidad_juegos: None,
            duracion_juegos: None,
            debug: false,
            semilla: semilla_del_sistema(),
        }
    }

    /// La línea de comando que reproduce estos parámetros.
    pub fn as_str(&self, exe: &str) -> (linea: String)
        ensures
            linea@ == linea_de_comando(self@, exe@),
    {
        let mut result = String::from_str(exe);
        result.append(" --capacidad=");
        agregar_decimal(&mut result, self.capacidad_parque as u64);
        result.append(" ");
        let personas = Self::stringify_array("--personas", &self.presupuesto_personas);
        result.append(personas.as_str());
        if let Some(data) = &self.costo_juegos {
            let t = Self::stringify_array(" --costo-juegos", data);
            result.append(t.as_str());
        }
        if let Some(data) = &self.capacidad_juegos {
            let t = Self::stringify_array(" --capacidad-juegos", data);
            result.append(t.as_str());
        }
        if let Some(data) = &self.duracion_juegos {
            let t = Self::stringify_array(" --duracion-juegos", data);
            result.append(t.as_str());
        }
        result.append(" --semilla=");
        agregar_decimal(&mut result, self.semilla as u64);
        result.append(" ");
        if self.debug {
            result.append("-d");
        }
        result
    }

    /// `nombre=n1,n2,...,nk`.
    pub fn stringify_array(nombre: &str, array: &Vec<u32>) -> (t: String)
        ensures
            t@ == arreglo_en_texto(nombre@, array@),
    {
        let mut t = String::from_str(nombre);
        t.append("=");
        agregar_unidos(&mut t, array);
        t
    }

    /// Los parámetros que llevan valor, cada uno con su nombre.
    pub fn parsers() -> (r: Vec<(&'static str, Parametro)>)
        ensures
            r@.len() == tabla().len(),
            forall|i: int|
                0 <= i < r@.len() ==> (#[trigger] r@[i]).1 == tabla()[i] && r@[i].0@ == nombre_de(
                    tabla()[i],
                ),
    {
        let mut result: Vec<(&'static str, Parametro)> = Vec::new();
        result.push(("--personas", Parametro::Personas));
        result.push(("--costo-juegos", Parametro::CostoJuegos));
        result.push(("--capacidad-juegos", Parametro::CapacidadJuegos));
        result.push(("--duracion-juegos", Parametro::DuracionJuegos));
        result.push(("--capacidad", Parametro::Capacidad));
        result.push(("--semilla", Parametro::Semilla));
        result
    }

    /// El parámetro que se llama `nombre`, si lo hay.
    pub fn buscar_parser(nombre: &str) -> (r: Option<Parametro>)
        ensures
            r == parametro_de(nombre@),
    {
        let parsers = Self::parsers();
        let mut i: usize = 0;
        assert(tabla().skip(0) =~= tabla());
        while i < parsers.len()
            invariant
                i <= parsers.len(),
                parsers@.len() == tabla().len(),
                forall|j: int|
                    0 <= j < parsers@.len() ==> (#[trigger] parsers@[j]).1 == tabla()[j]
                        && parsers@[j].0@ == nombre_de(tabla()[j]),
                parametro_de(nombre@) == buscar_en(tabla().skip(i as int), nombre@),
            decreases parsers.len() - i,
        {
            proof {
                assert(tabla().skip(i as int).drop_first() =~= tabla().skip(i + 1));
            }
            if iguales(parsers[i].0, nombre) {
                return Some(parsers[i].1);
            }
            i = i + 1;
        }
        None
    }

    /// Lee los presupuestos de las personas.
    pub fn parse_personas(args: &mut Args, data: &str) -> (r: Result<(), String>)
        ensures
            asignacion(old(args)@, Parametro::Personas, data@, vista_unidad(r), final(args)@),
    {
        match Self::parse_array(data) {
            Ok(v) => {
                args.presupuesto_personas = v;
                Ok(())
            },
            Err(e) => Err(e),
        }
    }

    /// Lee los costos de los juegos.
    pub fn parse_costo_juegos(args: &mut Args, data: &str) -> (r: Result<(), String>)
        ensures
            asignacion(old(args)@, Parametro::CostoJuegos, data@, vista_unidad(r), final(args)@),
    {
        match Self::parse_array(data) {
            Ok(v) => {
                args.costo_juegos = Some(v);
                Ok(())
            },
            Err(e) => Err(e),
        }
    }

    /// Lee las capacidades de los juegos.
    pub fn parse_capacidad_juegos(args: &mut Args, data: &str) -> (r: Result<(), String>)
        ensures
            asignacion(
                old(args)@,
                Parametro::CapacidadJuegos,
                data@,
                vista_unidad(r),
                final(args)@,
            ),
    {
        match Self::parse_array(data) {
            Ok(v) => {
                args.capacidad_juegos = Some(v);
                Ok(())
            },
            Err(e) => Err(e),
        }
    }

    /// Lee las duraciones de los juegos.
    pub fn parse_duracion_juegos(args: &mut Args, data: &str) -> (r: Result<(), String>)
        ensures
            asignacion(
                old(args)@,
                Parametro::DuracionJuegos,
                data@,
                vista_unidad(r),
                final(args)@,
            ),
    {
        match Self::parse_array(data) {
            Ok(v) => {
                args.duracion_juegos = Some(v);
                Ok(())
            },
            Err(e) => Err(e),
        }
    }

    /// Lee la capacidad del parque.
    pub fn parse_capacidad(args: &mut Args, data: &str) -> (r: Result<(), String>)
        ensures
            asignacion(old(args)@, Parametro::Capacidad, data@, vista_unidad(r), final(args)@),
    {
        match Self::parse_u32(data) {
            Ok(n) => {
                args.capacidad_parque = n;
                Ok(())
            },
            Err(e) => Err(e),
        }
    }

    /// Lee la semilla.
    pub fn parse_semilla(args: &mut Args, data: &str) -> (r: Result<(), String>)
        ensures
            asignacion(old(args)@, Parametro::Semilla, data@, vista_unidad(r), final(args)@),
    {
        match Self::parse_u32(data) {
            Ok(n) => {
                args.semilla = n;
                Ok(())
            },
            Err(e) => Err(e),
        }
    }

    /// Da al parámetro `p` el valor escrito en `data`.
    pub fn aplicar(args: &mut Args, p: Parametro, data: &str) -> (r: Result<(), String>)
        ensures
            asignacion(old(args)@, p, data@, vista_unidad(r), final(args)@),
    {
        match p {
            Parametro::Personas => Self::parse_personas(args, data),
            Parametro::CostoJuegos => Self::parse_costo_juegos(args, data),
            Parametro::CapacidadJuegos => Self::parse_capacidad_juegos(args, data),
            Parametro::DuracionJuegos => Self::parse_duracion_juegos(args, data),
            Parametro::Capacidad => Self::parse_capacidad(args, data),
            Parametro::Semilla => Self::parse_semilla(args, data),
        }
    }

    /// Lee un natural mayor que cero.
    pub fn parse_u32(data: &str) -> (r: Result<u32, String>)
        ensures
            vista_numero(r) == natural(data@),
    {
        match leer_natural(data) {
            Some(n) => {
                if n == 0 {
                    let mut m = String::from_str("'");
                    agregar_decimal(&mut m, 0);
                    m.append("' no es un número natural");
                    Err(m)
                } else {
                    Ok(n)
                }
            },
            None => {
                let mut m = String::from_str("'");
                m.append(data);
                m.append("' no es un número natural");
                Err(m)
            },
        }
    }

    /// Lee naturales separados por comas. Se detiene en el primero que no lo
    /// es.
    pub fn parse_lista(data: &str) -> (r: Result<Vec<u32>, String>)
        ensures
            vista_arreglo(r) == naturales(separar(data@, ',')),
    {
        let mut resultado: Vec<u32> = Vec::new();
        let trozos = separar_texto(data, ',');
        let ghost todos = separar(data@, ',');
        let mut i: usize = 0;
        while i < trozos.len()
            invariant
                i <= trozos.len(),
                todos == separar(data@, ','),
                trozos@.len() == todos.len(),
                forall|j: int| 0 <= j < trozos@.len() ==> (#[trigger] trozos@[j])@ == todos[j],
                naturales(todos.take(i as int)) == Ok::<Seq<u32>, Seq<char>>(resultado@),
            decreases trozos.len() - i,
        {
            proof {
                assert(todos.take(i + 1).drop_last() =~= todos.take(i as int));
            }
            match Self::parse_u32(trozos[i]) {
                Ok(n) => {
                    resultado.push(n);
                },
                Err(e) => {
                    proof {
                        lema_primer_error(todos, i + 1);
                    }
                    return Err(e);
                },
            }
            i = i + 1;
        }
        proof {
            assert(todos.take(trozos.len() as int) =~= todos);
        }
        Ok(resultado)
    }

    /// Lee un arreglo escrito como `n1,n2,...,nk`, `N:P` o `N:Pm:PM`. En la
    /// última escritura tiene que ser `Pm < PM` y los valores se sortean: de
    /// ellos sólo se sabe cuántos son y en qué rango caen.
    pub fn parse_array(data: &str) -> (r: Result<Vec<u32>, String>)
        ensures
            arreglo_valido(data@, vista_arreglo(r)),
    {
        let partes = separar_texto(data, ':');
        proof {
            lema_separar_no_vacio(data@, ':');
        }
        if partes.len() > 3 {
            return Err(String::from_str("Formato inválido"));
        }
        if partes.len() == 1 {
            return Self::parse_lista(partes[0]);
        }
        let n_personas: u32 = match Self::parse_u32(partes[0]) {
            Ok(n) => n,
            Err(e) => {
                return Err(e);
            },
        };
        let presupuesto_min: u32 = match Self::parse_u32(partes[1]) {
            Ok(n) => n,
            Err(e) => {
                return Err(e);
            },
        };
        let mut resultado: Vec<u32> = Vec::new();
        let mut i: u32 = 0;
        if partes.len() == 2 {
            while i < n_personas
                invariant
                    i <= n_personas,
                    resultado@ == repetido(presupuesto_min, i as nat),
                decreases n_personas - i,
            {
                resultado.push(presupuesto_min);
                i = i + 1;
            }
            return Ok(resultado);
        }
        let presupuesto_max: u32 = match Self::parse_u32(partes[2]) {
            Ok(n) => n,
            Err(e) => {
                return Err(e);
            },
        };
        if presupuesto_min >= presupuesto_max {
            let mut m = String::from_str("Rango inválido (");
            agregar_decimal(&mut m, presupuesto_min as u64);
            if presupuesto_min == presupuesto_max {
                m.append(" >= ");
            } else {
                m.append(" > ");
            }
            agregar_decimal(&mut m, presupuesto_max as u64);
            m.append(")");
            return Err(m);
        }
        while i < n_personas
            invariant
                i <= n_personas,
                presupuesto_min < presupuesto_max,
                resultado@.len() == i,
                forall|j: int|
                    0 <= j < resultado@.len() ==> presupuesto_min <= #[trigger] resultado@[j]
                        < presupuesto_max,
            decreases n_personas - i,
        {
            resultado.push(natural_al_azar(presupuesto_min, presupuesto_max));
            i = i + 1;
        }
        Ok(resultado)
    }

    /// Iguala el tamaño de `dest` al de `base`: lo devuelve si coincide, o
    /// `defval` repetido si `dest` falta. `dest` queda vacío.
    pub fn igualar_arrays(
        base: &Vec<u32>,
        dest: &mut Option<Vec<u32>>,
        defval: u32,
        nombre_base: &str,
        nombre_dest: &str,
    ) -> (r: Result<Vec<u32>, String>)
        ensures
            *final(dest) is None,
            vista_arreglo(r) == igualado(
                base@,
                vista_opcional(*old(dest)),
                defval,
                nombre_base@,
                nombre_dest@,
            ),
    {
        match dest.take() {
            Some(d) => {
                if base.len() != d.len() {
                    let mut m = String::from_str("Los parámetros ");
                    m.append(nombre_base);
                    m.append(" y ");
                    m.append(nombre_dest);
                    m.append(" deben ser arreglos del mismo tamaño (");
                    agregar_decimal(&mut m, base.len() as u64);
                    m.append(" != ");
                    agregar_decimal(&mut m, d.len() as u64);
                    m.append(")");
                    return Err(m);
                }
                Ok(d)
            },
            None => Ok(repetir(defval, base.len())),
        }
    }

    /// Resuelve los parámetros por defecto.
    ///
    /// Si se especificaron sólo los costos de los juegos (o cualquier otro
    /// parámetro), crea la cantidad correcta de valores por defecto para los
    /// otros. Si se especificaron varios, revisa que todos representen la
    /// misma cantidad de juegos. Ante un error los costos y las capacidades
    /// quedan sin definir, y también las duraciones salvo que el error sea
    /// entre costos y capacidades.
    pub fn resolver(&mut self) -> (r: Result<(), String>)
        ensures
            match resuelto(old(self)@) {
                Ok((costos, capacidades, duraciones)) => r is Ok && final(self)@ == (VistaArgs {
                    costo_juegos: Some(costos),
                    capacidad_juegos: Some(capacidades),
                    duracion_juegos: Some(duraciones),
                    ..old(self)@
                }),
                Err(m) => vista_unidad(r) == Err::<(), Seq<char>>(m) && final(self)@ == (VistaArgs {
                    costo_juegos: None,
                    capacidad_juegos: None,
                    duracion_juegos: if falla_capacidad(old(self)@) {
                        old(self)@.duracion_juegos
                    } else {
                        None
                    },
                    ..old(self)@
                }),
            },
    {
        if self.costo_juegos.is_none() && self.capacidad_juegos.is_none()
            && self.duracion_juegos.is_none() {
            self.costo_juegos = Some(repetir(10, 5));
            self.capacidad_juegos = Some(repetir(2, 5));
            self.duracion_juegos = Some(repetir(25, 5));
            return Ok(());
        }
        let costos: Vec<u32>;
        let capacidad: Vec<u32>;
        let duraciones: Vec<u32>;
        if let Some(c) = self.costo_juegos.take() {
            capacidad =
            match Self::igualar_arrays(
                &c,
                &mut self.capacidad_juegos,
                2,
                "--costo-juegos",
                "--capacidad-juegos",
            ) {
                Ok(v) => v,
                Err(e) => {
                    return Err(e);
                },
            };
            duraciones =
            match Self::igualar_arrays(
                &c,
                &mut self.duracion_juegos,
                25,
                "--costo-juegos",
                "--duracion-juegos",
            ) {
                Ok(v) => v,
                Err(e) => {
                    return Err(e);
                },
            };
            costos = c;
        } else if let Some(k) = self.capacidad_juegos.take() {
            costos =
            match Self::igualar_arrays(
                &k,
                &mut self.costo_juegos,
                10,
                "--capacidad-juegos",
                "--costo-juegos",
            ) {
                Ok(v) => v,
                Err(e) => {
                    return Err(e);
                },
            };
            duraciones =
            match Self::igualar_arrays(
                &k,
                &mut self.duracion_juegos,
                25,
                "--capacidad-juegos",
                "--duracion-juegos",
            ) {
                Ok(v) => v,
                Err(e) => {
                    return Err(e);
                },
            };
            capacidad = k;
        } else {
            let d: Vec<u32> = self.duracion_juegos.take().unwrap();
            costos =
            match Self::igualar_arrays(
                &d,
                &mut self.costo_juegos,
                10,
                "--duracion-juegos",
                "--costo-juegos",
            ) {
                Ok(v) => v,
                Err(e) => {
                    return Err(e);
                },
            };
            capacidad =
            match Self::igualar_arrays(
                &d,
                &mut self.capacidad_juegos,
                2,
                "--duracion-juegos",
                "--capacidad-juegos",
            ) {
                Ok(v) => v,
                Err(e) => {
                    return Err(e);
                },
            };
            duraciones = d;
        }
        self.costo_juegos = Some(costos);
        self.capacidad_juegos = Some(capacidad);
        self.duracion_juegos = Some(duraciones);
        Ok(())
    }
}

/// Los trozos que se leen bien dan naturales mayores que cero.
pub proof fn lema_naturales(trozos: Seq<Seq<char>>)
    ensures
        naturales(trozos) matches Ok(v) ==> todos_naturales(v),
    decreases trozos.len(),
{
    if trozos.len() > 0 {
        lema_naturales(trozos.drop_last());
    }
}

/// Todo arreglo que una forma admite es de naturales mayores que cero.
pub proof fn lema_forma_natural(data: Seq<char>, v: Seq<u32>)
    requires
        forma_de_arreglo(data) matches Ok(forma) && cumple(forma, v),
    ensures
        todos_naturales(v),
{
    let partes = separar(data, ':');
    if partes.len() == 1 {
        lema_naturales(separar(partes[0], ','));
    }
}

/// Una asignación que sale bien conserva los naturales.
pub proof fn lema_asignacion_natural(
    antes: VistaArgs,
    p: Parametro,
    dato: Seq<char>,
    despues: VistaArgs,
)
    requires
        antes.naturales(),
        asignacion(antes, p, dato, Ok::<(), Seq<char>>(()), despues),
    ensures
        despues.naturales(),
{
    if !lleva_numero(p) {
        let forma = forma_de_arreglo(dato)->Ok_0;
        let v = choose|v: Seq<u32>| #[trigger]
            cumple(forma, v) && despues == con_arreglo(antes, p, v);
        lema_forma_natural(dato, v);
    }
}

/// Resolver los valores por defecto conserva los naturales y deja los tres
/// arreglos de los juegos del mismo tamaño.
pub proof fn lema_cierre_natural(a: VistaArgs)
    requires
        a.naturales(),
    ensures
        cierre(a) matches Desenlace::Listo(b) ==> b.naturales() && b.resueltos(),
{
}

/// Los parámetros que se terminan de leer describen un parque con cupo,
/// personas con algo de dinero y juegos con lugar, precio y duración: todos
/// los números son mayores que cero y los tres arreglos de los juegos tienen
/// el mismo tamaño.
pub proof fn lema_recorrido_natural(antes: VistaArgs, argumentos: Seq<Seq<char>>, fin: Desenlace)
    requires
        antes.naturales(),
        recorrido(antes, argumentos, fin),
    ensures
        fin matches Desenlace::Listo(b) ==> b.naturales() && b.resueltos(),
    decreases argumentos.len(),
{
    if argumentos.len() == 0 {
        lema_cierre_natural(antes);
    } else {
        let resto = argumentos.drop_first();
        match leer_argumento(argumentos[0]) {
            Lectura::Ayuda => {},
            Lectura::Invalido(m) => {},
            Lectura::Debug => {
                lema_recorrido_natural(VistaArgs { debug: true, ..antes }, resto, fin);
            },
            Lectura::Asignar { p, dato } => {
                if error_de_asignacion(p, dato) is None {
                    let medio = choose|medio: VistaArgs| #[trigger]
                        asignacion(antes, p, dato, Ok::<(), Seq<char>>(()), medio) && recorrido(
                            medio,
                            resto,
                            fin,
                        );
                    lema_asignacion_natural(antes, p, dato, medio);
                    lema_recorrido_natural(medio, resto, fin);
                }
            },
        }
    }
}

/// Dos parámetros distintos no se llaman igual.
pub proof fn lema_nombres_distintos(p: Parametro, q: Parametro)
    requires
        p != q,
    ensures
        nombre_de(p) != nombre_de(q),
{
    reveal_strlit("--personas");
    reveal_strlit("--costo-juegos");
    reveal_strlit("--capacidad-juegos");
    reveal_strlit("--duracion-juegos");
    reveal_strlit("--capacidad");
    reveal_strlit("--semilla");
    assert(nombre_de(p).len() != nombre_de(q).len());
}

/// En una tabla, el parámetro que no aparece antes de su posición se
/// encuentra por su nombre.
pub proof fn lema_buscar_por_nombre(tabla: Seq<Parametro>, k: int)
    requires
        0 <= k < tabla.len(),
        forall|j: int| 0 <= j < k ==> #[trigger] tabla[j] != tabla[k],
    ensures
        buscar_en(tabla, nombre_de(tabla[k])) == Some(tabla[k]),
    decreases k,
{
    if k > 0 {
        let resto = tabla.drop_first();
        lema_nombres_distintos(tabla[0], tabla[k]);
        assert(resto[k - 1] == tabla[k]);
        assert forall|j: int| 0 <= j < k - 1 implies #[trigger] resto[j] != resto[k - 1] by {
            assert(resto[j] == tabla[j + 1]);
        }
        lema_buscar_por_nombre(resto, k - 1);
    }
}

/// Cada parámetro se encuentra por su nombre.
pub proof fn lema_parametro_por_nombre(p: Parametro)
    ensures
        parametro_de(nombre_de(p)) == Some(p),
{
    let k: int = match p {
        Parametro::Personas => 0,
        Parametro::CostoJuegos => 1,
        Parametro::CapacidadJuegos => 2,
        Parametro::DuracionJuegos => 3,
        Parametro::Capacidad => 4,
        Parametro::Semilla => 5,
    };
    assert(tabla()[k] == p);
    lema_buscar_por_nombre(tabla(), k);
}

/// Si la búsqueda encuentra un parámetro, se llama como se lo buscó.
pub proof fn lema_nombre_hallado(tabla: Seq<Parametro>, nombre: Seq<char>)
    requires
        buscar_en(tabla, nombre) is Some,
    ensures
        nombre_de(buscar_en(tabla, nombre)->Some_0) == nombre,
    decreases tabla.len(),
{
    if tabla.len() > 0 && nombre_de(tabla[0]) != nombre {
        lema_nombre_hallado(tabla.drop_first(), nombre);
    }
}

/// Lee los argumentos en orden a partir de los parámetros `inicio` y resuelve
/// los valores por defecto. `-h` o `--help` piden la ayuda; `-d` o `--debug`
/// activan el registro a un archivo; el resto se escribe `nombre=valor`.
pub fn leer_argumentos(inicio: Args, argumentos: &Vec<String>) -> (r: ParseArgsResult)
    ensures
        recorrido(inicio@, textos(argumentos@), r@),
{
    let ghost inicial = inicio@;
    let mut args = inicio;
    let ghost todos = textos(argumentos@);
    let mut i: usize = 0;
    assert(todos.skip(0) =~= todos);
    while i < argumentos.len()
        invariant
            i <= argumentos.len(),
            todos == textos(argumentos@),
            inicial == inicio@,
            forall|fin: Desenlace| #[trigger]
                recorrido(args@, todos.skip(i as int), fin) ==> recorrido(inicial, todos, fin),
        decreases argumentos.len() - i,
    {
        let arg: &str = argumentos[i].as_str();
        let val = separar_texto(arg, '=');
        let ghost antes = args@;
        let ghost aqui = todos.skip(i as int);
        let ghost resto = todos.skip(i + 1);
        proof {
            lema_separar_no_vacio(arg@, '=');
            assert(aqui.drop_first() =~= resto);
        }
        if iguales(val[0], "-h") || iguales(val[0], "--help") {
            assert(recorrido(antes, aqui, Desenlace::Ayuda));
            return ParseArgsResult::MostrarAyuda;
        } else if iguales(val[0], "-d") || iguales(val[0], "--debug") {
            args.debug = true;
            assert forall|fin: Desenlace| #[trigger] recorrido(args@, resto, fin) implies recorrido(
                inicial,
                todos,
                fin,
            ) by {
                assert(recorrido(antes, aqui, fin));
            }
        } else if val.len() != 2 {
            let r = ParseArgsResult::error(arg, String::from_str("Argumento inválido"));
            assert(recorrido(antes, aqui, r@));
            return r;
        } else {
            match Args::buscar_parser(val[0]) {
                Some(p) => {
                    proof {
                        lema_nombre_hallado(tabla(), val@[0]@);
                    }
                    match Args::aplicar(&mut args, p, val[1]) {
                        Ok(u) => {
                            assert forall|fin: Desenlace| #[trigger]
                                recorrido(args@, resto, fin) implies recorrido(
                                inicial,
                                todos,
                                fin,
                            ) by {
                                assert(recorrido(antes, aqui, fin));
                            }
                        },
                        Err(e) => {
                            let r = ParseArgsResult::error(val[0], e);
                            proof {
                                assert(recorrido(antes, aqui, r@));
                            }
                            return r;
                        },
                    }
                },
                None => {
                    let r = ParseArgsResult::error(val[0], String::from_str("Argumento inválido"));
                    assert(recorrido(antes, aqui, r@));
                    return r;
                },
            }
        }
        i = i + 1;
    }
    let ghost antes = args@;
    match args.resolver() {
        Err(e) => {
            let r = ParseArgsResult::Error(e);
            assert(recorrido(antes, todos.skip(i as int), r@));
            r
        },
        Ok(u) => {
            let r = ParseArgsResult::Listo(args);
            assert(recorrido(antes, todos.skip(i as int), r@));
            r
        },
    }
}

/// Arma el texto de la ayuda: cómo se usa el ejecutable `exe` y qué hace
/// cada opción.
pub fn mostrar_ayuda(exe: &str) -> (ayuda: String)
    ensures
        ayuda@ == texto_de_ayuda(exe@),
{
    let mut ayuda = String::from_str("Uso: ");
    ayuda.append(exe);
    ayuda.append(
        " [--personas=<ARREGLO>] [--costo-juegos=<ARREGLO>] [--capacidad-juegos=<ARREGLO>] [--duracion-juegos=<ARREGLO>] [--capacidad=N] [--semilla=N] [-d|--debug] [-h|--help]\n\
\t --personas=<ARREGLO>: Cantidad de personas que ingresarán al parque\n\
\t y presupuesto inicial de las mismas\n\
\t --costo-juegos=<ARREGLO>: Costo de cada uno de los juegos\n\
\t --capacidad-juegos=<ARREGLO>: Cantidad de personas que ingresa por vuelta a cada juego\n\
\t --duracion-juegos=<ARREGLO>: Duración, en milisegundos, de la vuelta de cada juego\n\
\n\
\t <ARREGLO> se escribe de una de estas formas:\n\
\t n1,n2,n3,...,nk: k valores n1, n2, n3, ..., nk\n\
\t N:P: N valores, todos iguales a P.\n\
\t N:Pm:PM: N valores aleatorios en el rango [Pm,PM), con Pm < PM\n\
\n\
\t --capacidad=N: Cantidad de personas que puede haber simultáneamente\n\
\t dentro del parque en un momento dado.\n\
\t -d|--debug: Habilitar registro a un archivo.\n\
\t -h|--help: Muestra esta ayuda.\n\
\t --semilla=N: Semilla aleatoria a utilizar.\n",
    );
    ayuda
}

/// Lee la línea de comando (sin el nombre del ejecutable) a partir de los
/// parámetros por defecto, cuya semilla se sortea.
pub fn parse_args(argumentos: &Vec<String>) -> (r: ParseArgsResult)
    ensures
        exists|semilla: u32| #[trigger] recorrido(por_defecto(semilla), textos(argumentos@), r@),
        r@ matches Desenlace::Listo(a) ==> a.naturales() && a.resueltos(),
{
    let args = Args::default();
    let r = leer_argumentos(args, argumentos);
    proof {
        lema_recorrido_natural(por_defecto(args.semilla), textos(argumentos@), r@);
    }
    r
}

/// Si los primeros `k` trozos ya dan error, todos los trozos dan ese error.
pub proof fn lema_primer_error(trozos: Seq<Seq<char>>, k: int)
    requires
        0 <= k <= trozos.len(),
        naturales(trozos.take(k)) is Err,
    ensures
        naturales(trozos) == naturales(trozos.take(k)),
    decreases trozos.len() - k,
{
    if k < trozos.len() {
        assert(trozos.take(k + 1).drop_last() =~= trozos.take(k));
        lema_primer_error(trozos, k + 1);
    } else {
        assert(trozos.take(k) =~= trozos);
    }
}

} // verus!
