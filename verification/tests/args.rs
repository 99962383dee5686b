use parque::args::leer_argumentos;
use parque::args::mostrar_ayuda;
use parque::args::parse_args;
use parque::args::Args;
use parque::args::Parametro;
use parque::args::ParseArgsResult;

fn textos(argumentos: &[&str]) -> Vec<String> {
    argumentos.iter().map(|a| a.to_string()).collect()
}

fn leer(argumentos: &[&str]) -> ParseArgsResult {
    parse_args(&textos(argumentos))
}

fn listo(argumentos: &[&str]) -> Args {
    match leer(argumentos) {
        ParseArgsResult::Listo(args) => args,
        ParseArgsResult::MostrarAyuda => panic!("ayuda"),
        ParseArgsResult::Error(e) => panic!("{}", e),
    }
}

fn error(argumentos: &[&str]) -> String {
    match leer(argumentos) {
        ParseArgsResult::Error(e) => e,
        ParseArgsResult::MostrarAyuda => panic!("ayuda"),
        ParseArgsResult::Listo(args) => panic!("{:?}", args),
    }
}

fn vacios() -> Args {
    Args {
        capacidad_parque: 10,
        presupuesto_personas: vec![40; 5],
        costo_juegos: None,
        capacidad_juegos: None,
        duracion_juegos: None,
        debug: false,
        semilla: 1,
    }
}

#[test]
fn error_arma_el_mensaje_con_el_parametro() {
    match ParseArgsResult::error("--capacidad", "no".to_string()) {
        ParseArgsResult::Error(e) => assert_eq!(e, "[--capacidad] no"),
        _ => panic!("no es un error"),
    }
}

#[test]
fn los_valores_por_defecto() {
    let args = Args::default();
    assert_eq!(args.capacidad_parque, 10);
    assert_eq!(args.presupuesto_personas, vec![40, 40, 40, 40, 40]);
    assert_eq!(args.costo_juegos, None);
    assert_eq!(args.capacidad_juegos, None);
    assert_eq!(args.duracion_juegos, None);
    assert!(!args.debug);
}

#[test]
fn sin_argumentos_hay_cinco_juegos_por_defecto() {
    let args = listo(&[]);
    assert_eq!(args.capacidad_parque, 10);
    assert_eq!(args.presupuesto_personas, vec![40; 5]);
    assert_eq!(args.costo_juegos, Some(vec![10; 5]));
    assert_eq!(args.capacidad_juegos, Some(vec![2; 5]));
    assert_eq!(args.duracion_juegos, Some(vec![25; 5]));
    assert!(!args.debug);
}

#[test]
fn parse_u32_lee_naturales() {
    assert_eq!(Args::parse_u32("1"), Ok(1));
    assert_eq!(Args::parse_u32("+17"), Ok(17));
    assert_eq!(Args::parse_u32("4294967295"), Ok(u32::MAX));
}

#[test]
fn parse_u32_rechaza_el_cero() {
    assert_eq!(Args::parse_u32("0"), Err("'0' no es un número natural".to_string()));
    assert_eq!(Args::parse_u32("000"), Err("'0' no es un número natural".to_string()));
    assert_eq!(Args::parse_u32("+0"), Err("'0' no es un número natural".to_string()));
}

#[test]
fn parse_u32_rechaza_lo_que_no_es_un_numero() {
    assert_eq!(Args::parse_u32(""), Err("'' no es un número natural".to_string()));
    assert_eq!(Args::parse_u32("-3"), Err("'-3' no es un número natural".to_string()));
    assert_eq!(Args::parse_u32("doce"), Err("'doce' no es un número natural".to_string()));
    assert_eq!(
        Args::parse_u32("4294967296"),
        Err("'4294967296' no es un número natural".to_string())
    );
}

#[test]
fn parse_array_lee_una_lista() {
    assert_eq!(Args::parse_array("1,2,3"), Ok(vec![1, 2, 3]));
    assert_eq!(Args::parse_array("40"), Ok(vec![40]));
}

#[test]
fn parse_array_se_detiene_en_el_primer_error_de_la_lista() {
    assert_eq!(Args::parse_array("1,x,0"), Err("'x' no es un número natural".to_string()));
    assert_eq!(Args::parse_array("1,0,x"), Err("'0' no es un número natural".to_string()));
    assert_eq!(Args::parse_array("1,"), Err("'' no es un número natural".to_string()));
    assert_eq!(Args::parse_array(""), Err("'' no es un número natural".to_string()));
    assert_eq!(Args::parse_lista(",1"), Err("'' no es un número natural".to_string()));
}

#[test]
fn parse_array_repite_un_valor() {
    assert_eq!(Args::parse_array("3:7"), Ok(vec![7, 7, 7]));
    assert_eq!(Args::parse_array("2:5"), Ok(vec![5, 5]));
    assert_eq!(Args::parse_array("1:1"), Ok(vec![1]));
}

#[test]
fn parse_array_sortea_en_el_rango() {
    let mut distintos_del_minimo = 0;
    for _ in 0..20 {
        let v = Args::parse_array("50:10:13").unwrap();
        assert_eq!(v.len(), 50);
        assert!(v.iter().all(|n| 10 <= *n && *n < 13));
        distintos_del_minimo += v.iter().filter(|n| **n != 10).count();
    }
    assert!(distintos_del_minimo > 0);
    assert_eq!(Args::parse_array("4:8:9"), Ok(vec![8, 8, 8, 8]));
}

#[test]
fn parse_array_rechaza_un_rango_vacio() {
    assert_eq!(Args::parse_array("3:5:5"), Err("Rango inválido (5 >= 5)".to_string()));
    assert_eq!(Args::parse_array("2:5:5"), Err("Rango inválido (5 >= 5)".to_string()));
    assert_eq!(Args::parse_array("1:1:1"), Err("Rango inválido (1 >= 1)".to_string()));
    assert_eq!(
        Args::parse_array("7:4294967295:4294967295"),
        Err("Rango inválido (4294967295 >= 4294967295)".to_string())
    );
    assert_eq!(Args::parse_array("3:5:6"), Ok(vec![5, 5, 5]));
}

#[test]
fn parse_array_rechaza_un_rango_invertido() {
    assert_eq!(Args::parse_array("3:9:2"), Err("Rango inválido (9 > 2)".to_string()));
    assert_eq!(Args::parse_array("3:100:99"), Err("Rango inválido (100 > 99)".to_string()));
}

#[test]
fn parse_array_rechaza_mas_de_tres_partes() {
    assert_eq!(Args::parse_array("1:2:3:4"), Err("Formato inválido".to_string()));
    assert_eq!(Args::parse_array(":::"), Err("Formato inválido".to_string()));
    assert_eq!(Args::parse_array("x:0:0:0:0"), Err("Formato inválido".to_string()));
}

#[test]
fn parse_array_informa_el_primer_numero_malo() {
    assert_eq!(Args::parse_array("0:5"), Err("'0' no es un número natural".to_string()));
    assert_eq!(Args::parse_array("a:b:c"), Err("'a' no es un número natural".to_string()));
    assert_eq!(Args::parse_array("2:b:c"), Err("'b' no es un número natural".to_string()));
    assert_eq!(Args::parse_array("2:3:c"), Err("'c' no es un número natural".to_string()));
    assert_eq!(Args::parse_array("2:"), Err("'' no es un número natural".to_string()));
    assert_eq!(Args::parse_array("1,2:3"), Err("'1,2' no es un número natural".to_string()));
}

#[test]
fn igualar_arrays_completa_con_el_valor_por_defecto() {
    let mut dest: Option<Vec<u32>> = None;
    let r = Args::igualar_arrays(&vec![1, 2, 3], &mut dest, 25, "--a", "--b");
    assert_eq!(r, Ok(vec![25, 25, 25]));
    assert_eq!(dest, None);
}

#[test]
fn igualar_arrays_devuelve_el_destino_si_coincide() {
    let mut dest = Some(vec![7, 8, 9]);
    let r = Args::igualar_arrays(&vec![1, 2, 3], &mut dest, 25, "--a", "--b");
    assert_eq!(r, Ok(vec![7, 8, 9]));
    assert_eq!(dest, None);
}

#[test]
fn igualar_arrays_rechaza_tamanos_distintos() {
    let mut dest = Some(vec![7, 8]);
    let r = Args::igualar_arrays(&vec![1, 2, 3], &mut dest, 25, "--a", "--b");
    assert_eq!(
        r,
        Err("Los parámetros --a y --b deben ser arreglos del mismo tamaño (3 != 2)".to_string())
    );
    assert_eq!(dest, None);
}

#[test]
fn resolver_sin_nada_crea_cinco_juegos() {
    let mut args = vacios();
    assert_eq!(args.resolver(), Ok(()));
    assert_eq!(args.costo_juegos, Some(vec![10; 5]));
    assert_eq!(args.capacidad_juegos, Some(vec![2; 5]));
    assert_eq!(args.duracion_juegos, Some(vec![25; 5]));
    assert_eq!(args.presupuesto_personas, vec![40; 5]);
}

#[test]
fn resolver_completa_a_partir_de_los_costos() {
    let mut args = vacios();
    args.costo_juegos = Some(vec![5, 6, 7]);
    assert_eq!(args.resolver(), Ok(()));
    assert_eq!(args.costo_juegos, Some(vec![5, 6, 7]));
    assert_eq!(args.capacidad_juegos, Some(vec![2, 2, 2]));
    assert_eq!(args.duracion_juegos, Some(vec![25, 25, 25]));
}

#[test]
fn resolver_completa_a_partir_de_las_capacidades() {
    let mut args = vacios();
    args.capacidad_juegos = Some(vec![3, 4]);
    args.duracion_juegos = Some(vec![100, 200]);
    assert_eq!(args.resolver(), Ok(()));
    assert_eq!(args.costo_juegos, Some(vec![10, 10]));
    assert_eq!(args.capacidad_juegos, Some(vec![3, 4]));
    assert_eq!(args.duracion_juegos, Some(vec![100, 200]));
}

#[test]
fn resolver_completa_a_partir_de_las_duraciones() {
    let mut args = vacios();
    args.duracion_juegos = Some(vec![100]);
    assert_eq!(args.resolver(), Ok(()));
    assert_eq!(args.costo_juegos, Some(vec![10]));
    assert_eq!(args.capacidad_juegos, Some(vec![2]));
    assert_eq!(args.duracion_juegos, Some(vec![100]));
}

#[test]
fn resolver_acepta_los_tres_arreglos_del_mismo_tamano() {
    let mut args = vacios();
    args.costo_juegos = Some(vec![1, 2]);
    args.capacidad_juegos = Some(vec![3, 4]);
    args.duracion_juegos = Some(vec![5, 6]);
    assert_eq!(args.resolver(), Ok(()));
    assert_eq!(args.costo_juegos, Some(vec![1, 2]));
    assert_eq!(args.capacidad_juegos, Some(vec![3, 4]));
    assert_eq!(args.duracion_juegos, Some(vec![5, 6]));
}

#[test]
fn resolver_rechaza_costos_y_capacidades_de_distinto_tamano() {
    let mut args = vacios();
    args.costo_juegos = Some(vec![1, 2]);
    args.capacidad_juegos = Some(vec![3]);
    args.duracion_juegos = Some(vec![5, 6, 7]);
    assert_eq!(
        args.resolver(),
        Err("Los parámetros --costo-juegos y --capacidad-juegos deben ser arreglos del mismo tamaño (2 != 1)".to_string())
    );
    assert_eq!(args.costo_juegos, None);
    assert_eq!(args.capacidad_juegos, None);
    assert_eq!(args.duracion_juegos, Some(vec![5, 6, 7]));
}

#[test]
fn resolver_rechaza_costos_y_duraciones_de_distinto_tamano() {
    let mut args = vacios();
    args.costo_juegos = Some(vec![1, 2]);
    args.duracion_juegos = Some(vec![5, 6, 7]);
    assert_eq!(
        args.resolver(),
        Err("Los parámetros --costo-juegos y --duracion-juegos deben ser arreglos del mismo tamaño (2 != 3)".to_string())
    );
    assert_eq!(args.costo_juegos, None);
    assert_eq!(args.capacidad_juegos, None);
    assert_eq!(args.duracion_juegos, None);
}

#[test]
fn resolver_rechaza_capacidades_y_duraciones_de_distinto_tamano() {
    let mut args = vacios();
    args.capacidad_juegos = Some(vec![1]);
    args.duracion_juegos = Some(vec![5, 6]);
    assert_eq!(
        args.resolver(),
        Err("Los parámetros --capacidad-juegos y --duracion-juegos deben ser arreglos del mismo tamaño (1 != 2)".to_string())
    );
    assert_eq!(args.costo_juegos, None);
    assert_eq!(args.capacidad_juegos, None);
    assert_eq!(args.duracion_juegos, None);
}

#[test]
fn parsers_tiene_los_seis_parametros() {
    assert_eq!(
        Args::parsers(),
        vec![
            ("--personas", Parametro::Personas),
            ("--costo-juegos", Parametro::CostoJuegos),
            ("--capacidad-juegos", Parametro::CapacidadJuegos),
            ("--duracion-juegos", Parametro::DuracionJuegos),
            ("--capacidad", Parametro::Capacidad),
            ("--semilla", Parametro::Semilla),
        ]
    );
}

#[test]
fn buscar_parser_encuentra_por_nombre() {
    assert_eq!(Args::buscar_parser("--semilla"), Some(Parametro::Semilla));
    assert_eq!(Args::buscar_parser("--capacidad"), Some(Parametro::Capacidad));
    assert_eq!(Args::buscar_parser("--capacidad-juegos"), Some(Parametro::CapacidadJuegos));
    assert_eq!(Args::buscar_parser("--juegos"), None);
    assert_eq!(Args::buscar_parser("semilla"), None);
    assert_eq!(Args::buscar_parser(""), None);
}

#[test]
fn cada_parametro_cambia_solo_su_campo() {
    let mut args = vacios();
    assert_eq!(Args::parse_personas(&mut args, "1,2"), Ok(()));
    assert_eq!(Args::parse_costo_juegos(&mut args, "2:3"), Ok(()));
    assert_eq!(Args::parse_capacidad_juegos(&mut args, "4,5"), Ok(()));
    assert_eq!(Args::parse_duracion_juegos(&mut args, "6,7"), Ok(()));
    assert_eq!(Args::parse_capacidad(&mut args, "8"), Ok(()));
    assert_eq!(Args::parse_semilla(&mut args, "9"), Ok(()));
    assert_eq!(args.presupuesto_personas, vec![1, 2]);
    assert_eq!(args.costo_juegos, Some(vec![3, 3]));
    assert_eq!(args.capacidad_juegos, Some(vec![4, 5]));
    assert_eq!(args.duracion_juegos, Some(vec![6, 7]));
    assert_eq!(args.capacidad_parque, 8);
    assert_eq!(args.semilla, 9);
    assert!(!args.debug);
}

#[test]
fn un_valor_malo_no_cambia_los_parametros() {
    let mut args = vacios();
    assert_eq!(
        Args::aplicar(&mut args, Parametro::Personas, "1,x"),
        Err("'x' no es un número natural".to_string())
    );
    assert_eq!(
        Args::aplicar(&mut args, Parametro::Capacidad, "0"),
        Err("'0' no es un número natural".to_string())
    );
    assert_eq!(
        Args::aplicar(&mut args, Parametro::Semilla, "1,2"),
        Err("'1,2' no es un número natural".to_string())
    );
    assert_eq!(args.presupuesto_personas, vec![40; 5]);
    assert_eq!(args.capacidad_parque, 10);
    assert_eq!(args.semilla, 1);
}

#[test]
fn la_linea_de_comando_completa() {
    let args = listo(&[
        "--capacidad=3",
        "--personas=30,15",
        "--costo-juegos=10,20",
        "--capacidad-juegos=1,2",
        "--duracion-juegos=5,6",
        "--semilla=42",
        "-d",
    ]);
    assert_eq!(args.capacidad_parque, 3);
    assert_eq!(args.presupuesto_personas, vec![30, 15]);
    assert_eq!(args.costo_juegos, Some(vec![10, 20]));
    assert_eq!(args.capacidad_juegos, Some(vec![1, 2]));
    assert_eq!(args.duracion_juegos, Some(vec![5, 6]));
    assert_eq!(args.semilla, 42);
    assert!(args.debug);
}

#[test]
fn el_ultimo_valor_de_un_parametro_gana() {
    let args = listo(&["--semilla=1", "--personas=1,2", "--semilla=2", "--personas=3:9"]);
    assert_eq!(args.semilla, 2);
    assert_eq!(args.presupuesto_personas, vec![9, 9, 9]);
}

#[test]
fn la_ayuda_corta_la_lectura() {
    assert!(matches!(leer(&["-h"]), ParseArgsResult::MostrarAyuda));
    assert!(matches!(leer(&["--help"]), ParseArgsResult::MostrarAyuda));
    assert!(matches!(leer(&["--semilla=3", "-h", "--nada"]), ParseArgsResult::MostrarAyuda));
    assert!(matches!(leer(&["--help=si"]), ParseArgsResult::MostrarAyuda));
    assert_eq!(error(&["--nada", "-h"]), "[--nada] Argumento inválido");
}

#[test]
fn debug_se_activa_con_cualquiera_de_sus_nombres() {
    assert!(listo(&["-d"]).debug);
    assert!(listo(&["--debug"]).debug);
    assert!(listo(&["--debug=no"]).debug);
    assert!(!listo(&["--semilla=4"]).debug);
}

#[test]
fn un_argumento_sin_valor_es_invalido() {
    assert_eq!(error(&["--capacidad"]), "[--capacidad] Argumento inválido");
    assert_eq!(error(&["--capacidad=1=2"]), "[--capacidad=1=2] Argumento inválido");
    assert_eq!(error(&[""]), "[] Argumento inválido");
}

#[test]
fn un_parametro_desconocido_es_invalido() {
    assert_eq!(error(&["--juegos=3"]), "[--juegos] Argumento inválido");
    assert_eq!(error(&["=3"]), "[] Argumento inválido");
}

#[test]
fn el_error_de_un_valor_lleva_el_nombre_del_parametro() {
    assert_eq!(error(&["--capacidad=0"]), "[--capacidad] '0' no es un número natural");
    assert_eq!(error(&["--personas=5:9:2"]), "[--personas] Rango inválido (9 > 2)");
    assert_eq!(error(&["--personas=5:9:9"]), "[--personas] Rango inválido (9 >= 9)");
    assert_eq!(error(&["--costo-juegos=1:2:3:4"]), "[--costo-juegos] Formato inválido");
    assert_eq!(error(&["--semilla="]), "[--semilla] '' no es un número natural");
}

#[test]
fn el_primer_error_corta_la_lectura() {
    assert_eq!(
        error(&["--capacidad=x", "--semilla=y"]),
        "[--capacidad] 'x' no es un número natural"
    );
}

#[test]
fn un_presupuesto_vacio_es_un_error_de_configuracion() {
    assert_eq!(
        error(&["--capacidad=1", "--personas=1,"]),
        "[--personas] '' no es un número natural"
    );
    assert_eq!(
        error(&["--capacidad=1", "--personas=0"]),
        "[--personas] '0' no es un número natural"
    );
}

#[test]
fn los_arreglos_de_distinto_tamano_son_un_error_sin_parametro() {
    assert_eq!(
        error(&["--costo-juegos=1,2", "--duracion-juegos=3"]),
        "Los parámetros --costo-juegos y --duracion-juegos deben ser arreglos del mismo tamaño (2 != 1)"
    );
}

#[test]
fn leer_argumentos_parte_de_los_parametros_dados() {
    let mut inicio = vacios();
    inicio.semilla = 77;
    inicio.capacidad_parque = 4;
    match leer_argumentos(inicio, &textos(&["--duracion-juegos=2:9"])) {
        ParseArgsResult::Listo(args) => {
            assert_eq!(args.semilla, 77);
            assert_eq!(args.capacidad_parque, 4);
            assert_eq!(args.costo_juegos, Some(vec![10, 10]));
            assert_eq!(args.capacidad_juegos, Some(vec![2, 2]));
            assert_eq!(args.duracion_juegos, Some(vec![9, 9]));
        }
        _ => panic!("no se leyeron"),
    }
}

#[test]
fn as_str_reproduce_la_linea_de_comando() {
    let mut args = vacios();
    args.semilla = 7;
    assert_eq!(
        args.as_str("parque"),
        "parque --capacidad=10 --personas=40,40,40,40,40 --semilla=7 "
    );
    args.costo_juegos = Some(vec![10, 20]);
    args.capacidad_juegos = Some(vec![1]);
    args.duracion_juegos = Some(vec![]);
    args.debug = true;
    args.presupuesto_personas = vec![];
    assert_eq!(
        args.as_str("./p"),
        "./p --capacidad=10 --personas= --costo-juegos=10,20 --capacidad-juegos=1 --duracion-juegos= --semilla=7 -d"
    );
}

#[test]
fn stringify_array_une_con_comas() {
    assert_eq!(Args::stringify_array("--personas", &vec![1, 2, 3]), "--personas=1,2,3");
    assert_eq!(Args::stringify_array(" x", &vec![]), " x=");
}

#[test]
fn la_semilla_por_defecto_se_sortea() {
    let semillas: Vec<u32> = (0..8).map(|_| Args::default().semilla).collect();
    assert!(semillas.iter().any(|s| *s != semillas[0]));
}

#[test]
fn la_ayuda_nombra_el_ejecutable_y_cada_opcion() {
    let ayuda = mostrar_ayuda("./parque");
    assert!(ayuda.starts_with("Uso: ./parque [--personas=<ARREGLO>] [--costo-juegos=<ARREGLO>]"));
    assert!(ayuda.ends_with("\t --semilla=N: Semilla aleatoria a utilizar.\n"));
    assert_eq!(ayuda.lines().count(), 17);
    for (nombre, _) in Args::parsers() {
        assert!(ayuda.contains(&format!("\t {}=", nombre)), "{}", nombre);
    }
    assert!(ayuda.contains("\t -d|--debug: "));
    assert!(ayuda.contains("\t -h|--help: "));
    assert!(ayuda.contains("\t N:Pm:PM: N valores aleatorios en el rango [Pm,PM), con Pm < PM\n"));
}
