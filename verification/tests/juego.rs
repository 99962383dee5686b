use parque::juego::crear_juegos;
use parque::juego::repartir_permisos;
use parque::juego::Accion;
use parque::juego::Juego;
use parque::juego::Salida;
use parque::juego::Suceso;
use parque::juego::TIEMPO_DE_ESPERA_DE_PERSONAS;
use parque::juego::TIEMPO_MAXIMO_ARREGLO_DESPERFECTO;
use parque::persona::Persona;
use std_semaphore::Semaphore;

#[test]
fn un_juego_nuevo_esta_vacio_y_abierto() {
    let juego = Juego::new(4, 10, 3, 25, 9);
    assert_eq!(juego.id(), 4);
    assert_eq!(juego.precio(), 10);
    assert_eq!(juego.capacidad(), 3);
    assert_eq!(juego.duracion_ms(), 25);
    assert_eq!(juego.espacio_libre(), 3);
    assert_eq!(juego.obtener_desperfectos(), 0);
    assert!(!juego.esta_cerrado());
}

#[test]
fn ocupar_lugar_avisa_solo_al_llenarse() {
    let mut juego = Juego::new(0, 10, 3, 25, 9);
    assert!(!juego.ocupar_lugar());
    assert_eq!(juego.espacio_libre(), 2);
    assert!(!juego.ocupar_lugar());
    assert!(juego.ocupar_lugar());
    assert_eq!(juego.espacio_libre(), 0);
}

#[test]
fn decidir_vuelta_con_el_juego_lleno() {
    let mut juego = Juego::new(0, 10, 2, 25, 9);
    juego.ocupar_lugar();
    juego.ocupar_lugar();
    assert_eq!(juego.decidir_vuelta(false), Some(2));
    assert_eq!(juego.decidir_vuelta(true), Some(2));
}

#[test]
fn decidir_vuelta_con_tiempo_agotado_y_alguien_sentado() {
    let mut juego = Juego::new(0, 10, 3, 25, 9);
    juego.ocupar_lugar();
    assert_eq!(juego.decidir_vuelta(true), Some(1));
}

#[test]
fn decidir_vuelta_con_tiempo_agotado_y_nadie_sentado() {
    let juego = Juego::new(0, 10, 3, 25, 9);
    assert_eq!(juego.decidir_vuelta(true), None);
}

#[test]
fn decidir_vuelta_ignora_un_despertar_sin_motivo() {
    let mut juego = Juego::new(0, 10, 3, 25, 9);
    assert_eq!(juego.decidir_vuelta(false), None);
    juego.ocupar_lugar();
    assert_eq!(juego.decidir_vuelta(false), None);
}

#[test]
fn terminar_vuelta_reparte_un_permiso_por_persona() {
    let juego = Juego::new(0, 10, 5, 25, 9);
    assert_eq!(juego.terminar_vuelta(3), Salida { participantes: 4, permisos: 3 });
    assert_eq!(juego.terminar_vuelta(0), Salida { participantes: 1, permisos: 0 });
    assert_eq!(
        juego.terminar_vuelta(u32::MAX),
        Salida { participantes: 4294967296, permisos: u32::MAX }
    );
}

#[test]
fn liberar_lugares_vacia_el_juego() {
    let mut juego = Juego::new(0, 10, 3, 25, 9);
    juego.ocupar_lugar();
    juego.ocupar_lugar();
    juego.liberar_lugares();
    assert_eq!(juego.espacio_libre(), 3);
}

#[test]
fn registrar_desperfecto_cuenta_y_no_toca_los_lugares() {
    let mut juego = Juego::new(0, 10, 3, 25, 9);
    juego.ocupar_lugar();
    for n in 1..=200u32 {
        let ms = juego.registrar_desperfecto();
        assert!(ms < TIEMPO_MAXIMO_ARREGLO_DESPERFECTO);
        assert_eq!(juego.obtener_desperfectos(), n);
        assert_eq!(juego.espacio_libre(), 2);
    }
}

#[test]
fn los_tiempos_del_juego() {
    assert_eq!(TIEMPO_MAXIMO_ARREGLO_DESPERFECTO, 25);
    assert_eq!(TIEMPO_DE_ESPERA_DE_PERSONAS, 5000);
}

#[test]
fn el_ciclo_empieza_sorteando() {
    let mut juego = Juego::new(0, 10, 2, 25, 9);
    assert_eq!(juego.iniciar_funcionamiento(), Accion::Sortear);
    juego.cerrar();
    assert!(juego.esta_cerrado());
    assert_eq!(juego.iniciar_funcionamiento(), Accion::Terminar);
}

#[test]
fn un_desperfecto_se_anota_y_se_arregla() {
    let mut juego = Juego::new(0, 10, 2, 25, 9);
    match juego.avanzar(Suceso::Sorteo { desperfecto: true }) {
        Accion::Arreglar { ms } => assert!(ms < 25),
        otra => panic!("{:?}", otra),
    }
    assert_eq!(juego.obtener_desperfectos(), 1);
    assert_eq!(juego.espacio_libre(), 2);
    assert_eq!(juego.avanzar(Suceso::Arreglado), Accion::Sortear);
}

#[test]
fn sin_desperfecto_se_espera_gente() {
    let mut juego = Juego::new(0, 10, 2, 25, 9);
    assert_eq!(
        juego.avanzar(Suceso::Sorteo { desperfecto: false }),
        Accion::EsperarPersonas { ms: 5000 }
    );
    assert_eq!(juego.obtener_desperfectos(), 0);
}

#[test]
fn una_vuelta_completa_con_el_juego_lleno() {
    let mut juego = Juego::new(0, 10, 2, 5, 9);
    assert!(!juego.ocupar_lugar());
    assert!(juego.ocupar_lugar());
    assert_eq!(
        juego.avanzar(Suceso::FinDeEspera { tiempo_agotado: false }),
        Accion::DarVuelta { personas: 2, duracion_ms: 5 }
    );
    assert_eq!(
        juego.avanzar(Suceso::FinDeVuelta),
        Accion::Desalojar { salida: Salida { participantes: 3, permisos: 2 } }
    );
    assert_eq!(juego.espacio_libre(), 0);
    assert_eq!(juego.avanzar(Suceso::SalieronTodos), Accion::Sortear);
    assert_eq!(juego.espacio_libre(), 2);
}

#[test]
fn nadie_se_sienta_con_la_vuelta_en_curso() {
    let mut juego = Juego::new(0, 10, 3, 5, 9);
    assert!(juego.admite());
    assert!(!juego.ocupar_lugar());
    assert!(juego.admite());
    assert!(!juego.esta_en_vuelta());
    juego.avanzar(Suceso::FinDeEspera { tiempo_agotado: true });
    assert!(juego.esta_en_vuelta());
    assert!(!juego.admite());
    assert_eq!(juego.espacio_libre(), 2);
    juego.avanzar(Suceso::FinDeVuelta);
    assert!(!juego.admite());
    juego.avanzar(Suceso::SalieronTodos);
    assert!(juego.admite());
    assert!(!juego.esta_en_vuelta());
}

#[test]
fn un_juego_lleno_no_admite_a_nadie() {
    let mut juego = Juego::new(0, 10, 1, 5, 9);
    assert!(juego.ocupar_lugar());
    assert!(!juego.admite());
    assert!(!juego.esta_en_vuelta());
    juego.liberar_lugares();
    assert!(juego.admite());
}

#[test]
fn una_espera_sin_vuelta_no_cierra_la_entrada() {
    let mut juego = Juego::new(0, 10, 2, 5, 9);
    juego.avanzar(Suceso::FinDeEspera { tiempo_agotado: true });
    assert!(juego.admite());
    juego.ocupar_lugar();
    juego.avanzar(Suceso::FinDeEspera { tiempo_agotado: false });
    assert!(juego.admite());
    assert!(!juego.esta_en_vuelta());
}

#[test]
fn una_vuelta_parcial_por_tiempo_agotado() {
    let mut juego = Juego::new(0, 10, 2, 5, 9);
    assert!(!juego.ocupar_lugar());
    assert_eq!(
        juego.avanzar(Suceso::FinDeEspera { tiempo_agotado: true }),
        Accion::DarVuelta { personas: 1, duracion_ms: 5 }
    );
    assert_eq!(
        juego.avanzar(Suceso::FinDeVuelta),
        Accion::Desalojar { salida: Salida { participantes: 2, permisos: 1 } }
    );
    assert_eq!(juego.avanzar(Suceso::SalieronTodos), Accion::Sortear);
    assert_eq!(juego.espacio_libre(), 2);
}

#[test]
fn una_espera_sin_nadie_vuelve_a_empezar_el_ciclo() {
    let mut juego = Juego::new(0, 10, 2, 5, 9);
    assert_eq!(juego.avanzar(Suceso::FinDeEspera { tiempo_agotado: true }), Accion::Sortear);
    assert_eq!(juego.avanzar(Suceso::FinDeEspera { tiempo_agotado: false }), Accion::Sortear);
    juego.cerrar();
    assert_eq!(juego.avanzar(Suceso::FinDeEspera { tiempo_agotado: true }), Accion::Terminar);
}

#[test]
fn el_cierre_no_corta_una_vuelta_en_curso() {
    let mut juego = Juego::new(0, 10, 1, 5, 9);
    assert!(juego.ocupar_lugar());
    juego.cerrar();
    assert_eq!(
        juego.avanzar(Suceso::FinDeEspera { tiempo_agotado: false }),
        Accion::DarVuelta { personas: 1, duracion_ms: 5 }
    );
    assert_eq!(
        juego.avanzar(Suceso::FinDeVuelta),
        Accion::Desalojar { salida: Salida { participantes: 2, permisos: 1 } }
    );
    assert_eq!(juego.avanzar(Suceso::SalieronTodos), Accion::Terminar);
    assert_eq!(juego.avanzar(Suceso::Arreglado), Accion::Terminar);
}

#[test]
fn el_generador_del_juego_da_valores_repetibles() {
    let mut uno = Juego::new(0, 10, 1, 5, 77);
    let mut otro = Juego::new(1, 10, 1, 5, 77);
    for _ in 0..20 {
        assert_eq!(uno.registrar_desperfecto(), otro.registrar_desperfecto());
    }
    assert_eq!(uno.espacio_libre(), 1);
    let _ = uno.generador();
    assert_eq!(uno.obtener_desperfectos(), 20);
}

#[test]
fn crear_juegos_numera_los_juegos() {
    let juegos = crear_juegos(&vec![10, 20, 30], &vec![2, 3, 4], &vec![25, 26, 27], 1).unwrap();
    assert_eq!(juegos.len(), 3);
    for (i, juego) in juegos.iter().enumerate() {
        assert_eq!(juego.id(), i);
        assert_eq!(juego.precio(), 10 * (i as u32 + 1));
        assert_eq!(juego.capacidad(), 2 + i as u32);
        assert_eq!(juego.espacio_libre(), 2 + i as u32);
        assert_eq!(juego.duracion_ms(), 25 + i as u32);
        assert_eq!(juego.obtener_desperfectos(), 0);
        assert!(!juego.esta_cerrado());
    }
}

#[test]
fn crear_juegos_llega_hasta_el_arreglo_mas_corto() {
    let juegos = crear_juegos(&vec![10, 20, 30], &vec![2, 3], &vec![25, 26, 27, 28], 1).unwrap();
    assert_eq!(juegos.len(), 2);
    assert!(crear_juegos(&vec![], &vec![2], &vec![25], 1).unwrap().is_empty());
}

#[test]
fn crear_juegos_rechaza_un_juego_sin_lugares() {
    assert!(crear_juegos(&vec![10, 20], &vec![2, 0], &vec![25, 26], 1).is_none());
    assert!(crear_juegos(&vec![10], &vec![2, 0], &vec![25, 26], 1).is_some());
}

#[test]
fn cobrar_entrada_devuelve_lo_cobrado() {
    let juego = Juego::new(0, 15, 2, 5, 9);
    let mut persona = Persona::new(4, 40);
    assert_eq!(juego.cobrar_entrada(&mut persona), 15);
    assert_eq!(persona.presupuesto(), 25);
    assert_eq!(persona.id(), 4);
    assert_eq!(juego.espacio_libre(), 2);
}

#[test]
fn agregar_a_la_fila_da_la_vuelta_y_vacia_el_juego() {
    let mut juego = Juego::new(0, 15, 3, 5, 9);
    assert!(!juego.ocupar_lugar());
    let mut persona = Persona::new(4, 15);
    assert_eq!(juego.agregar_a_la_fila(&mut persona), 15);
    assert_eq!(persona.presupuesto(), 0);
    assert_eq!(juego.espacio_libre(), 3);
    assert!(!juego.esta_en_vuelta());
    assert!(juego.admite());
}

#[test]
fn repartir_permisos_libera_uno_por_persona() {
    let semaforo = Semaphore::new(0);
    let salida = Juego::new(0, 10, 5, 25, 9).terminar_vuelta(3);
    assert_eq!(repartir_permisos(&semaforo, salida), 3);
    semaforo.acquire();
    semaforo.acquire();
    semaforo.acquire();
}

#[test]
fn repartir_permisos_sin_personas_no_libera_nada() {
    let semaforo = Semaphore::new(-1);
    assert_eq!(repartir_permisos(&semaforo, Salida { participantes: 1, permisos: 0 }), 0);
    semaforo.release();
    semaforo.release();
    semaforo.acquire();
}

#[test]
fn cada_suceso_tiene_su_turno() {
    let mut juego = Juego::new(0, 10, 2, 5, 9);
    let sin_vuelta = [
        Suceso::Sorteo { desperfecto: true },
        Suceso::Sorteo { desperfecto: false },
        Suceso::Arreglado,
        Suceso::FinDeEspera { tiempo_agotado: true },
        Suceso::FinDeEspera { tiempo_agotado: false },
    ];
    let con_vuelta = [Suceso::FinDeVuelta, Suceso::SalieronTodos];
    assert!(sin_vuelta.iter().all(|s| juego.en_turno(*s)));
    assert!(con_vuelta.iter().all(|s| !juego.en_turno(*s)));
    juego.ocupar_lugar();
    assert!(con_vuelta.iter().all(|s| !juego.en_turno(*s)));
    juego.avanzar(Suceso::FinDeEspera { tiempo_agotado: true });
    assert!(sin_vuelta.iter().all(|s| !juego.en_turno(*s)));
    assert!(con_vuelta.iter().all(|s| juego.en_turno(*s)));
    juego.avanzar(Suceso::FinDeVuelta);
    assert!(juego.en_turno(Suceso::SalieronTodos));
    juego.avanzar(Suceso::SalieronTodos);
    assert!(sin_vuelta.iter().all(|s| juego.en_turno(*s)));
    assert!(con_vuelta.iter().all(|s| !juego.en_turno(*s)));
}

#[test]
fn cada_semilla_da_sus_propios_sorteos() {
    let sorteos = |semilla: u64| -> Vec<u64> {
        let mut juego = Juego::new(0, 10, 1, 5, semilla);
        (0..40).map(|_| juego.registrar_desperfecto()).collect()
    };
    assert_eq!(sorteos(1), sorteos(1));
    assert_ne!(sorteos(1), sorteos(2));
    assert_ne!(sorteos(0), sorteos(1));
}
