use catalogos_cp::busqueda::{
    armar_respuesta, primera_localidad, registro, registro_estructura, validar_cp,
    MENSAJE_ESTADOS, MENSAJE_MUNICIPIOS,
};
use catalogos_cp::carga::{lotes, TAMANO_LOTE};
use catalogos_cp::catalogo::Catalogo;
use catalogos_cp::errores::{ErrorCarga, ErrorCatalogo};
use catalogos_cp::jwt::validar_token;
use catalogos_cp::lector::{leer_cps, leer_estados, leer_localidades, leer_municipios};
use catalogos_cp::modelo::{
    CPResponse, CatalogoCombo, CatalogoIdCadena, CodigoPostal, Estado, Localidad, Municipio,
};

const ESTADOS: &str = "id_estado,estado\n9,Querétaro\n";
const MUNICIPIOS: &str = "id_municipio,municipio,id_estado\n22,Querétaro,9\n";
const CPS: &str = "cp,id_municipio,id_estado\n76000,22,9\n";
const LOCALIDADES: &str = "id_localidad,localidad,cp,id_municipio,id_estado\n1,Centro,76000,22,9\n";

fn par(id: i32, value: &str) -> CatalogoIdCadena {
    CatalogoIdCadena { id, value: value.to_string() }
}

fn sembrar(c: &mut Catalogo, e: &str, m: &str, p: &str, l: &str) -> Result<(), ErrorCarga> {
    c.llenar_catalogos_estados_municipios(e.as_bytes(), m.as_bytes())?;
    c.llenar_catalogos_cps(p.as_bytes())?;
    c.llenar_catalogos_localidades(l.as_bytes())
}

fn catalogo_queretaro() -> Catalogo {
    let mut c = Catalogo::new();
    sembrar(&mut c, ESTADOS, MUNICIPIOS, CPS, LOCALIDADES).unwrap();
    c
}

fn conteos(c: &Catalogo) -> (usize, usize, usize, usize) {
    (c.estados.len(), c.municipios.len(), c.codigos_postales.len(), c.localidades.len())
}

#[test]
fn busqueda_queretaro() {
    let c = catalogo_queretaro();
    let r = c.busqueda_cp(76000).unwrap();
    assert_eq!(
        r,
        CPResponse {
            estado: par(9, "Querétaro"),
            municipio: par(22, "Querétaro"),
            localidades: vec![par(1, "Centro")],
        }
    );
}

#[test]
fn busqueda_cp_invalido() {
    let c = catalogo_queretaro();
    let e = c.busqueda_cp(500).unwrap_err();
    assert_eq!(e, ErrorCatalogo::FormatoInvalido);
    assert_eq!(e.mensaje(), "Formato de código postal inválido");
    assert_eq!(e.codigo_http(), 400);
}

#[test]
fn busqueda_catalogo_vacio() {
    let c = Catalogo::new();
    let e = c.busqueda_cp(76000).unwrap_err();
    assert_eq!(e, ErrorCatalogo::NoEncontrado);
    assert_eq!(e.mensaje(), "Código postal no encontrado");
    assert_eq!(e.codigo_http(), 404);
}

#[test]
fn limites_del_rango() {
    assert!(validar_cp(999).is_err());
    assert!(validar_cp(1000).is_ok());
    assert!(validar_cp(99999).is_ok());
    assert!(validar_cp(100000).is_err());
    assert!(validar_cp(-76000).is_err());
    let c = catalogo_queretaro();
    assert_eq!(c.busqueda_cp(100000).unwrap_err(), ErrorCatalogo::FormatoInvalido);
    assert_eq!(c.busqueda_cp(1000).unwrap_err(), ErrorCatalogo::NoEncontrado);
    assert_eq!(c.busqueda_cp(99999).unwrap_err(), ErrorCatalogo::NoEncontrado);
}

#[test]
fn cp_con_cero_inicial() {
    let mut c = Catalogo::new();
    sembrar(
        &mut c,
        "id_estado,estado\n9,Ciudad de México\n",
        "id_municipio,municipio,id_estado\n10,Álvaro Obregón,9\n",
        "cp,id_municipio,id_estado\n01000,10,9\n",
        "id_localidad,localidad,cp,id_municipio,id_estado\n5,San Ángel,01000,10,9\n",
    )
    .unwrap();
    let r = c.busqueda_cp(1000).unwrap();
    assert_eq!(r.localidades, vec![par(5, "San Ángel")]);
    assert_eq!(r.municipio, par(10, "Álvaro Obregón"));
}

#[test]
fn varias_localidades_en_orden_de_la_tabla() {
    let mut c = Catalogo::new();
    let l = "id_localidad,localidad,cp,id_municipio,id_estado\n\
             3,Centro,76000,22,9\n4,Otra,76010,22,9\n1,Alameda,76000,22,9\n";
    let p = "cp,id_municipio,id_estado\n76000,22,9\n76010,22,9\n";
    sembrar(&mut c, ESTADOS, MUNICIPIOS, p, l).unwrap();
    let r = c.busqueda_cp(76000).unwrap();
    assert_eq!(r.localidades, vec![par(3, "Centro"), par(1, "Alameda")]);
    assert_eq!(c.busqueda_cp(76010).unwrap().localidades.len(), 1);
}

#[test]
fn carga_idempotente() {
    let mut c = catalogo_queretaro();
    let una = conteos(&c);
    sembrar(&mut c, ESTADOS, MUNICIPIOS, CPS, LOCALIDADES).unwrap();
    assert_eq!(conteos(&c), una);
    assert_eq!(una, (1, 1, 1, 1));
}

#[test]
fn tabla_llena_no_se_vuelve_a_leer() {
    let mut c = catalogo_queretaro();
    assert_eq!(c.llenar_catalogos_cps(b"no es csv\n\"roto"), Ok(()));
    assert_eq!(c.codigos_postales.len(), 1);
}

#[test]
fn referencia_inexistente_se_rechaza() {
    let mut c = Catalogo::new();
    let r = c.llenar_catalogos_estados_municipios(
        ESTADOS.as_bytes(),
        "id_municipio,municipio,id_estado\n22,Querétaro,8\n".as_bytes(),
    );
    assert_eq!(r, Err(ErrorCarga::Insercion));
    assert_eq!(conteos(&c), (1, 0, 0, 0));
}

#[test]
fn clave_repetida_se_rechaza() {
    let mut c = Catalogo::new();
    let r = c.cargar_estados("id_estado,estado\n9,Querétaro\n9,Otro\n".as_bytes());
    assert_eq!(r, Err(ErrorCarga::Insercion));
    assert_eq!(c.estados.len(), 0);
}

#[test]
fn largo_de_nombres() {
    let cincuenta = "é".repeat(50);
    let mut c = Catalogo::new();
    let datos = format!("id_estado,estado\n1,{}\n", cincuenta);
    assert_eq!(c.cargar_estados(datos.as_bytes()), Ok(()));
    let mut d = Catalogo::new();
    let datos = format!("id_estado,estado\n1,{}x\n", cincuenta);
    assert_eq!(d.cargar_estados(datos.as_bytes()), Err(ErrorCarga::Insercion));
}

#[test]
fn fila_mal_formada_aborta() {
    let mut c = Catalogo::new();
    let r = c.cargar_estados("id_estado,estado\nnueve,Querétaro\n".as_bytes());
    assert_eq!(r, Err(ErrorCarga::Lectura));
    assert_eq!(c.estados.len(), 0);
    assert_eq!(leer_cps(b"cp,id_municipio,id_estado\n76000,22\n"), Err(ErrorCarga::Lectura));
}

#[test]
fn un_fallo_de_estados_detiene_municipios() {
    let mut c = Catalogo::new();
    let r = c.llenar_catalogos_estados_municipios(b"id_estado,estado\nx,y\n", MUNICIPIOS.as_bytes());
    assert_eq!(r, Err(ErrorCarga::Lectura));
    assert_eq!(conteos(&c), (0, 0, 0, 0));
}

#[test]
fn lectores_de_csv() {
    assert_eq!(
        leer_estados(ESTADOS.as_bytes()).unwrap(),
        vec![Estado { id: 9, estado: "Querétaro".to_string() }]
    );
    assert_eq!(
        leer_municipios(MUNICIPIOS.as_bytes()).unwrap(),
        vec![Municipio { id: 22, municipio: "Querétaro".to_string(), id_estado: 9 }]
    );
    assert_eq!(
        leer_cps(CPS.as_bytes()).unwrap(),
        vec![CodigoPostal { codigo_postal: 76000, id_municipio: 22, id_estado: 9 }]
    );
    assert_eq!(
        leer_localidades(LOCALIDADES.as_bytes()).unwrap(),
        vec![Localidad {
            id: 1,
            localidad: "Centro".to_string(),
            codigo_postal: 76000,
            id_municipio: 22,
            id_estado: 9,
        }]
    );
    assert_eq!(leer_estados(b"id_estado,estado\n").unwrap(), vec![]);
}

#[test]
fn lotes_de_cinco_mil() {
    assert_eq!(TAMANO_LOTE, 5000);
    assert_eq!(lotes(0), vec![]);
    assert_eq!(lotes(1), vec![(0, 1)]);
    assert_eq!(lotes(5000), vec![(0, 5000)]);
    assert_eq!(lotes(5001), vec![(0, 5000), (5000, 5001)]);
    assert_eq!(lotes(12001), vec![(0, 5000), (5000, 10000), (10000, 12001)]);
}

fn cps_csv(n: i32, mala: Option<i32>) -> String {
    let mut s = String::from("cp,id_municipio,id_estado\n");
    for i in 0..n {
        let municipio = if Some(i) == mala { 23 } else { 22 };
        s.push_str(&format!("{},{},9\n", 10000 + i, municipio));
    }
    s
}

#[test]
fn fallo_en_un_lote_conserva_los_anteriores() {
    let mut c = Catalogo::new();
    c.llenar_catalogos_estados_municipios(ESTADOS.as_bytes(), MUNICIPIOS.as_bytes()).unwrap();
    let datos = cps_csv(6000, Some(5500));
    assert_eq!(c.llenar_catalogos_cps(datos.as_bytes()), Err(ErrorCarga::Insercion));
    assert_eq!(c.codigos_postales.len(), 5000);
    // La segunda carga ve la tabla con filas y no hace nada.
    assert_eq!(c.llenar_catalogos_cps(datos.as_bytes()), Ok(()));
    assert_eq!(c.codigos_postales.len(), 5000);
}

#[test]
fn fallo_en_el_primer_lote_no_guarda_nada() {
    let mut c = Catalogo::new();
    c.llenar_catalogos_estados_municipios(ESTADOS.as_bytes(), MUNICIPIOS.as_bytes()).unwrap();
    let datos = cps_csv(6000, Some(4999));
    assert_eq!(c.llenar_catalogos_cps(datos.as_bytes()), Err(ErrorCarga::Insercion));
    assert_eq!(c.codigos_postales.len(), 0);
    assert_eq!(c.llenar_catalogos_cps(cps_csv(6000, None).as_bytes()), Ok(()));
    assert_eq!(c.codigos_postales.len(), 6000);
}

#[test]
fn catalogo_inconsistente_es_error_interno() {
    let mut c = Catalogo::new();
    c.localidades.push(Localidad {
        id: 1,
        localidad: "Centro".to_string(),
        codigo_postal: 76000,
        id_municipio: 22,
        id_estado: 9,
    });
    let e = c.busqueda_cp(76000).unwrap_err();
    assert_eq!(e, ErrorCatalogo::Integridad(MENSAJE_ESTADOS.to_string()));
    assert_eq!(e.codigo_http(), 500);
    c.estados.push(Estado { id: 9, estado: "Querétaro".to_string() });
    let e = c.busqueda_cp(76000).unwrap_err();
    assert_eq!(e, ErrorCatalogo::Integridad(MENSAJE_MUNICIPIOS.to_string()));
    assert_eq!(e.mensaje(), MENSAJE_MUNICIPIOS);
}

#[test]
fn pasos_de_la_busqueda() {
    let filas = vec![
        Localidad { id: 7, localidad: "A".to_string(), codigo_postal: 5000, id_municipio: 3, id_estado: 2 },
        Localidad { id: 8, localidad: "B".to_string(), codigo_postal: 5000, id_municipio: 3, id_estado: 2 },
    ];
    assert_eq!(primera_localidad(&filas), Ok((2, 3)));
    assert_eq!(primera_localidad(&vec![]), Err(ErrorCatalogo::NoEncontrado));
    let e = Estado { id: 2, estado: "E".to_string() };
    let m = Municipio { id: 3, municipio: "M".to_string(), id_estado: 2 };
    assert_eq!(e.to_id_value(), par(2, "E"));
    assert_eq!(m.to_id_value(), par(3, "M"));
    let r = armar_respuesta(&filas, Some(&e), Some(&m)).unwrap();
    assert_eq!(r.localidades, vec![par(7, "A"), par(8, "B")]);
    assert_eq!(
        armar_respuesta(&filas, None, Some(&m)),
        Err(ErrorCatalogo::Integridad(MENSAJE_ESTADOS.to_string()))
    );
    assert_eq!(registro(Some(5), "x"), Ok(5));
    assert_eq!(registro::<i32>(None, "falta"), Err(ErrorCatalogo::Integridad("falta".to_string())));
    assert_eq!(registro_estructura(Some(&e), "x"), Ok(par(2, "E")));
    assert_eq!(
        registro_estructura::<Municipio>(None, "falta"),
        Err(ErrorCatalogo::Integridad("falta".to_string()))
    );
}

#[test]
fn error_de_almacen() {
    let e = ErrorCatalogo::Almacen("conexión perdida".to_string());
    assert_eq!(e.codigo_http(), 500);
    assert_eq!(e.mensaje(), "conexión perdida");
}

#[test]
fn token_no_vacio() {
    assert!(validar_token("abc.def.ghi".to_string()).is_ok());
    assert!(validar_token("  abc ".to_string()).is_ok());
    assert!(validar_token("".to_string()).is_err());
    assert!(validar_token("   \t\n".to_string()).is_err());
}
