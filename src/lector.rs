//! Lectura de las fuentes CSV del catálogo (con fila de encabezado y columnas
//! en orden fijo) hacia registros tipados.
use vstd::prelude::*;
use crate::errores::ErrorCarga;
use crate::modelo::{vistas, CodigoPostal, Estado, Localidad, Municipio};

verus! {

#[verifier::external_type_specification]
#[verifier::external_body]
pub struct ExCsvError(csv::Error);

/// Filas de `cat_estados.csv` (id_estado, estado), o `None` si no se pueden leer.
pub uninterp spec fn filas_estados_csv(datos: Seq<u8>) -> Option<Seq<(i32, Seq<char>)>>;

/// Filas de `cat_municipios.csv` (id_municipio, municipio, id_estado).
pub uninterp spec fn filas_municipios_csv(datos: Seq<u8>) -> Option<Seq<(i32, Seq<char>, i32)>>;

/// Filas de `cat_codigos_postales.csv` (cp, id_municipio, id_estado).
pub uninterp spec fn filas_cps_csv(datos: Seq<u8>) -> Option<Seq<(i32, i32, i32)>>;

/// Filas de `cat_localidades.csv` (id_localidad, localidad, cp, id_municipio, id_estado).
pub uninterp spec fn filas_localidades_csv(datos: Seq<u8>) -> Option<
    Seq<(i32, Seq<char>, i32, i32, i32)>,
>;

pub open spec fn vista_estados(v: Seq<(i32, String)>) -> Seq<(i32, Seq<char>)> {
    v.map_values(|t: (i32, String)| (t.0, t.1@))
}

pub open spec fn vista_municipios(v: Seq<(i32, String, i32)>) -> Seq<(i32, Seq<char>, i32)> {
    v.map_values(|t: (i32, String, i32)| (t.0, t.1@, t.2))
}

pub open spec fn vista_localidades(v: Seq<(i32, String, i32, i32, i32)>) -> Seq<
    (i32, Seq<char>, i32, i32, i32),
> {
    v.map_values(|t: (i32, String, i32, i32, i32)| (t.0, t.1@, t.2, t.3, t.4))
}

/// Se apoya en csv::Reader::deserialize: los registros que siguen a la fila de
/// encabezado, cada uno leído por posición; el resultado depende sólo de los bytes.
#[verifier::external_body]
fn deserializar_estados(datos: &[u8]) -> (r: Result<Vec<(i32, String)>, csv::Error>)
    ensures
        r is Ok ==> filas_estados_csv(datos@) == Some(vista_estados(r->Ok_0@)),
        r is Err ==> filas_estados_csv(datos@) is None,
{
    csv::Reader::from_reader(datos).deserialize().collect()
}

/// Se apoya en csv::Reader::deserialize, como para el archivo de estados.
#[verifier::external_body]
fn deserializar_municipios(datos: &[u8]) -> (r: Result<Vec<(i32, String, i32)>, csv::Error>)
    ensures
        r is Ok ==> filas_municipios_csv(datos@) == Some(vista_municipios(r->Ok_0@)),
        r is Err ==> filas_municipios_csv(datos@) is None,
{
    csv::Reader::from_reader(datos).deserialize().collect()
}

/// Se apoya en csv::Reader::deserialize, como para el archivo de estados.
#[verifier::external_body]
fn deserializar_cps(datos: &[u8]) -> (r: Result<Vec<(i32, i32, i32)>, csv::Error>)
    ensures
        r is Ok ==> filas_cps_csv(datos@) == Some(r->Ok_0@),
        r is Err ==> filas_cps_csv(datos@) is None,
{
    csv::Reader::from_reader(datos).deserialize().collect()
}

/// Se apoya en csv::Reader::deserialize, como para el archivo de estados.
#[verifier::external_body]
fn deserializar_localidades(datos: &[u8]) -> (r: Result<
    Vec<(i32, String, i32, i32, i32)>,
    csv::Error,
>)
    ensures
        r is Ok ==> filas_localidades_csv(datos@) == Some(vista_localidades(r->Ok_0@)),
        r is Err ==> filas_localidades_csv(datos@) is None,
{
    csv::Reader::from_reader(datos).deserialize().collect()
}

/// Estados de la fuente CSV, en su orden.
pub fn leer_estados(datos: &[u8]) -> (r: Result<Vec<Estado>, ErrorCarga>)
    ensures
        filas_estados_csv(datos@) is None ==> r == Err::<Vec<Estado>, ErrorCarga>(
            ErrorCarga::Lectura,
        ),
        filas_estados_csv(datos@) is Some ==> r is Ok && vistas(r->Ok_0@) == filas_estados_csv(datos@)->0,
{
    let filas = match deserializar_estados(datos) {
        Ok(f) => f,
        Err(_) => return Err(ErrorCarga::Lectura),
    };
    let ghost f = vista_estados(filas@);
    let mut r: Vec<Estado> = Vec::new();
    let mut i: usize = 0;
    while i < filas.len()
        invariant
            i <= filas@.len(),
            f == vista_estados(filas@),
            r@.len() == i,
            forall|k: int| 0 <= k < i ==> (#[trigger] r@[k])@ == f[k],
        decreases filas@.len() - i,
    {
        r.push(Estado { id: filas[i].0, estado: filas[i].1.clone() });
        i = i + 1;
    }
    assert(vistas(r@) =~= f);
    Ok(r)
}

/// Municipios de la fuente CSV, en su orden.
pub fn leer_municipios(datos: &[u8]) -> (r: Result<Vec<Municipio>, ErrorCarga>)
    ensures
        filas_municipios_csv(datos@) is None ==> r == Err::<Vec<Municipio>, ErrorCarga>(
            ErrorCarga::Lectura,
        ),
        filas_municipios_csv(datos@) is Some ==> r is Ok && vistas(r->Ok_0@) == filas_municipios_csv(datos@)->0,
{
    let filas = match deserializar_municipios(datos) {
        Ok(f) => f,
        Err(_) => return Err(ErrorCarga::Lectura),
    };
    let ghost f = vista_municipios(filas@);
    let mut r: Vec<Municipio> = Vec::new();
    let mut i: usize = 0;
    while i < filas.len()
        invariant
            i <= filas@.len(),
            f == vista_municipios(filas@),
            r@.len() == i,
            forall|k: int| 0 <= k < i ==> (#[trigger] r@[k])@ == f[k],
        decreases filas@.len() - i,
    {
        r.push(
            Municipio { id: filas[i].0, municipio: filas[i].1.clone(), id_estado: filas[i].2 },
        );
        i = i + 1;
    }
    assert(vistas(r@) =~= f);
    Ok(r)
}

/// Códigos postales de la fuente CSV, en su orden.
pub fn leer_cps(datos: &[u8]) -> (r: Result<Vec<CodigoPostal>, ErrorCarga>)
    ensures
        filas_cps_csv(datos@) is None ==> r == Err::<Vec<CodigoPostal>, ErrorCarga>(
            ErrorCarga::Lectura,
        ),
        filas_cps_csv(datos@) is Some ==> r is Ok && vistas(r->Ok_0@) == filas_cps_csv(datos@)->0,
{
    let filas = match deserializar_cps(datos) {
        Ok(f) => f,
        Err(_) => return Err(ErrorCarga::Lectura),
    };
    let mut r: Vec<CodigoPostal> = Vec::new();
    let mut i: usize = 0;
    while i < filas.len()
        invariant
            i <= filas@.len(),
            r@.len() == i,
            forall|k: int| 0 <= k < i ==> (#[trigger] r@[k])@ == filas@[k],
        decreases filas@.len() - i,
    {
        let (cp, id_municipio, id_estado) = filas[i];
        r.push(CodigoPostal { codigo_postal: cp, id_municipio, id_estado });
        i = i + 1;
    }
    assert(vistas(r@) =~= filas@);
    Ok(r)
}

/// Localidades de la fuente CSV, en su orden.
pub fn leer_localidades(datos: &[u8]) -> (r: Result<Vec<Localidad>, ErrorCarga>)
    ensures
        filas_localidades_csv(datos@) is None ==> r == Err::<Vec<Localidad>, ErrorCarga>(
            ErrorCarga::Lectura,
        ),
        filas_localidades_csv(datos@) is Some ==> r is Ok && vistas(r->Ok_0@) == filas_localidades_csv(datos@)->0,
{
    let filas = match deserializar_localidades(datos) {
        Ok(f) => f,
        Err(_) => return Err(ErrorCarga::Lectura),
    };
    let ghost f = vista_localidades(filas@);
    let mut r: Vec<Localidad> = Vec::new();
    let mut i: usize = 0;
    while i < filas.len()
        invariant
            i <= filas@.len(),
            f == vista_localidades(filas@),
            r@.len() == i,
            forall|k: int| 0 <= k < i ==> (#[trigger] r@[k])@ == f[k],
        decreases filas@.len() - i,
    {
        let fila = &filas[i];
        r.push(
            Localidad {
                id: fila.0,
                localidad: fila.1.clone(),
                codigo_postal: fila.2,
                id_municipio: fila.3,
                id_estado: fila.4,
            },
        );
        i = i + 1;
    }
    assert(vistas(r@) =~= f);
    Ok(r)
}

} // verus!
