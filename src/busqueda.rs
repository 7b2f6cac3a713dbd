//! Pasos de la búsqueda por código postal: validación, elección de la
//! localidad de referencia y armado de la respuesta.
use vstd::prelude::*;
use crate::errores::ErrorCatalogo;
use crate::modelo::{
    vistas, CPResponse, CatalogoCombo, CatalogoIdCadena, Estado, FilaEstado, FilaLocalidad,
    FilaMunicipio, Localidad, Municipio,
};

verus! {

/// Menor código postal admitido.
pub const CP_MINIMO: i32 = 1000;

/// Mayor código postal admitido.
pub const CP_MAXIMO: i32 = 99999;

/// Mensaje del fallo de integridad cuando falta el estado referenciado.
pub const MENSAJE_ESTADOS: &'static str = "Error en el catalogo de estados en la base de datos";

/// Mensaje del fallo de integridad cuando falta el municipio referenciado.
pub const MENSAJE_MUNICIPIOS: &'static str = "Error en el catalogo de municipios en la base de datos";

pub open spec fn cp_valido(cp: i32) -> bool {
    CP_MINIMO <= cp <= CP_MAXIMO
}

/// El código postal es admisible si está en el rango cerrado [1000, 99999].
pub fn validar_cp(cp: i32) -> (r: Result<(), ErrorCatalogo>)
    ensures
        cp_valido(cp) <==> r is Ok,
        !cp_valido(cp) ==> r == Err::<(), ErrorCatalogo>(ErrorCatalogo::FormatoInvalido),
{
    if cp > CP_MAXIMO || cp < CP_MINIMO {
        Err(ErrorCatalogo::FormatoInvalido)
    } else {
        Ok(())
    }
}

/// Ids de estado y municipio de la primera localidad, o `NoEncontrado` si no hay ninguna.
pub fn primera_localidad(filas: &Vec<Localidad>) -> (r: Result<(i32, i32), ErrorCatalogo>)
    ensures
        filas@.len() == 0 ==> r == Err::<(i32, i32), ErrorCatalogo>(ErrorCatalogo::NoEncontrado),
        filas@.len() > 0 ==> r == Ok::<(i32, i32), ErrorCatalogo>(
            (filas@[0].id_estado, filas@[0].id_municipio),
        ),
{
    if filas.len() == 0 {
        Err(ErrorCatalogo::NoEncontrado)
    } else {
        Ok((filas[0].id_estado, filas[0].id_municipio))
    }
}

/// Un fallo de integridad con este mensaje.
pub open spec fn es_integridad(e: ErrorCatalogo, mensaje: Seq<char>) -> bool {
    &&& e is Integridad
    &&& e->Integridad_0@ == mensaje
}

/// El registro consultado, o un fallo de integridad con `mensaje` si no existe.
pub fn registro<M>(fila: Option<M>, mensaje: &str) -> (r: Result<M, ErrorCatalogo>)
    ensures
        fila is Some ==> r == Ok::<M, ErrorCatalogo>(fila->0),
        fila is None ==> r is Err && es_integridad(r->Err_0, mensaje@),
{
    match fila {
        Some(m) => Ok(m),
        None => Err(ErrorCatalogo::Integridad(mensaje.to_owned())),
    }
}

/// Como [`registro`], reducido al par id / etiqueta.
pub fn registro_estructura<M: CatalogoCombo>(fila: Option<&M>, mensaje: &str) -> (r: Result<
    CatalogoIdCadena,
    ErrorCatalogo,
>)
    ensures
        fila is Some ==> r is Ok && r->Ok_0.es(fila->0.id_combo(), fila->0.valor_combo()),
        fila is None ==> r is Err && es_integridad(r->Err_0, mensaje@),
{
    match registro(fila, mensaje) {
        Ok(m) => Ok(m.to_id_value()),
        Err(e) => Err(e),
    }
}

/// Los pares id / nombre de las localidades, en el mismo orden.
pub open spec fn lista_localidades(l: Seq<CatalogoIdCadena>, filas: Seq<FilaLocalidad>) -> bool {
    &&& l.len() == filas.len()
    &&& forall|i: int| 0 <= i < filas.len() ==> (#[trigger] l[i]).es(filas[i].0, filas[i].1)
}

/// Reduce cada localidad a su par id / nombre, conservando el orden.
pub fn localidades_combo(filas: &Vec<Localidad>) -> (r: Vec<CatalogoIdCadena>)
    ensures
        lista_localidades(r@, vistas(filas@)),
{
    let mut r: Vec<CatalogoIdCadena> = Vec::new();
    let mut i: usize = 0;
    while i < filas.len()
        invariant
            i <= filas@.len(),
            lista_localidades(r@, vistas(filas@).take(i as int)),
        decreases filas@.len() - i,
    {
        let l = &filas[i];
        r.push(CatalogoIdCadena { id: l.id, value: l.localidad.clone() });
        i = i + 1;
    }
    assert(vistas(filas@).take(i as int) =~= vistas(filas@));
    r
}

/// La respuesta que corresponde a este estado, municipio y localidades.
pub open spec fn respuesta_de(
    r: CPResponse,
    estado: FilaEstado,
    municipio: FilaMunicipio,
    filas: Seq<FilaLocalidad>,
) -> bool {
    &&& r.estado.es(estado.0, estado.1)
    &&& r.municipio.es(municipio.0, municipio.1)
    &&& lista_localidades(r.localidades@, filas)
}

/// Arma la respuesta con el estado y el municipio encontrados; si alguno falta,
/// el catálogo es inconsistente y se informa un fallo de integridad.
pub fn armar_respuesta(
    filas: &Vec<Localidad>,
    estado: Option<&Estado>,
    municipio: Option<&Municipio>,
) -> (r: Result<CPResponse, ErrorCatalogo>)
    ensures
        estado is None ==> r is Err && es_integridad(r->Err_0, MENSAJE_ESTADOS@),
        estado is Some && municipio is None ==> r is Err && es_integridad(
            r->Err_0,
            MENSAJE_MUNICIPIOS@,
        ),
        estado is Some && municipio is Some ==> r is Ok && respuesta_de(
            r->Ok_0,
            estado->0@,
            municipio->0@,
            vistas(filas@),
        ),
{
    let estado = match registro_estructura(estado, MENSAJE_ESTADOS) {
        Ok(e) => e,
        Err(e) => return Err(e),
    };
    let municipio = match registro_estructura(municipio, MENSAJE_MUNICIPIOS) {
        Ok(m) => m,
        Err(e) => return Err(e),
    };
    let localidades = localidades_combo(filas);
    Ok(CPResponse { estado, municipio, localidades })
}

} // verus!
