//! Propiedades de la búsqueda y de la carga, probadas sobre las vistas del catálogo.
use vstd::prelude::*;
use crate::busqueda::{cp_valido, respuesta_de};
use crate::carga::{
    carga_cps, carga_estados, carga_estados_municipios, carga_localidades, carga_municipios,
    falla_cp_desde, falla_localidad_desde, lema_hijas_vacias, lema_prefijo_cps,
    lema_prefijo_localidades,
};
use crate::catalogo::{
    cp_admisible, de_cp, estado_por_id, hay_cp, hay_estado, hay_municipio, localidad_admisible,
    municipio_por_id, primer_estado, primer_municipio, resultado_busqueda, VistaCatalogo,
};
use crate::errores::{ErrorCarga, ErrorCatalogo};
use crate::modelo::{CPResponse, FilaEstado, FilaLocalidad, FilaMunicipio};

verus! {

/// Cada localidad con código `cp` es una fila de la tabla.
proof fn lema_de_cp_filas(s: Seq<FilaLocalidad>, cp: i32)
    ensures
        forall|i: int|
            0 <= i < de_cp(s, cp).len() ==> (#[trigger] de_cp(s, cp)[i]).2 == cp && exists|j: int|
                0 <= j < s.len() && s[j] == de_cp(s, cp)[i],
    decreases s.len(),
{
    if s.len() > 0 {
        lema_de_cp_filas(s.drop_last(), cp);
        let p = de_cp(s.drop_last(), cp);
        assert forall|i: int| 0 <= i < de_cp(s, cp).len() implies (#[trigger] de_cp(s, cp)[i]).2
            == cp && exists|j: int| 0 <= j < s.len() && s[j] == de_cp(s, cp)[i] by {
            if i < p.len() {
                assert(p[i].2 == cp);
                let j = choose|j: int| 0 <= j < s.drop_last().len() && s.drop_last()[j] == p[i];
                assert(de_cp(s, cp)[i] == p[i]);
                assert(s[j] == s.drop_last()[j]);
            } else {
                assert(s[s.len() - 1] == de_cp(s, cp)[i]);
            }
        }
    }
}

/// Si algún estado entre los `n` primeros tiene clave `id`, hay una primera fila con ella.
proof fn lema_primer_estado(s: Seq<FilaEstado>, id: i32, n: int)
    requires
        0 <= n <= s.len(),
        hay_estado(s, n, id),
    ensures
        exists|k: int| primer_estado(s, id, k),
    decreases n,
{
    if hay_estado(s, n - 1, id) {
        lema_primer_estado(s, id, n - 1);
    } else {
        assert(primer_estado(s, id, n - 1));
    }
}

proof fn lema_primer_municipio(s: Seq<FilaMunicipio>, id: i32, n: int)
    requires
        0 <= n <= s.len(),
        hay_municipio(s, n, id),
    ensures
        exists|k: int| primer_municipio(s, id, k),
    decreases n,
{
    if hay_municipio(s, n - 1, id) {
        lema_primer_municipio(s, id, n - 1);
    } else {
        assert(primer_municipio(s, id, n - 1));
    }
}

/// En un catálogo bien formado, buscar un código válido que tiene localidades
/// responde con todas ellas, y con el estado y el municipio que referencia la
/// primera de ellas.
pub proof fn ley_busqueda_con_localidades(
    c: VistaCatalogo,
    cp: i32,
    r: Result<CPResponse, ErrorCatalogo>,
)
    requires
        c.bien_formado(),
        cp_valido(cp),
        de_cp(c.localidades, cp).len() > 0,
        resultado_busqueda(c, cp, r),
    ensures
        r is Ok,
        r->Ok_0.localidades@.len() == de_cp(c.localidades, cp).len(),
        ({
            let l = de_cp(c.localidades, cp)[0];
            &&& estado_por_id(c.estados, l.4) is Some
            &&& municipio_por_id(c.municipios, l.3) is Some
            &&& respuesta_de(
                r->Ok_0,
                estado_por_id(c.estados, l.4)->0,
                municipio_por_id(c.municipios, l.3)->0,
                de_cp(c.localidades, cp),
            )
        }),
{
    let filas = de_cp(c.localidades, cp);
    lema_de_cp_filas(c.localidades, cp);
    assert(filas[0].2 == cp);
    let j = choose|j: int| 0 <= j < c.localidades.len() && c.localidades[j] == filas[0];
    assert(localidad_admisible(c.estados, c.municipios, c.cps, c.localidades, j));
    lema_primer_estado(c.estados, filas[0].4, c.estados.len() as int);
    lema_primer_municipio(c.municipios, filas[0].3, c.municipios.len() as int);
}

/// Toda referencia apunta a una fila existente: el estado de cada municipio;
/// el municipio y el estado de cada código postal; el código postal, el
/// municipio y el estado de cada localidad.
pub open spec fn referencias_resueltas(c: VistaCatalogo) -> bool {
    &&& forall|i: int|
        0 <= i < c.municipios.len() ==> hay_estado(
            c.estados,
            c.estados.len() as int,
            (#[trigger] c.municipios[i]).2,
        )
    &&& forall|i: int|
        0 <= i < c.cps.len() ==> hay_municipio(
            c.municipios,
            c.municipios.len() as int,
            (#[trigger] c.cps[i]).1,
        ) && hay_estado(c.estados, c.estados.len() as int, c.cps[i].2)
    &&& forall|i: int|
        0 <= i < c.localidades.len() ==> hay_cp(
            c.cps,
            c.cps.len() as int,
            (#[trigger] c.localidades[i]).2,
        ) && hay_municipio(c.municipios, c.municipios.len() as int, c.localidades[i].3)
            && hay_estado(c.estados, c.estados.len() as int, c.localidades[i].4)
}

/// En un catálogo bien formado toda referencia apunta a una fila existente.
pub proof fn ley_integridad_referencial(c: VistaCatalogo)
    requires
        c.bien_formado(),
    ensures
        referencias_resueltas(c),
{
    assert forall|i: int| 0 <= i < c.municipios.len() implies hay_estado(
        c.estados,
        c.estados.len() as int,
        (#[trigger] c.municipios[i]).2,
    ) by {
        assert(crate::catalogo::municipio_admisible(c.estados, c.municipios, i));
    }
    assert forall|i: int| 0 <= i < c.cps.len() implies hay_municipio(
        c.municipios,
        c.municipios.len() as int,
        (#[trigger] c.cps[i]).1,
    ) && hay_estado(c.estados, c.estados.len() as int, c.cps[i].2) by {
        assert(cp_admisible(c.estados, c.municipios, c.cps, i));
    }
    assert forall|i: int| 0 <= i < c.localidades.len() implies hay_cp(
        c.cps,
        c.cps.len() as int,
        (#[trigger] c.localidades[i]).2,
    ) && hay_municipio(c.municipios, c.municipios.len() as int, c.localidades[i].3) && hay_estado(
        c.estados,
        c.estados.len() as int,
        c.localidades[i].4,
    ) by {
        assert(localidad_admisible(c.estados, c.municipios, c.cps, c.localidades, i));
    }
}

/// La carga completa, en el orden de las dependencias; el primer fallo la detiene.
pub open spec fn siembra(
    v: VistaCatalogo,
    datos_estados: Seq<u8>,
    datos_municipios: Seq<u8>,
    datos_cps: Seq<u8>,
    datos_localidades: Seq<u8>,
) -> (VistaCatalogo, Result<(), ErrorCarga>) {
    let (v1, r1) = carga_estados_municipios(v, datos_estados, datos_municipios);
    if r1 is Err {
        (v1, r1)
    } else {
        let (v2, r2) = carga_cps(v1, datos_cps);
        if r2 is Err {
            (v2, r2)
        } else {
            carga_localidades(v2, datos_localidades)
        }
    }
}

proof fn lema_falla_cp(
    e: Seq<FilaEstado>,
    m: Seq<FilaMunicipio>,
    f: Seq<crate::modelo::FilaCp>,
    i: int,
)
    requires
        0 <= i <= f.len(),
    ensures
        i <= falla_cp_desde(e, m, f, i) <= f.len(),
        forall|j: int| i <= j < falla_cp_desde(e, m, f, i) ==> #[trigger] cp_admisible(e, m, f, j),
    decreases f.len() - i,
{
    if i < f.len() && cp_admisible(e, m, f, i) {
        lema_falla_cp(e, m, f, i + 1);
    }
}

proof fn lema_falla_localidad(
    e: Seq<FilaEstado>,
    m: Seq<FilaMunicipio>,
    c: Seq<crate::modelo::FilaCp>,
    f: Seq<FilaLocalidad>,
    i: int,
)
    requires
        0 <= i <= f.len(),
    ensures
        i <= falla_localidad_desde(e, m, c, f, i) <= f.len(),
        forall|j: int|
            i <= j < falla_localidad_desde(e, m, c, f, i) ==> #[trigger] localidad_admisible(
                e,
                m,
                c,
                f,
                j,
            ),
    decreases f.len() - i,
{
    if i < f.len() && localidad_admisible(e, m, c, f, i) {
        lema_falla_localidad(e, m, c, f, i + 1);
    }
}

/// Cada paso de la carga conserva la buena formación del catálogo.
proof fn lema_siembra_bien_formada(
    v: VistaCatalogo,
    de: Seq<u8>,
    dm: Seq<u8>,
    dc: Seq<u8>,
    dl: Seq<u8>,
)
    requires
        v.bien_formado(),
    ensures
        carga_estados(v, de).0.bien_formado(),
        carga_municipios(v, dm).0.bien_formado(),
        carga_cps(v, dc).0.bien_formado(),
        carga_localidades(v, dl).0.bien_formado(),
{
    lema_hijas_vacias(v);
    if v.cps.len() == 0 {
        if let Some(f) = crate::lector::filas_cps_csv(dc) {
            lema_falla_cp(v.estados, v.municipios, f, 0);
            let k = falla_cp_desde(v.estados, v.municipios, f, 0);
            if k >= f.len() {
                lema_prefijo_cps(v.estados, v.municipios, f, f.len() as int);
                assert(f.take(f.len() as int) =~= f);
            } else {
                lema_prefijo_cps(v.estados, v.municipios, f, crate::carga::lotes_guardados(k));
            }
        }
    }
    if v.localidades.len() == 0 {
        if let Some(f) = crate::lector::filas_localidades_csv(dl) {
            lema_falla_localidad(v.estados, v.municipios, v.cps, f, 0);
            let k = falla_localidad_desde(v.estados, v.municipios, v.cps, f, 0);
            if k >= f.len() {
                lema_prefijo_localidades(v.estados, v.municipios, v.cps, f, f.len() as int);
                assert(f.take(f.len() as int) =~= f);
            } else {
                lema_prefijo_localidades(
                    v.estados,
                    v.municipios,
                    v.cps,
                    f,
                    crate::carga::lotes_guardados(k),
                );
            }
        }
    }
}

/// Tras sembrar un catálogo bien formado (por ejemplo, uno vacío), haya
/// terminado bien o no, toda referencia apunta a una fila existente.
pub proof fn ley_siembra_integridad(
    v: VistaCatalogo,
    datos_estados: Seq<u8>,
    datos_municipios: Seq<u8>,
    datos_cps: Seq<u8>,
    datos_localidades: Seq<u8>,
)
    requires
        v.bien_formado(),
    ensures
        siembra(v, datos_estados, datos_municipios, datos_cps, datos_localidades).0.bien_formado(),
        referencias_resueltas(
            siembra(v, datos_estados, datos_municipios, datos_cps, datos_localidades).0,
        ),
{
    let v1 = carga_estados(v, datos_estados).0;
    lema_siembra_bien_formada(v, datos_estados, datos_municipios, datos_cps, datos_localidades);
    lema_siembra_bien_formada(v1, datos_estados, datos_municipios, datos_cps, datos_localidades);
    let v2 = carga_estados_municipios(v, datos_estados, datos_municipios).0;
    lema_siembra_bien_formada(v2, datos_estados, datos_municipios, datos_cps, datos_localidades);
    let v3 = carga_cps(v2, datos_cps).0;
    lema_siembra_bien_formada(v3, datos_estados, datos_municipios, datos_cps, datos_localidades);
    ley_integridad_referencial(
        siembra(v, datos_estados, datos_municipios, datos_cps, datos_localidades).0,
    );
}

/// Repetir la carga de estados no cambia el catálogo.
pub proof fn ley_carga_estados_idempotente(v: VistaCatalogo, datos: Seq<u8>)
    ensures
        carga_estados(carga_estados(v, datos).0, datos).0 == carga_estados(v, datos).0,
{
    let v1 = carga_estados(v, datos).0;
    if v.estados.len() == 0 && v1.estados.len() == 0 {
        if let Some(f) = crate::lector::filas_estados_csv(datos) {
            assert(f =~= v1.estados || !crate::catalogo::estados_validos(f));
        }
    }
}

/// Repetir la carga de municipios no cambia el catálogo.
pub proof fn ley_carga_municipios_idempotente(v: VistaCatalogo, datos: Seq<u8>)
    ensures
        carga_municipios(carga_municipios(v, datos).0, datos).0 == carga_municipios(v, datos).0,
{
    let v1 = carga_municipios(v, datos).0;
    if v.municipios.len() == 0 && v1.municipios.len() == 0 {
        if let Some(f) = crate::lector::filas_municipios_csv(datos) {
            assert(f =~= v1.municipios || !crate::catalogo::municipios_validos(v.estados, f));
        }
    }
}

/// Repetir la carga de códigos postales no cambia el catálogo.
pub proof fn ley_carga_cps_idempotente(v: VistaCatalogo, datos: Seq<u8>)
    ensures
        carga_cps(carga_cps(v, datos).0, datos).0 == carga_cps(v, datos).0,
{
}

/// Repetir la carga de localidades no cambia el catálogo.
pub proof fn ley_carga_localidades_idempotente(v: VistaCatalogo, datos: Seq<u8>)
    ensures
        carga_localidades(carga_localidades(v, datos).0, datos).0 == carga_localidades(
            v,
            datos,
        ).0,
{
}


proof fn lema_estados_estable(v: VistaCatalogo, d: Seq<u8>, u: VistaCatalogo)
    requires
        carga_estados(v, d).1 is Ok,
        u.estados == carga_estados(v, d).0.estados,
    ensures
        carga_estados(u, d) == (u, Ok::<(), ErrorCarga>(())),
{
    if u.estados.len() == 0 {
        assert(crate::lector::filas_estados_csv(d)->0 =~= u.estados);
    }
}

proof fn lema_municipios_estable(v: VistaCatalogo, d: Seq<u8>, u: VistaCatalogo)
    requires
        carga_municipios(v, d).1 is Ok,
        u.municipios == carga_municipios(v, d).0.municipios,
    ensures
        carga_municipios(u, d) == (u, Ok::<(), ErrorCarga>(())),
{
    if u.municipios.len() == 0 {
        assert(crate::lector::filas_municipios_csv(d)->0 =~= u.municipios);
    }
}

proof fn lema_cps_estable(v: VistaCatalogo, d: Seq<u8>, u: VistaCatalogo)
    requires
        carga_cps(v, d).1 is Ok,
        u.cps == carga_cps(v, d).0.cps,
    ensures
        carga_cps(u, d) == (u, Ok::<(), ErrorCarga>(())),
{
    if u.cps.len() == 0 {
        let f = crate::lector::filas_cps_csv(d)->0;
        assert(f =~= u.cps);
        assert(falla_cp_desde(u.estados, u.municipios, f, 0) == 0);
    }
}

proof fn lema_localidades_estable(v: VistaCatalogo, d: Seq<u8>, u: VistaCatalogo)
    requires
        carga_localidades(v, d).1 is Ok,
        u.localidades == carga_localidades(v, d).0.localidades,
    ensures
        carga_localidades(u, d) == (u, Ok::<(), ErrorCarga>(())),
{
    if u.localidades.len() == 0 {
        let f = crate::lector::filas_localidades_csv(d)->0;
        assert(f =~= u.localidades);
        assert(falla_localidad_desde(u.estados, u.municipios, u.cps, f, 0) == 0);
    }
}

/// Sembrar dos veces seguidas deja las tablas como sembrar una vez, cuando la
/// primera siembra terminó bien; la segunda tampoco falla.
pub proof fn ley_siembra_idempotente(
    v: VistaCatalogo,
    datos_estados: Seq<u8>,
    datos_municipios: Seq<u8>,
    datos_cps: Seq<u8>,
    datos_localidades: Seq<u8>,
)
    requires
        siembra(v, datos_estados, datos_municipios, datos_cps, datos_localidades).1 is Ok,
    ensures
        siembra(
            siembra(v, datos_estados, datos_municipios, datos_cps, datos_localidades).0,
            datos_estados,
            datos_municipios,
            datos_cps,
            datos_localidades,
        ) == (
            siembra(v, datos_estados, datos_municipios, datos_cps, datos_localidades).0,
            Ok::<(), ErrorCarga>(()),
        ),
{
    let v1 = carga_estados(v, datos_estados).0;
    let v2 = carga_municipios(v1, datos_municipios).0;
    let v3 = carga_cps(v2, datos_cps).0;
    let w = carga_localidades(v3, datos_localidades).0;
    lema_estados_estable(v, datos_estados, w);
    lema_municipios_estable(v1, datos_municipios, w);
    lema_cps_estable(v2, datos_cps, w);
    lema_localidades_estable(v3, datos_localidades, w);
}

} // verus!
