//! Almacén del catálogo: las cuatro tablas, su integridad referencial y la
//! búsqueda por código postal sobre ellas.
use vstd::prelude::*;
use crate::busqueda::{
    armar_respuesta, cp_valido, es_integridad, primera_localidad, respuesta_de, validar_cp,
    MENSAJE_ESTADOS, MENSAJE_MUNICIPIOS,
};
use crate::errores::ErrorCatalogo;
use crate::modelo::{
    vistas, CPResponse, CodigoPostal, Estado, FilaCp, FilaEstado, FilaLocalidad, FilaMunicipio,
    Localidad, Municipio, LONGITUD_NOMBRE, LONGITUD_NOMBRE_LOCALIDAD,
};

verus! {

/// Las cuatro tablas del catálogo.
#[derive(Debug, Clone, PartialEq, Eq)]
pub struct Catalogo {
    pub estados: Vec<Estado>,
    pub municipios: Vec<Municipio>,
    pub codigos_postales: Vec<CodigoPostal>,
    pub localidades: Vec<Localidad>,
}

/// Contenido de las tablas.
pub struct VistaCatalogo {
    pub estados: Seq<FilaEstado>,
    pub municipios: Seq<FilaMunicipio>,
    pub cps: Seq<FilaCp>,
    pub localidades: Seq<FilaLocalidad>,
}

impl View for Catalogo {
    type V = VistaCatalogo;

    open spec fn view(&self) -> VistaCatalogo {
        VistaCatalogo {
            estados: vistas(self.estados@),
            municipios: vistas(self.municipios@),
            cps: vistas(self.codigos_postales@),
            localidades: vistas(self.localidades@),
        }
    }
}

/// Alguna de las primeras `n` filas es el estado `id`.
pub open spec fn hay_estado(s: Seq<FilaEstado>, n: int, id: i32) -> bool {
    exists|k: int| 0 <= k < n && k < s.len() && (#[trigger] s[k]).0 == id
}

pub open spec fn hay_municipio(s: Seq<FilaMunicipio>, n: int, id: i32) -> bool {
    exists|k: int| 0 <= k < n && k < s.len() && (#[trigger] s[k]).0 == id
}

pub open spec fn hay_cp(s: Seq<FilaCp>, n: int, cp: i32) -> bool {
    exists|k: int| 0 <= k < n && k < s.len() && (#[trigger] s[k]).0 == cp
}

pub open spec fn hay_localidad(s: Seq<FilaLocalidad>, n: int, id: i32) -> bool {
    exists|k: int| 0 <= k < n && k < s.len() && (#[trigger] s[k]).0 == id
}

/// La fila `i` de estados tiene clave nueva y nombre de largo admitido.
pub open spec fn estado_admisible(s: Seq<FilaEstado>, i: int) -> bool {
    &&& !hay_estado(s, i, s[i].0)
    &&& s[i].1.len() <= LONGITUD_NOMBRE
}

/// La fila `i` de municipios tiene clave nueva, estado existente y nombre admitido.
pub open spec fn municipio_admisible(e: Seq<FilaEstado>, s: Seq<FilaMunicipio>, i: int) -> bool {
    &&& !hay_municipio(s, i, s[i].0)
    &&& hay_estado(e, e.len() as int, s[i].2)
    &&& s[i].1.len() <= LONGITUD_NOMBRE
}

/// La fila `i` de códigos postales tiene código nuevo y municipio y estado existentes.
pub open spec fn cp_admisible(
    e: Seq<FilaEstado>,
    m: Seq<FilaMunicipio>,
    s: Seq<FilaCp>,
    i: int,
) -> bool {
    &&& !hay_cp(s, i, s[i].0)
    &&& hay_municipio(m, m.len() as int, s[i].1)
    &&& hay_estado(e, e.len() as int, s[i].2)
}

/// La fila `i` de localidades tiene clave nueva, referencias existentes y nombre admitido.
pub open spec fn localidad_admisible(
    e: Seq<FilaEstado>,
    m: Seq<FilaMunicipio>,
    c: Seq<FilaCp>,
    s: Seq<FilaLocalidad>,
    i: int,
) -> bool {
    &&& !hay_localidad(s, i, s[i].0)
    &&& hay_cp(c, c.len() as int, s[i].2)
    &&& hay_municipio(m, m.len() as int, s[i].3)
    &&& hay_estado(e, e.len() as int, s[i].4)
    &&& s[i].1.len() <= LONGITUD_NOMBRE_LOCALIDAD
}

pub open spec fn estados_validos(s: Seq<FilaEstado>) -> bool {
    forall|i: int| 0 <= i < s.len() ==> #[trigger] estado_admisible(s, i)
}

pub open spec fn municipios_validos(e: Seq<FilaEstado>, s: Seq<FilaMunicipio>) -> bool {
    forall|i: int| 0 <= i < s.len() ==> #[trigger] municipio_admisible(e, s, i)
}

pub open spec fn cps_validos(e: Seq<FilaEstado>, m: Seq<FilaMunicipio>, s: Seq<FilaCp>) -> bool {
    forall|i: int| 0 <= i < s.len() ==> #[trigger] cp_admisible(e, m, s, i)
}

pub open spec fn localidades_validas(
    e: Seq<FilaEstado>,
    m: Seq<FilaMunicipio>,
    c: Seq<FilaCp>,
    s: Seq<FilaLocalidad>,
) -> bool {
    forall|i: int| 0 <= i < s.len() ==> #[trigger] localidad_admisible(e, m, c, s, i)
}

impl VistaCatalogo {
    /// Claves únicas, referencias existentes y nombres de largo admitido en las cuatro tablas.
    pub open spec fn bien_formado(&self) -> bool {
        &&& estados_validos(self.estados)
        &&& municipios_validos(self.estados, self.municipios)
        &&& cps_validos(self.estados, self.municipios, self.cps)
        &&& localidades_validas(self.estados, self.municipios, self.cps, self.localidades)
    }
}

/// `k` es la primera fila con la clave `id`.
pub open spec fn primer_estado(s: Seq<FilaEstado>, id: i32, k: int) -> bool {
    0 <= k < s.len() && s[k].0 == id && !hay_estado(s, k, id)
}

pub open spec fn primer_municipio(s: Seq<FilaMunicipio>, id: i32, k: int) -> bool {
    0 <= k < s.len() && s[k].0 == id && !hay_municipio(s, k, id)
}

/// El estado con clave `id`, si existe.
pub open spec fn estado_por_id(s: Seq<FilaEstado>, id: i32) -> Option<FilaEstado> {
    if exists|k: int| primer_estado(s, id, k) {
        Some(s[choose|k: int| primer_estado(s, id, k)])
    } else {
        None
    }
}

/// El municipio con clave `id`, si existe.
pub open spec fn municipio_por_id(s: Seq<FilaMunicipio>, id: i32) -> Option<FilaMunicipio> {
    if exists|k: int| primer_municipio(s, id, k) {
        Some(s[choose|k: int| primer_municipio(s, id, k)])
    } else {
        None
    }
}

/// Las localidades con código postal `cp`, en el orden de la tabla.
pub open spec fn de_cp(s: Seq<FilaLocalidad>, cp: i32) -> Seq<FilaLocalidad>
    decreases s.len(),
{
    if s.len() == 0 {
        Seq::empty()
    } else {
        let previas = de_cp(s.drop_last(), cp);
        if s.last().2 == cp {
            previas.push(s.last())
        } else {
            previas
        }
    }
}

/// Resultado de buscar `cp` en el catálogo `c`.
pub open spec fn resultado_busqueda(
    c: VistaCatalogo,
    cp: i32,
    r: Result<CPResponse, ErrorCatalogo>,
) -> bool {
    let filas = de_cp(c.localidades, cp);
    if !cp_valido(cp) {
        r == Err::<CPResponse, ErrorCatalogo>(ErrorCatalogo::FormatoInvalido)
    } else if filas.len() == 0 {
        r == Err::<CPResponse, ErrorCatalogo>(ErrorCatalogo::NoEncontrado)
    } else {
        let estado = estado_por_id(c.estados, filas[0].4);
        let municipio = municipio_por_id(c.municipios, filas[0].3);
        if estado is None {
            r is Err && es_integridad(r->Err_0, MENSAJE_ESTADOS@)
        } else if municipio is None {
            r is Err && es_integridad(r->Err_0, MENSAJE_MUNICIPIOS@)
        } else {
            r is Ok && respuesta_de(r->Ok_0, estado->0, municipio->0, filas)
        }
    }
}

/// Posición de la primera de las `n` primeras filas con clave `id`.
pub fn posicion_estado(s: &Vec<Estado>, n: usize, id: i32) -> (r: Option<usize>)
    requires
        n <= s@.len(),
    ensures
        r is None <==> !hay_estado(vistas(s@), n as int, id),
        r is Some ==> primer_estado(vistas(s@), id, r->0 as int) && r->0 < n,
{
    let ghost v = vistas(s@);
    let mut i: usize = 0;
    while i < n
        invariant
            i <= n <= s@.len(),
            v == vistas(s@),
            !hay_estado(v, i as int, id),
        decreases n - i,
    {
        if s[i].id == id {
            assert(v[i as int].0 == id);
            return Some(i);
        }
        assert(v[i as int].0 != id);
        i = i + 1;
    }
    None
}

/// Posición de la primera de las `n` primeras filas con clave `id`.
pub fn posicion_municipio(s: &Vec<Municipio>, n: usize, id: i32) -> (r: Option<usize>)
    requires
        n <= s@.len(),
    ensures
        r is None <==> !hay_municipio(vistas(s@), n as int, id),
        r is Some ==> primer_municipio(vistas(s@), id, r->0 as int) && r->0 < n,
{
    let ghost v = vistas(s@);
    let mut i: usize = 0;
    while i < n
        invariant
            i <= n <= s@.len(),
            v == vistas(s@),
            !hay_municipio(v, i as int, id),
        decreases n - i,
    {
        if s[i].id == id {
            assert(v[i as int].0 == id);
            return Some(i);
        }
        assert(v[i as int].0 != id);
        i = i + 1;
    }
    None
}

/// Si alguna de las `n` primeras filas tiene el código `cp`.
pub fn existe_cp(s: &Vec<CodigoPostal>, n: usize, cp: i32) -> (r: bool)
    requires
        n <= s@.len(),
    ensures
        r == hay_cp(vistas(s@), n as int, cp),
{
    let ghost v = vistas(s@);
    let mut i: usize = 0;
    while i < n
        invariant
            i <= n <= s@.len(),
            v == vistas(s@),
            !hay_cp(v, i as int, cp),
        decreases n - i,
    {
        if s[i].codigo_postal == cp {
            assert(v[i as int].0 == cp);
            return true;
        }
        assert(v[i as int].0 != cp);
        i = i + 1;
    }
    false
}

/// Si alguna de las `n` primeras filas tiene la clave `id`.
pub fn existe_localidad(s: &Vec<Localidad>, n: usize, id: i32) -> (r: bool)
    requires
        n <= s@.len(),
    ensures
        r == hay_localidad(vistas(s@), n as int, id),
{
    let ghost v = vistas(s@);
    let mut i: usize = 0;
    while i < n
        invariant
            i <= n <= s@.len(),
            v == vistas(s@),
            !hay_localidad(v, i as int, id),
        decreases n - i,
    {
        if s[i].id == id {
            assert(v[i as int].0 == id);
            return true;
        }
        assert(v[i as int].0 != id);
        i = i + 1;
    }
    false
}

impl Catalogo {
    /// Catálogo con las cuatro tablas vacías.
    pub fn new() -> (r: Catalogo)
        ensures
            r@.estados.len() == 0,
            r@.municipios.len() == 0,
            r@.cps.len() == 0,
            r@.localidades.len() == 0,
            r@.bien_formado(),
    {
        Catalogo {
            estados: Vec::new(),
            municipios: Vec::new(),
            codigos_postales: Vec::new(),
            localidades: Vec::new(),
        }
    }

    /// Copias de las localidades con código postal `cp`, en el orden de la tabla.
    pub fn localidades_con_cp(&self, cp: i32) -> (r: Vec<Localidad>)
        ensures
            vistas(r@) == de_cp(self@.localidades, cp),
    {
        let ghost v = self@.localidades;
        let mut r: Vec<Localidad> = Vec::new();
        let mut i: usize = 0;
        while i < self.localidades.len()
            invariant
                i <= self.localidades@.len(),
                v == self@.localidades,
                vistas(r@) == de_cp(v.take(i as int), cp),
            decreases self.localidades@.len() - i,
        {
            let l = &self.localidades[i];
            assert(v.take(i + 1).drop_last() =~= v.take(i as int));
            if l.codigo_postal == cp {
                r.push(
                    Localidad {
                        id: l.id,
                        localidad: l.localidad.clone(),
                        codigo_postal: l.codigo_postal,
                        id_municipio: l.id_municipio,
                        id_estado: l.id_estado,
                    },
                );
                assert(vistas(r@) =~= de_cp(v.take(i + 1), cp));
            } else {
                assert(vistas(r@) =~= de_cp(v.take(i + 1), cp));
            }
            i = i + 1;
        }
        assert(v.take(i as int) =~= v);
        r
    }

    /// Estado, municipio y localidades del código postal `cp`.
    pub fn busqueda_cp(&self, cp: i32) -> (r: Result<CPResponse, ErrorCatalogo>)
        ensures
            resultado_busqueda(self@, cp, r),
    {
        if let Err(e) = validar_cp(cp) {
            return Err(e);
        }
        let filas = self.localidades_con_cp(cp);
        let (id_estado, id_municipio) = match primera_localidad(&filas) {
            Ok(ids) => ids,
            Err(e) => return Err(e),
        };
        let ghost f = de_cp(self@.localidades, cp);
        assert(f[0] == filas@[0]@);
        let estado = match posicion_estado(&self.estados, self.estados.len(), id_estado) {
            Some(k) => Some(&self.estados[k]),
            None => None,
        };
        let municipio = match posicion_municipio(
            &self.municipios,
            self.municipios.len(),
            id_municipio,
        ) {
            Some(k) => Some(&self.municipios[k]),
            None => None,
        };
        let r = armar_respuesta(&filas, estado, municipio);
        proof {
            let e = estado_por_id(self@.estados, id_estado);
            let m = municipio_por_id(self@.municipios, id_municipio);
            if estado is Some {
                assert(e == Some(estado->0@));
            } else {
                assert(e is None);
            }
            if municipio is Some {
                assert(m == Some(municipio->0@));
            } else {
                assert(m is None);
            }
        }
        r
    }
}

} // verus!
