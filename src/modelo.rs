//! Registros del catálogo y estructuras de intercambio.
use vstd::prelude::*;

verus! {

/// Longitud máxima, en caracteres, del nombre de un estado o municipio.
pub const LONGITUD_NOMBRE: usize = 50;

/// Longitud máxima, en caracteres, del nombre de una localidad.
pub const LONGITUD_NOMBRE_LOCALIDAD: usize = 100;

/// Estado; su `id` coincide con la clave política de la fuente.
#[derive(Debug, Clone, PartialEq, Eq)]
pub struct Estado {
    pub id: i32,
    pub estado: String,
}

/// Municipio perteneciente a un estado.
#[derive(Debug, Clone, PartialEq, Eq)]
pub struct Municipio {
    pub id: i32,
    pub municipio: String,
    pub id_estado: i32,
}

/// Código postal; el propio código es su clave.
#[derive(Debug, Clone, PartialEq, Eq)]
pub struct CodigoPostal {
    pub codigo_postal: i32,
    pub id_municipio: i32,
    pub id_estado: i32,
}

/// Localidad, con su código postal, municipio y estado.
#[derive(Debug, Clone, PartialEq, Eq)]
pub struct Localidad {
    pub id: i32,
    pub localidad: String,
    pub codigo_postal: i32,
    pub id_municipio: i32,
    pub id_estado: i32,
}

/// Vista de un estado: (id, nombre).
pub type FilaEstado = (i32, Seq<char>);

/// Vista de un municipio: (id, nombre, id del estado).
pub type FilaMunicipio = (i32, Seq<char>, i32);

/// Vista de un código postal: (código, id del municipio, id del estado).
pub type FilaCp = (i32, i32, i32);

/// Vista de una localidad: (id, nombre, código postal, id del municipio, id del estado).
pub type FilaLocalidad = (i32, Seq<char>, i32, i32, i32);

impl View for Estado {
    type V = FilaEstado;

    open spec fn view(&self) -> FilaEstado {
        (self.id, self.estado@)
    }
}

impl View for Municipio {
    type V = FilaMunicipio;

    open spec fn view(&self) -> FilaMunicipio {
        (self.id, self.municipio@, self.id_estado)
    }
}

impl View for CodigoPostal {
    type V = FilaCp;

    open spec fn view(&self) -> FilaCp {
        (self.codigo_postal, self.id_municipio, self.id_estado)
    }
}

impl View for Localidad {
    type V = FilaLocalidad;

    open spec fn view(&self) -> FilaLocalidad {
        (self.id, self.localidad@, self.codigo_postal, self.id_municipio, self.id_estado)
    }
}

/// Las vistas de una secuencia de registros, en el mismo orden.
pub open spec fn vistas<T: View>(s: Seq<T>) -> Seq<T::V> {
    s.map_values(|x: T| x@)
}

/// Par id / etiqueta con el que se exponen los registros del catálogo.
#[derive(Debug, Clone, PartialEq, Eq)]
pub struct CatalogoIdCadena {
    pub id: i32,
    pub value: String,
}

impl CatalogoIdCadena {
    /// Verdadero si el par lleva exactamente este id y esta etiqueta.
    pub open spec fn es(&self, id: i32, value: Seq<char>) -> bool {
        self.id == id && self.value@ == value
    }
}

/// Registros que se reducen a un par id / etiqueta.
pub trait CatalogoCombo {
    spec fn id_combo(&self) -> i32;

    spec fn valor_combo(&self) -> Seq<char>;

    fn to_id_value(&self) -> (r: CatalogoIdCadena)
        ensures
            r.es(self.id_combo(), self.valor_combo()),
    ;
}

impl CatalogoCombo for Estado {
    open spec fn id_combo(&self) -> i32 {
        self.id
    }

    open spec fn valor_combo(&self) -> Seq<char> {
        self.estado@
    }

    fn to_id_value(&self) -> (r: CatalogoIdCadena) {
        CatalogoIdCadena { id: self.id, value: self.estado.clone() }
    }
}

impl CatalogoCombo for Municipio {
    open spec fn id_combo(&self) -> i32 {
        self.id
    }

    open spec fn valor_combo(&self) -> Seq<char> {
        self.municipio@
    }

    fn to_id_value(&self) -> (r: CatalogoIdCadena) {
        CatalogoIdCadena { id: self.id, value: self.municipio.clone() }
    }
}

/// Código postal que se consulta.
#[derive(Debug, Clone, Copy, PartialEq, Eq)]
pub struct CPPayload {
    pub cp: i32,
}

/// Estado, municipio y localidades asociados a un código postal.
#[derive(Debug, Clone, PartialEq, Eq)]
pub struct CPResponse {
    pub estado: CatalogoIdCadena,
    pub municipio: CatalogoIdCadena,
    pub localidades: Vec<CatalogoIdCadena>,
}

} // verus!
