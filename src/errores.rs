//! Clasificación de los fallos de la búsqueda y de la carga del catálogo.
use vstd::prelude::*;

verus! {

/// Fallo de una búsqueda por código postal.
#[derive(Debug, Clone, PartialEq, Eq)]
pub enum ErrorCatalogo {
    /// El código postal está fuera del rango admitido.
    FormatoInvalido,
    /// Ninguna localidad tiene ese código postal.
    NoEncontrado,
    /// El catálogo referencia un estado o municipio que no existe.
    Integridad(String),
    /// El almacén no pudo responder la consulta.
    Almacen(String),
}

impl ErrorCatalogo {
    pub open spec fn codigo_spec(&self) -> u16 {
        match self {
            ErrorCatalogo::FormatoInvalido => 400,
            ErrorCatalogo::NoEncontrado => 404,
            _ => 500,
        }
    }

    pub open spec fn mensaje_spec(&self) -> Seq<char> {
        match self {
            ErrorCatalogo::FormatoInvalido => "Formato de código postal inválido"@,
            ErrorCatalogo::NoEncontrado => "Código postal no encontrado"@,
            ErrorCatalogo::Integridad(m) => m@,
            ErrorCatalogo::Almacen(m) => m@,
        }
    }

    /// Código de estado HTTP con el que se responde este fallo.
    pub fn codigo_http(&self) -> (r: u16)
        ensures
            r == self.codigo_spec(),
    {
        match self {
            ErrorCatalogo::FormatoInvalido => 400,
            ErrorCatalogo::NoEncontrado => 404,
            _ => 500,
        }
    }

    /// Texto legible del fallo.
    pub fn mensaje(&self) -> (r: String)
        ensures
            r@ == self.mensaje_spec(),
    {
        match self {
            ErrorCatalogo::FormatoInvalido => "Formato de código postal inválido".to_owned(),
            ErrorCatalogo::NoEncontrado => "Código postal no encontrado".to_owned(),
            ErrorCatalogo::Integridad(m) => m.clone(),
            ErrorCatalogo::Almacen(m) => m.clone(),
        }
    }
}

/// Fallo de la carga inicial del catálogo; detiene el arranque.
#[derive(Debug, Clone, PartialEq, Eq)]
pub enum ErrorCarga {
    /// La fuente CSV no pudo leerse o una fila está mal formada.
    Lectura,
    /// El almacén rechazó una fila: clave repetida, referencia inexistente
    /// o nombre demasiado largo.
    Insercion,
    /// El almacén no pudo ejecutar la operación.
    Almacen(String),
}

} // verus!
