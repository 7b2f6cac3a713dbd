//! Catálogo de ubicación por código postal: modelo de datos, carga idempotente
//! del catálogo desde CSV y búsqueda de estado, municipio y localidades.
pub mod modelo;
pub mod errores;
pub mod busqueda;
pub mod lector;
pub mod catalogo;
pub mod carga;
pub mod leyes;
pub mod jwt;
