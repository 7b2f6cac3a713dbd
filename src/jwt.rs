//! Comprobación de la forma del token de portador: sólo se exige que no esté
//! vacío; sus reclamos no se inspeccionan.
use vstd::prelude::*;

verus! {

#[verifier::external_type_specification]
#[verifier::external_body]
pub struct ExJwtError(jsonwebtoken::errors::Error);

/// El texto sin los espacios en blanco iniciales y finales.
pub uninterp spec fn recorte(s: Seq<char>) -> Seq<char>;

/// Se apoya en str::trim: el texto sin espacios en blanco al inicio ni al final,
/// función sólo del texto; un texto vacío queda vacío.
#[verifier::external_body]
fn recortar(s: &str) -> (r: &str)
    ensures
        r@ == recorte(s@),
        s@.len() == 0 ==> r@.len() == 0,
{
    s.trim()
}

/// Se apoya en jsonwebtoken::errors::Error::from con ErrorKind::InvalidToken,
/// el error con que se rechaza el token.
#[verifier::external_body]
fn error_token_invalido() -> jsonwebtoken::errors::Error {
    jsonwebtoken::errors::Error::from(jsonwebtoken::errors::ErrorKind::InvalidToken)
}

/// Acepta un token que, sin espacios en los extremos, no queda vacío.
pub fn validar_token(token: String) -> (r: Result<(), jsonwebtoken::errors::Error>)
    ensures
        r is Err <==> recorte(token@).len() == 0,
{
    if recortar(token.as_str()).is_empty() {
        return Err(error_token_invalido());
    }
    Ok(())
}

} // verus!
