//! Carga inicial del catálogo desde las fuentes CSV: cada tabla se llena sólo
//! si está vacía, en el orden estados, municipios, códigos postales, localidades.
use vstd::prelude::*;
use vstd::string::StrSliceExecFns;
use crate::catalogo::{
    cp_admisible, cps_validos, estado_admisible, estados_validos, existe_cp, existe_localidad,
    hay_cp, hay_localidad, localidad_admisible, localidades_validas,
    municipio_admisible, municipios_validos, posicion_estado, posicion_municipio, Catalogo,
    VistaCatalogo,
};
use crate::errores::ErrorCarga;
use crate::lector::{
    filas_cps_csv, filas_estados_csv, filas_localidades_csv, filas_municipios_csv, leer_cps,
    leer_estados, leer_localidades, leer_municipios,
};
use crate::modelo::{
    vistas, CodigoPostal, Estado, FilaCp, FilaEstado, FilaLocalidad, FilaMunicipio, Localidad,
    Municipio, LONGITUD_NOMBRE, LONGITUD_NOMBRE_LOCALIDAD,
};

verus! {

/// Número máximo de filas por inserción en las tablas grandes.
pub const TAMANO_LOTE: usize = 5000;

/// Fin del lote `k` de una tabla de `n` filas.
pub open spec fn fin_lote(n: int, k: int) -> int {
    if k * TAMANO_LOTE + TAMANO_LOTE <= n {
        k * TAMANO_LOTE + TAMANO_LOTE
    } else {
        n
    }
}

/// Número de lotes de una tabla de `n` filas.
pub open spec fn numero_lotes(n: int) -> int {
    (n + TAMANO_LOTE - 1) / (TAMANO_LOTE as int)
}

/// Los rangos `[inicio, fin)` en que se parten `n` filas: lotes consecutivos de
/// `TAMANO_LOTE` filas, salvo el último, que lleva el resto.
pub fn lotes(n: usize) -> (r: Vec<(usize, usize)>)
    ensures
        r@.len() == numero_lotes(n as int),
        forall|k: int|
            0 <= k < r@.len() ==> (#[trigger] r@[k]).0 == k * TAMANO_LOTE && r@[k].1 == fin_lote(
                n as int,
                k,
            ),
{
    let mut r: Vec<(usize, usize)> = Vec::new();
    let mut a: usize = 0;
    while a < n
        invariant
            a <= n,
            a < n ==> a == r@.len() * TAMANO_LOTE,
            a == n ==> r@.len() == numero_lotes(n as int),
            forall|k: int|
                0 <= k < r@.len() ==> (#[trigger] r@[k]).0 == k * TAMANO_LOTE && r@[k].1
                    == fin_lote(n as int, k),
        decreases n - a,
    {
        let e: usize = if n - a > TAMANO_LOTE {
            a + TAMANO_LOTE
        } else {
            n
        };
        r.push((a, e));
        a = e;
    }
    r
}


/// Carga de la tabla de estados sobre el catálogo `v`: el catálogo resultante y el resultado.
pub open spec fn carga_estados(v: VistaCatalogo, datos: Seq<u8>) -> (VistaCatalogo, Result<(), ErrorCarga>) {
    if v.estados.len() > 0 {
        (v, Ok(()))
    } else {
        match filas_estados_csv(datos) {
            None => (v, Err(ErrorCarga::Lectura)),
            Some(f) => if estados_validos(f) {
                (VistaCatalogo { estados: f, ..v }, Ok(()))
            } else {
                (v, Err(ErrorCarga::Insercion))
            },
        }
    }
}

/// Carga de la tabla de municipios sobre el catálogo `v`.
pub open spec fn carga_municipios(v: VistaCatalogo, datos: Seq<u8>) -> (
    VistaCatalogo,
    Result<(), ErrorCarga>,
) {
    if v.municipios.len() > 0 {
        (v, Ok(()))
    } else {
        match filas_municipios_csv(datos) {
            None => (v, Err(ErrorCarga::Lectura)),
            Some(f) => if municipios_validos(v.estados, f) {
                (VistaCatalogo { municipios: f, ..v }, Ok(()))
            } else {
                (v, Err(ErrorCarga::Insercion))
            },
        }
    }
}

/// Estados y después municipios; un fallo en estados detiene la carga.
pub open spec fn carga_estados_municipios(
    v: VistaCatalogo,
    datos_estados: Seq<u8>,
    datos_municipios: Seq<u8>,
) -> (VistaCatalogo, Result<(), ErrorCarga>) {
    let (v1, r1) = carga_estados(v, datos_estados);
    if r1 is Err {
        (v1, r1)
    } else {
        carga_municipios(v1, datos_municipios)
    }
}

/// Posición de la primera fila de `f`, desde `i`, que el almacén rechazaría
/// (o el largo de `f` si no hay ninguna).
pub open spec fn falla_cp_desde(
    e: Seq<FilaEstado>,
    m: Seq<FilaMunicipio>,
    f: Seq<FilaCp>,
    i: int,
) -> int
    decreases f.len() - i,
{
    if i >= f.len() {
        f.len() as int
    } else if !cp_admisible(e, m, f, i) {
        i
    } else {
        falla_cp_desde(e, m, f, i + 1)
    }
}

pub open spec fn falla_localidad_desde(
    e: Seq<FilaEstado>,
    m: Seq<FilaMunicipio>,
    c: Seq<FilaCp>,
    f: Seq<FilaLocalidad>,
    i: int,
) -> int
    decreases f.len() - i,
{
    if i >= f.len() {
        f.len() as int
    } else if !localidad_admisible(e, m, c, f, i) {
        i
    } else {
        falla_localidad_desde(e, m, c, f, i + 1)
    }
}

/// Filas que quedan guardadas cuando la fila `k` es rechazada: los lotes completos anteriores.
pub open spec fn lotes_guardados(k: int) -> int {
    k / (TAMANO_LOTE as int) * TAMANO_LOTE
}

/// Carga por lotes de la tabla de códigos postales sobre el catálogo `v`.
pub open spec fn carga_cps(v: VistaCatalogo, datos: Seq<u8>) -> (VistaCatalogo, Result<(), ErrorCarga>) {
    if v.cps.len() > 0 {
        (v, Ok(()))
    } else {
        match filas_cps_csv(datos) {
            None => (v, Err(ErrorCarga::Lectura)),
            Some(f) => {
                let k = falla_cp_desde(v.estados, v.municipios, f, 0);
                if k >= f.len() {
                    (VistaCatalogo { cps: f, ..v }, Ok(()))
                } else {
                    (VistaCatalogo { cps: f.take(lotes_guardados(k)), ..v }, Err(ErrorCarga::Insercion))
                }
            },
        }
    }
}

/// Carga por lotes de la tabla de localidades sobre el catálogo `v`.
pub open spec fn carga_localidades(v: VistaCatalogo, datos: Seq<u8>) -> (
    VistaCatalogo,
    Result<(), ErrorCarga>,
) {
    if v.localidades.len() > 0 {
        (v, Ok(()))
    } else {
        match filas_localidades_csv(datos) {
            None => (v, Err(ErrorCarga::Lectura)),
            Some(f) => {
                let k = falla_localidad_desde(v.estados, v.municipios, v.cps, f, 0);
                if k >= f.len() {
                    (VistaCatalogo { localidades: f, ..v }, Ok(()))
                } else {
                    (
                        VistaCatalogo { localidades: f.take(lotes_guardados(k)), ..v },
                        Err(ErrorCarga::Insercion),
                    )
                }
            },
        }
    }
}

impl Catalogo {
    /// Si el almacén aceptaría la fila `i` de `filas` tras las anteriores.
    fn estado_admisible_en(filas: &Vec<Estado>, i: usize) -> (r: bool)
        requires
            i < filas@.len(),
        ensures
            r == estado_admisible(vistas(filas@), i as int),
    {
        let fila = &filas[i];
        posicion_estado(filas, i, fila.id).is_none() && fila.estado.as_str().unicode_len()
            <= LONGITUD_NOMBRE
    }

    fn municipio_admisible_en(&self, filas: &Vec<Municipio>, i: usize) -> (r: bool)
        requires
            i < filas@.len(),
        ensures
            r == municipio_admisible(self@.estados, vistas(filas@), i as int),
    {
        let fila = &filas[i];
        posicion_municipio(filas, i, fila.id).is_none() && posicion_estado(
            &self.estados,
            self.estados.len(),
            fila.id_estado,
        ).is_some() && fila.municipio.as_str().unicode_len() <= LONGITUD_NOMBRE
    }

    fn cp_admisible_en(&self, filas: &Vec<CodigoPostal>, i: usize) -> (r: bool)
        requires
            i < filas@.len(),
        ensures
            r == cp_admisible(self@.estados, self@.municipios, vistas(filas@), i as int),
    {
        let fila = &filas[i];
        !existe_cp(filas, i, fila.codigo_postal) && posicion_municipio(
            &self.municipios,
            self.municipios.len(),
            fila.id_municipio,
        ).is_some() && posicion_estado(&self.estados, self.estados.len(), fila.id_estado).is_some()
    }

    fn localidad_admisible_en(&self, filas: &Vec<Localidad>, i: usize) -> (r: bool)
        requires
            i < filas@.len(),
        ensures
            r == localidad_admisible(
                self@.estados,
                self@.municipios,
                self@.cps,
                vistas(filas@),
                i as int,
            ),
    {
        let fila = &filas[i];
        !existe_localidad(filas, i, fila.id) && existe_cp(
            &self.codigos_postales,
            self.codigos_postales.len(),
            fila.codigo_postal,
        ) && posicion_municipio(&self.municipios, self.municipios.len(), fila.id_municipio).is_some()
            && posicion_estado(&self.estados, self.estados.len(), fila.id_estado).is_some()
            && fila.localidad.as_str().unicode_len() <= LONGITUD_NOMBRE_LOCALIDAD
    }
}

/// En un catálogo bien formado, una tabla vacía deja vacías las que la referencian.
pub proof fn lema_hijas_vacias(v: VistaCatalogo)
    requires
        v.bien_formado(),
    ensures
        v.estados.len() == 0 ==> v.municipios.len() == 0,
        v.municipios.len() == 0 ==> v.cps.len() == 0,
        v.cps.len() == 0 ==> v.localidades.len() == 0,
{
    if v.municipios.len() > 0 {
        assert(municipio_admisible(v.estados, v.municipios, 0));
    }
    if v.cps.len() > 0 {
        assert(cp_admisible(v.estados, v.municipios, v.cps, 0));
    }
    if v.localidades.len() > 0 {
        assert(localidad_admisible(v.estados, v.municipios, v.cps, v.localidades, 0));
    }
}

/// Un prefijo de filas admitidas forma una tabla de códigos postales válida.
pub(crate) proof fn lema_prefijo_cps(
    e: Seq<FilaEstado>,
    m: Seq<FilaMunicipio>,
    f: Seq<FilaCp>,
    x: int,
)
    requires
        0 <= x <= f.len(),
        forall|j: int| 0 <= j < x ==> #[trigger] cp_admisible(e, m, f, j),
    ensures
        cps_validos(e, m, f.take(x)),
{
    let t = f.take(x);
    assert forall|i: int| 0 <= i < t.len() implies #[trigger] cp_admisible(e, m, t, i) by {
        assert(cp_admisible(e, m, f, i));
        assert(t[i] == f[i]);
        if hay_cp(t, i, t[i].0) {
            let k = choose|k: int| 0 <= k < i && k < t.len() && (#[trigger] t[k]).0 == t[i].0;
            assert(f[k].0 == f[i].0);
        }
    }
}

/// Un prefijo de filas admitidas forma una tabla de localidades válida.
pub(crate) proof fn lema_prefijo_localidades(
    e: Seq<FilaEstado>,
    m: Seq<FilaMunicipio>,
    c: Seq<FilaCp>,
    f: Seq<FilaLocalidad>,
    x: int,
)
    requires
        0 <= x <= f.len(),
        forall|j: int| 0 <= j < x ==> #[trigger] localidad_admisible(e, m, c, f, j),
    ensures
        localidades_validas(e, m, c, f.take(x)),
{
    let t = f.take(x);
    assert forall|i: int| 0 <= i < t.len() implies #[trigger] localidad_admisible(
        e,
        m,
        c,
        t,
        i,
    ) by {
        assert(localidad_admisible(e, m, c, f, i));
        assert(t[i] == f[i]);
        if hay_localidad(t, i, t[i].0) {
            let k = choose|k: int| 0 <= k < i && k < t.len() && (#[trigger] t[k]).0 == t[i].0;
            assert(f[k].0 == f[i].0);
        }
    }
}

impl Catalogo {
    /// Llena la tabla de estados desde `datos` si está vacía, en una sola inserción.
    pub fn cargar_estados(&mut self, datos: &[u8]) -> (r: Result<(), ErrorCarga>)
        ensures
            (final(self)@, r) == carga_estados(old(self)@, datos@),
            old(self)@.bien_formado() ==> final(self)@.bien_formado(),
    {
        if self.estados.len() > 0 {
            return Ok(());
        }
        let filas = match leer_estados(datos) {
            Ok(f) => f,
            Err(e) => return Err(e),
        };
        let ghost f = vistas(filas@);
        let mut i: usize = 0;
        while i < filas.len()
            invariant
                i <= filas@.len(),
                f == vistas(filas@),
                filas_estados_csv(datos@) == Some(f),
                old(self)@.estados.len() == 0,
                self@ == old(self)@,
                forall|j: int| 0 <= j < i ==> #[trigger] estado_admisible(f, j),
            decreases filas@.len() - i,
        {
            if !Self::estado_admisible_en(&filas, i) {
                assert(!estado_admisible(f, i as int));
                return Err(ErrorCarga::Insercion);
            }
            i = i + 1;
        }
        proof {
            if old(self)@.bien_formado() {
                lema_hijas_vacias(old(self)@);
            }
        }
        self.estados = filas;
        Ok(())
    }

    /// Llena la tabla de municipios desde `datos` si está vacía, en una sola inserción.
    pub fn cargar_municipios(&mut self, datos: &[u8]) -> (r: Result<(), ErrorCarga>)
        ensures
            (final(self)@, r) == carga_municipios(old(self)@, datos@),
            old(self)@.bien_formado() ==> final(self)@.bien_formado(),
    {
        if self.municipios.len() > 0 {
            return Ok(());
        }
        let filas = match leer_municipios(datos) {
            Ok(f) => f,
            Err(e) => return Err(e),
        };
        let ghost f = vistas(filas@);
        let mut i: usize = 0;
        while i < filas.len()
            invariant
                i <= filas@.len(),
                f == vistas(filas@),
                filas_municipios_csv(datos@) == Some(f),
                old(self)@.municipios.len() == 0,
                self@ == old(self)@,
                forall|j: int| 0 <= j < i ==> #[trigger] municipio_admisible(self@.estados, f, j),
            decreases filas@.len() - i,
        {
            if !self.municipio_admisible_en(&filas, i) {
                assert(!municipio_admisible(self@.estados, f, i as int));
                return Err(ErrorCarga::Insercion);
            }
            i = i + 1;
        }
        proof {
            if old(self)@.bien_formado() {
                lema_hijas_vacias(old(self)@);
            }
        }
        self.municipios = filas;
        Ok(())
    }

    /// Llena las tablas de estados y de municipios, en ese orden; un fallo en
    /// estados deja los municipios sin tocar.
    pub fn llenar_catalogos_estados_municipios(
        &mut self,
        datos_estados: &[u8],
        datos_municipios: &[u8],
    ) -> (r: Result<(), ErrorCarga>)
        ensures
            (final(self)@, r) == carga_estados_municipios(
                old(self)@,
                datos_estados@,
                datos_municipios@,
            ),
            old(self)@.bien_formado() ==> final(self)@.bien_formado(),
    {
        match self.cargar_estados(datos_estados) {
            Ok(()) => {},
            Err(e) => return Err(e),
        }
        self.cargar_municipios(datos_municipios)
    }

    /// Llena la tabla de códigos postales desde `datos` si está vacía, en lotes
    /// de `TAMANO_LOTE` filas; una fila rechazada detiene la carga y deja
    /// guardados los lotes anteriores.
    pub fn llenar_catalogos_cps(&mut self, datos: &[u8]) -> (r: Result<(), ErrorCarga>)
        ensures
            (final(self)@, r) == carga_cps(old(self)@, datos@),
            old(self)@.bien_formado() ==> final(self)@.bien_formado(),
    {
        if self.codigos_postales.len() > 0 {
            return Ok(());
        }
        let filas = match leer_cps(datos) {
            Ok(f) => f,
            Err(e) => return Err(e),
        };
        let ghost f = vistas(filas@);
        let ghost e = self@.estados;
        let ghost m = self@.municipios;
        let ghost n = filas@.len() as int;
        let partes = lotes(filas.len());
        let ghost mut hecho: int = 0;
        let mut k: usize = 0;
        while k < partes.len()
            invariant
                f == vistas(filas@),
                filas_cps_csv(datos@) == Some(f),
                old(self)@.cps.len() == 0,
                n == filas@.len(),
                e == self@.estados,
                m == self@.municipios,
                e == old(self)@.estados,
                m == old(self)@.municipios,
                self@.localidades == old(self)@.localidades,
                partes@.len() == numero_lotes(n),
                forall|q: int|
                    0 <= q < partes@.len() ==> (#[trigger] partes@[q]).0 == q * TAMANO_LOTE
                        && partes@[q].1 == fin_lote(n, q),
                k <= partes@.len(),
                hecho == if k < partes@.len() {
                    k * TAMANO_LOTE
                } else {
                    n
                },
                0 <= hecho <= n,
                self@.cps == f.take(hecho),
                forall|j: int| 0 <= j < hecho ==> #[trigger] cp_admisible(e, m, f, j),
                falla_cp_desde(e, m, f, 0) == falla_cp_desde(e, m, f, hecho),
            decreases partes@.len() - k,
        {
            let (a, b) = partes[k];
            let mut i: usize = a;
            while i < b
                invariant
                    f == vistas(filas@),
                    filas_cps_csv(datos@) == Some(f),
                    old(self)@.cps.len() == 0,
                    n == filas@.len(),
                    e == self@.estados,
                    m == self@.municipios,
                    a == k * TAMANO_LOTE,
                    b == fin_lote(n, k as int),
                    e == old(self)@.estados,
                    m == old(self)@.municipios,
                    self@.localidades == old(self)@.localidades,
                    a == hecho,
                    a <= i <= b <= n,
                    self@.cps == f.take(a as int),
                    forall|j: int| 0 <= j < i ==> #[trigger] cp_admisible(e, m, f, j),
                    falla_cp_desde(e, m, f, 0) == falla_cp_desde(e, m, f, i as int),
                decreases b - i,
            {
                if !self.cp_admisible_en(&filas, i) {
                    proof {
                        assert(!cp_admisible(e, m, f, i as int));
                        assert(falla_cp_desde(e, m, f, i as int) == i);
                        assert(lotes_guardados(i as int) == a);
                        if old(self)@.bien_formado() {
                            lema_hijas_vacias(old(self)@);
                            lema_prefijo_cps(e, m, f, a as int);
                        }
                    }
                    return Err(ErrorCarga::Insercion);
                }
                i = i + 1;
            }
            let mut j: usize = a;
            while j < b
                invariant
                    f == vistas(filas@),
                    filas_cps_csv(datos@) == Some(f),
                    old(self)@.cps.len() == 0,
                    n == filas@.len(),
                    e == self@.estados,
                    m == self@.municipios,
                    e == old(self)@.estados,
                    m == old(self)@.municipios,
                    self@.localidades == old(self)@.localidades,
                    a <= j <= b <= n,
                    self@.cps == f.take(j as int),
                decreases b - j,
            {
                let c = &filas[j];
                let nuevo = CodigoPostal {
                    codigo_postal: c.codigo_postal,
                    id_municipio: c.id_municipio,
                    id_estado: c.id_estado,
                };
                let ghost antes = self.codigos_postales@;
                assert(f[j as int] == nuevo@);
                self.codigos_postales.push(nuevo);
                assert(vistas(antes.push(nuevo)) =~= vistas(antes).push(nuevo@));
                assert(self@.cps =~= f.take(j + 1));
                j = j + 1;
            }
            k = k + 1;
            proof {
                hecho = if k < partes@.len() {
                    k * TAMANO_LOTE
                } else {
                    n
                };
            }
        }
        proof {
            assert(f.take(n) =~= f);
            if old(self)@.bien_formado() {
                lema_hijas_vacias(old(self)@);
                lema_prefijo_cps(e, m, f, n);
            }
        }
        Ok(())
    }

    /// Llena la tabla de localidades desde `datos` si está vacía, en lotes
    /// de `TAMANO_LOTE` filas; una fila rechazada detiene la carga y deja
    /// guardados los lotes anteriores.
    pub fn llenar_catalogos_localidades(&mut self, datos: &[u8]) -> (r: Result<(), ErrorCarga>)
        ensures
            (final(self)@, r) == carga_localidades(old(self)@, datos@),
            old(self)@.bien_formado() ==> final(self)@.bien_formado(),
    {
        if self.localidades.len() > 0 {
            return Ok(());
        }
        let filas = match leer_localidades(datos) {
            Ok(f) => f,
            Err(e) => return Err(e),
        };
        let ghost f = vistas(filas@);
        let ghost e = self@.estados;
        let ghost m = self@.municipios;
        let ghost c = self@.cps;
        let ghost n = filas@.len() as int;
        let partes = lotes(filas.len());
        let ghost mut hecho: int = 0;
        let mut k: usize = 0;
        while k < partes.len()
            invariant
                f == vistas(filas@),
                filas_localidades_csv(datos@) == Some(f),
                old(self)@.localidades.len() == 0,
                n == filas@.len(),
                e == self@.estados,
                m == self@.municipios,
                e == old(self)@.estados,
                m == old(self)@.municipios,
                c == self@.cps,
                self@.cps == old(self)@.cps,
                partes@.len() == numero_lotes(n),
                forall|q: int|
                    0 <= q < partes@.len() ==> (#[trigger] partes@[q]).0 == q * TAMANO_LOTE
                        && partes@[q].1 == fin_lote(n, q),
                k <= partes@.len(),
                hecho == if k < partes@.len() {
                    k * TAMANO_LOTE
                } else {
                    n
                },
                0 <= hecho <= n,
                self@.localidades == f.take(hecho),
                forall|j: int| 0 <= j < hecho ==> #[trigger] localidad_admisible(e, m, c, f, j),
                falla_localidad_desde(e, m, c, f, 0) == falla_localidad_desde(e, m, c, f, hecho),
            decreases partes@.len() - k,
        {
            let (a, b) = partes[k];
            let mut i: usize = a;
            while i < b
                invariant
                    f == vistas(filas@),
                    filas_localidades_csv(datos@) == Some(f),
                    old(self)@.localidades.len() == 0,
                    n == filas@.len(),
                    e == self@.estados,
                    m == self@.municipios,
                    a == k * TAMANO_LOTE,
                    b == fin_lote(n, k as int),
                    e == old(self)@.estados,
                    m == old(self)@.municipios,
                    c == self@.cps,
                    self@.cps == old(self)@.cps,
                    a == hecho,
                    a <= i <= b <= n,
                    self@.localidades == f.take(a as int),
                    forall|j: int| 0 <= j < i ==> #[trigger] localidad_admisible(e, m, c, f, j),
                    falla_localidad_desde(e, m, c, f, 0) == falla_localidad_desde(
                        e,
                        m,
                        c,
                        f,
                        i as int,
                    ),
                decreases b - i,
            {
                if !self.localidad_admisible_en(&filas, i) {
                    proof {
                        assert(!localidad_admisible(e, m, c, f, i as int));
                        assert(falla_localidad_desde(e, m, c, f, i as int) == i);
                        assert(lotes_guardados(i as int) == a);
                        if old(self)@.bien_formado() {
                            lema_hijas_vacias(old(self)@);
                            lema_prefijo_localidades(e, m, c, f, a as int);
                        }
                    }
                    return Err(ErrorCarga::Insercion);
                }
                i = i + 1;
            }
            let mut j: usize = a;
            while j < b
                invariant
                    f == vistas(filas@),
                    filas_localidades_csv(datos@) == Some(f),
                    old(self)@.localidades.len() == 0,
                    n == filas@.len(),
                    e == self@.estados,
                    m == self@.municipios,
                    e == old(self)@.estados,
                    m == old(self)@.municipios,
                    c == self@.cps,
                    self@.cps == old(self)@.cps,
                    a <= j <= b <= n,
                    self@.localidades == f.take(j as int),
                decreases b - j,
            {
                let l = &filas[j];
                let nuevo = Localidad {
                    id: l.id,
                    localidad: l.localidad.clone(),
                    codigo_postal: l.codigo_postal,
                    id_municipio: l.id_municipio,
                    id_estado: l.id_estado,
                };
                let ghost antes = self.localidades@;
                assert(f[j as int] == nuevo@);
                self.localidades.push(nuevo);
                assert(vistas(antes.push(nuevo)) =~= vistas(antes).push(nuevo@));
                assert(self@.localidades =~= f.take(j + 1));
                j = j + 1;
            }
            k = k + 1;
            proof {
                hecho = if k < partes@.len() {
                    k * TAMANO_LOTE
                } else {
                    n
                };
            }
        }
        proof {
            assert(f.take(n) =~= f);
            if old(self)@.bien_formado() {
                lema_hijas_vacias(old(self)@);
                lema_prefijo_localidades(e, m, c, f, n);
            }
        }
        Ok(())
    }
}

} // verus!
