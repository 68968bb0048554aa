//! Listings: products offered for sale.

use vstd::prelude::*;
use crate::cuenta::AccountId;
use crate::errores::Errores;
use crate::producto::{Producto, ProductoView};

verus! {

/// A point in time, in milliseconds, as the host reports it.
pub type Timestamp = u64;

/// An amount of the host's currency.
pub type Balance = u128;

/// A product offered for sale. It holds a copy of the product taken when the
/// listing was published, and counts the units still available on its own.
#[derive(Debug, PartialEq)]
pub struct Publicacion {
    pub id_vendedor: AccountId,
    pub producto: Producto,
    pub descripcion: String,
    pub fecha: Timestamp,
    pub precio: Balance,
    pub disponibles: u64,
}

/// What a `Publicacion` holds, as mathematical values.
pub struct PublicacionView {
    pub id_vendedor: AccountId,
    pub producto: ProductoView,
    pub descripcion: Seq<char>,
    pub fecha: Timestamp,
    pub precio: Balance,
    pub disponibles: u64,
}

impl View for Publicacion {
    type V = PublicacionView;

    open spec fn view(&self) -> PublicacionView {
        PublicacionView {
            id_vendedor: self.id_vendedor,
            producto: self.producto@,
            descripcion: self.descripcion@,
            fecha: self.fecha,
            precio: self.precio,
            disponibles: self.disponibles,
        }
    }
}

impl PublicacionView {
    /// The same listing under another description.
    pub open spec fn con_descripcion(self, descripcion: Seq<char>) -> PublicacionView {
        PublicacionView { descripcion, ..self }
    }

    /// The same listing at another price.
    pub open spec fn con_precio(self, precio: Balance) -> PublicacionView {
        PublicacionView { precio, ..self }
    }

    /// The same listing with another number of units available.
    pub open spec fn con_disponibles(self, disponibles: u64) -> PublicacionView {
        PublicacionView { disponibles, ..self }
    }

    /// What replacing the description answers: an empty one is refused.
    pub open spec fn resultado_descripcion(descripcion: Seq<char>) -> Result<bool, Errores> {
        if descripcion.len() == 0 {
            Err(Errores::ProductoSinDescripcion)
        } else {
            Ok(true)
        }
    }

    /// What replacing the price answers: zero is refused.
    pub open spec fn resultado_precio(precio: Balance) -> Result<bool, Errores> {
        if precio == 0 {
            Err(Errores::PrecioNulo)
        } else {
            Ok(true)
        }
    }

    /// What reserving `cantidad` units answers: more than are available is
    /// refused.
    pub open spec fn resultado_reserva(self, cantidad: u64) -> Result<bool, Errores> {
        if cantidad > self.disponibles {
            Err(Errores::ProductoSinStock)
        } else {
            Ok(true)
        }
    }

    /// The listing after reserving `cantidad` units: that many fewer are
    /// available where the reservation succeeds, and nothing differs where it
    /// fails.
    pub open spec fn tras_reserva(self, cantidad: u64) -> PublicacionView {
        if cantidad > self.disponibles {
            self
        } else {
            self.con_disponibles((self.disponibles - cantidad) as u64)
        }
    }
}

impl Clone for Publicacion {
    fn clone(&self) -> (r: Publicacion)
        ensures
            r == *self,
    {
        Publicacion {
            id_vendedor: self.id_vendedor,
            producto: self.producto.clone(),
            descripcion: self.descripcion.clone(),
            fecha: self.fecha,
            precio: self.precio,
            disponibles: self.disponibles,
        }
    }
}

impl Publicacion {
    /// Builds a listing of `producto` with `stock_inicial` units available.
    /// Neither the description nor the price is checked here.
    pub fn alta_publicacion(
        id_vendedor: AccountId,
        producto: Producto,
        descripcion: String,
        fecha: Timestamp,
        precio: Balance,
        stock_inicial: u64,
    ) -> (r: Publicacion)
        ensures
            r == (Publicacion {
                id_vendedor,
                producto,
                descripcion,
                fecha,
                precio,
                disponibles: stock_inicial,
            }),
    {
        Publicacion {
            id_vendedor,
            producto,
            descripcion,
            fecha,
            precio,
            disponibles: stock_inicial,
        }
    }

    /// Replaces the description, unless the new one is empty.
    pub fn cambiar_descripcion(&mut self, nueva_descripcion: String) -> (r: Result<bool, Errores>)
        ensures
            r == PublicacionView::resultado_descripcion(nueva_descripcion@),
            r is Ok ==> *final(self) == (Publicacion {
                descripcion: nueva_descripcion,
                ..*old(self)
            }),
            r is Err ==> *final(self) == *old(self),
    {
        if nueva_descripcion.as_str().is_empty() {
            return Err(Errores::ProductoSinDescripcion);
        }
        self.descripcion = nueva_descripcion;
        Ok(true)
    }

    /// Reserves `cantidad` of the units available: on success that many fewer
    /// remain. Asking for more than are available fails and changes nothing.
    pub fn descontar_stock(&mut self, cantidad: u64) -> (r: Result<bool, Errores>)
        ensures
            r == old(self)@.resultado_reserva(cantidad),
            r is Ok ==> *final(self) == (Publicacion {
                disponibles: (old(self).disponibles - cantidad) as u64,
                ..*old(self)
            }),
            r is Err ==> *final(self) == *old(self),
            final(self)@ == old(self)@.tras_reserva(cantidad),
    {
        match self.disponibles.checked_sub(cantidad) {
            Some(resto) => {
                self.disponibles = resto;
                Ok(true)
            },
            None => Err(Errores::ProductoSinStock),
        }
    }

    /// Replaces the price, unless the new one is zero.
    pub fn cambiar_precio(&mut self, nuevo_precio: Balance) -> (r: Result<bool, Errores>)
        ensures
            r == PublicacionView::resultado_precio(nuevo_precio),
            r is Ok ==> *final(self) == (Publicacion { precio: nuevo_precio, ..*old(self) }),
            r is Err ==> *final(self) == *old(self),
    {
        if nuevo_precio == 0 {
            return Err(Errores::PrecioNulo);
        }
        self.precio = nuevo_precio;
        Ok(true)
    }
}

} // verus!
