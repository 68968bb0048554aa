//! Products.

use vstd::prelude::*;

verus! {

/// The category of a product.
#[derive(Clone, Copy, Debug, PartialEq, Eq, Structural)]
pub enum Categoria {
    Limpieza,
    Hogar,
    Deporte,
    Electronica,
}

/// A product of an inventory: its id within that inventory, a name, a category
/// and the units in stock.
#[derive(Debug, PartialEq)]
pub struct Producto {
    pub id: u64,
    pub nombre: String,
    pub categoria: Categoria,
    pub cantidad: u64,
}

/// What a `Producto` holds, as mathematical values.
pub struct ProductoView {
    pub id: u64,
    pub nombre: Seq<char>,
    pub categoria: Categoria,
    pub cantidad: u64,
}

impl View for Producto {
    type V = ProductoView;

    open spec fn view(&self) -> ProductoView {
        ProductoView {
            id: self.id,
            nombre: self.nombre@,
            categoria: self.categoria,
            cantidad: self.cantidad,
        }
    }
}

impl ProductoView {
    /// The same product with another number of units in stock.
    pub open spec fn con_cantidad(self, cantidad: u64) -> ProductoView {
        ProductoView { cantidad, ..self }
    }
}

impl Clone for Producto {
    fn clone(&self) -> (r: Producto)
        ensures
            r == *self,
    {
        Producto {
            id: self.id,
            nombre: self.nombre.clone(),
            categoria: self.categoria,
            cantidad: self.cantidad,
        }
    }
}

impl Producto {
    /// Builds a product from its four parts.
    pub fn new(id: u64, nombre: String, categoria: Categoria, cantidad: u64) -> (p: Producto)
        ensures
            p == (Producto { id, nombre, categoria, cantidad }),
    {
        Producto { id, nombre, categoria, cantidad }
    }

    /// An independent copy of the product.
    pub fn get_producto(&self) -> (p: Producto)
        ensures
            p == *self,
    {
        self.clone()
    }
}

} // verus!
