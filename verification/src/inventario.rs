//! The products that one seller owns.

use vstd::prelude::*;
use crate::busqueda::{alguno, es_primero, lema_primero_unico, primero};
use crate::cuenta::AccountId;
use crate::errores::Errores;
use crate::producto::{Producto, ProductoView};

verus! {

/// The products of one owner, in the order in which they were added.
#[derive(Debug, PartialEq)]
pub struct Inventario {
    pub listado_productos: Vec<Producto>,
}

impl View for Inventario {
    type V = Seq<ProductoView>;

    open spec fn view(&self) -> Seq<ProductoView> {
        self.listado_productos@.map_values(|p: Producto| p@)
    }
}

/// An inventory and the identity that owns it.
#[derive(Debug, PartialEq)]
pub struct Deposito {
    pub duenio: AccountId,
    pub inventario: Inventario,
}

/// What a `Deposito` holds, as mathematical values.
pub struct DepositoView {
    pub duenio: AccountId,
    pub inventario: Seq<ProductoView>,
}

impl View for Deposito {
    type V = DepositoView;

    open spec fn view(&self) -> DepositoView {
        DepositoView { duenio: self.duenio, inventario: self.inventario@ }
    }
}

/// Each product's id is its position.
pub open spec fn ids_en_orden(inv: Seq<ProductoView>) -> bool {
    forall|k: int| 0 <= k < inv.len() ==> (#[trigger] inv[k]).id == k
}

/// The property of having the id `id`.
pub open spec fn con_id(id: u64) -> spec_fn(ProductoView) -> bool {
    |p: ProductoView| p.id == id
}

/// The property of having the name `nombre`.
pub open spec fn con_nombre(nombre: Seq<char>) -> spec_fn(ProductoView) -> bool {
    |p: ProductoView| p.nombre == nombre
}

/// What taking `cantidad` units of the product `id` out of `inv` answers:
/// `ProductoNoEncontrado` where no product has that id, `ProductoSinStock`
/// where the first such product holds fewer units, and success otherwise.
pub open spec fn resultado_descuento(
    inv: Seq<ProductoView>,
    cantidad: u64,
    id: u64,
) -> Result<bool, Errores> {
    if !alguno(inv, con_id(id)) {
        Err(Errores::ProductoNoEncontrado)
    } else if cantidad > inv[primero(inv, con_id(id))].cantidad {
        Err(Errores::ProductoSinStock)
    } else {
        Ok(true)
    }
}

/// The inventory after taking `cantidad` units of the product `id` out of it:
/// on success the first product with that id holds that many units fewer and
/// nothing else differs; on failure nothing differs.
pub open spec fn tras_descuento(
    inv: Seq<ProductoView>,
    cantidad: u64,
    id: u64,
) -> Seq<ProductoView> {
    if resultado_descuento(inv, cantidad, id) is Ok {
        let k = primero(inv, con_id(id));
        inv.update(k, inv[k].con_cantidad((inv[k].cantidad - cantidad) as u64))
    } else {
        inv
    }
}

impl Clone for Inventario {
    fn clone(&self) -> (r: Inventario)
        ensures
            r@ == self@,
    {
        let mut copia: Vec<Producto> = Vec::new();
        let mut i: usize = 0;
        while i < self.listado_productos.len()
            invariant
                i <= self.listado_productos.len(),
                copia.len() == i,
                forall|k: int| 0 <= k < i ==> copia[k] == self.listado_productos[k],
            decreases self.listado_productos.len() - i,
        {
            copia.push(self.listado_productos[i].clone());
            i = i + 1;
        }
        Inventario { listado_productos: copia }
    }
}

impl Inventario {
    /// An inventory without products.
    pub fn new() -> (r: Inventario)
        ensures
            r@ == Seq::<ProductoView>::empty(),
    {
        Inventario { listado_productos: Vec::new() }
    }

    /// Tells whether each product's id is its position.
    pub fn ids_en_orden(&self) -> (r: bool)
        ensures
            r == ids_en_orden(self@),
    {
        let mut k: usize = 0;
        while k < self.listado_productos.len()
            invariant
                k <= self.listado_productos.len(),
                forall|j: int| 0 <= j < k ==> (#[trigger] self@[j]).id == j,
            decreases self.listado_productos.len() - k,
        {
            if self.listado_productos[k].id != k as u64 {
                assert(self@[k as int].id != k);
                return false;
            }
            k = k + 1;
        }
        true
    }

    /// The position of the first product with the id `id_producto`.
    pub fn buscar_por_id(&self, id_producto: u64) -> (r: Option<usize>)
        ensures
            r is Some <==> alguno(self@, con_id(id_producto)),
            r matches Some(k) ==> es_primero(self@, con_id(id_producto), k as int) && k == primero(
                self@,
                con_id(id_producto),
            ),
    {
        let mut i: usize = 0;
        while i < self.listado_productos.len()
            invariant
                i <= self.listado_productos.len(),
                forall|j: int| 0 <= j < i ==> !#[trigger] con_id(id_producto)(self@[j]),
            decreases self.listado_productos.len() - i,
        {
            if self.listado_productos[i].id == id_producto {
                proof {
                    lema_primero_unico(self@, con_id(id_producto), i as int);
                }
                return Some(i);
            }
            i = i + 1;
        }
        None
    }

    /// The position of the first product with the name `nombre`.
    pub fn buscar_por_nombre(&self, nombre: &String) -> (r: Option<usize>)
        ensures
            r is Some <==> alguno(self@, con_nombre(nombre@)),
            r matches Some(k) ==> es_primero(self@, con_nombre(nombre@), k as int) && k == primero(
                self@,
                con_nombre(nombre@),
            ),
    {
        let mut i: usize = 0;
        while i < self.listado_productos.len()
            invariant
                i <= self.listado_productos.len(),
                forall|j: int| 0 <= j < i ==> !#[trigger] con_nombre(nombre@)(self@[j]),
            decreases self.listado_productos.len() - i,
        {
            if self.listado_productos[i].nombre == *nombre {
                proof {
                    lema_primero_unico(self@, con_nombre(nombre@), i as int);
                }
                return Some(i);
            }
            i = i + 1;
        }
        None
    }

    /// Takes `cantidad` units out of the first product with the id
    /// `id_producto`. Fails, and changes nothing, where no product has that id
    /// or the product holds fewer units.
    pub fn descontar_stock_inventario(
        &mut self,
        cantidad: u64,
        id_producto: u64,
    ) -> (r: Result<bool, Errores>)
        ensures
            r == resultado_descuento(old(self)@, cantidad, id_producto),
            final(self)@ == tras_descuento(old(self)@, cantidad, id_producto),
            r is Err ==> *final(self) == *old(self),
    {
        match self.buscar_por_id(id_producto) {
            None => Err(Errores::ProductoNoEncontrado),
            Some(k) => {
                let actual: u64 = self.listado_productos[k].cantidad;
                if cantidad > actual {
                    Err(Errores::ProductoSinStock)
                } else {
                    self.listado_productos[k].cantidad = actual - cantidad;
                    Ok(true)
                }
            },
        }
    }
}

} // verus!
