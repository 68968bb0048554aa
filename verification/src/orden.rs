//! Purchase orders and their life cycle.

use vstd::prelude::*;
use crate::cuenta::AccountId;
use crate::errores::Errores;
use crate::roles::Roles;
use crate::usuario::Usuario;

verus! {

/// The state of a purchase order. An order is created `Pendiente`.
#[derive(Clone, Copy, Debug, PartialEq, Eq, Structural)]
pub enum EstadoOrden {
    Pendiente,
    Enviado,
    Recibido,
    Cancelada,
}

/// A purchase: who buys what from whom, how many units, and how far the
/// purchase has come.
#[derive(Clone, Copy, Debug, PartialEq)]
pub struct OrdenCompra {
    pub id_orden: u64,
    pub id_comprador: AccountId,
    pub id_vendedor: AccountId,
    pub id_producto: u64,
    pub cantidad: u64,
    pub estado: EstadoOrden,
}

/// What a user with the role `rol` is answered on asking to move an order to
/// `estado_nuevo`. A buyer may mark it `Enviado`, a seller `Recibido`; a seller
/// who asks for `Cancelada` lacks the other party's consent; everything else
/// is denied. The order's current state plays no part.
pub open spec fn resultado_transicion(
    rol: Roles,
    estado_nuevo: EstadoOrden,
) -> Result<bool, Errores> {
    match (rol, estado_nuevo) {
        (Roles::Comprador, EstadoOrden::Enviado) => Ok(true),
        (Roles::Vendedor, EstadoOrden::Recibido) => Ok(true),
        (Roles::Vendedor, EstadoOrden::Cancelada) => Err(Errores::ConsentimientoFaltante),
        _ => Err(Errores::PermisoDenegado),
    }
}

impl OrdenCompra {
    /// The same order in another state.
    pub open spec fn con_estado(self, estado: EstadoOrden) -> OrdenCompra {
        OrdenCompra { estado, ..self }
    }

    /// The order after a user with the role `rol` asked to move it to
    /// `estado_nuevo`.
    pub open spec fn tras_transicion(self, rol: Roles, estado_nuevo: EstadoOrden) -> OrdenCompra {
        if resultado_transicion(rol, estado_nuevo) is Ok {
            self.con_estado(estado_nuevo)
        } else {
            self
        }
    }

    /// The pending order with the given id, buyer, seller, product and
    /// quantity.
    pub open spec fn pendiente(
        id_orden: u64,
        id_comprador: AccountId,
        id_vendedor: AccountId,
        id_producto: u64,
        cantidad: u64,
    ) -> OrdenCompra {
        OrdenCompra {
            id_orden,
            id_comprador,
            id_vendedor,
            id_producto,
            cantidad,
            estado: EstadoOrden::Pendiente,
        }
    }

    /// Builds a pending order. An order for zero units is refused with
    /// `ProductoSinStock`.
    pub fn crear_orden(
        id_ord: u64,
        comprador: AccountId,
        id_vend: AccountId,
        id_prod: u64,
        cant: u64,
    ) -> (r: Result<OrdenCompra, Errores>)
        ensures
            r is Err <==> cant == 0,
            r matches Err(e) ==> e == Errores::ProductoSinStock,
            r matches Ok(o) ==> o == OrdenCompra::pendiente(
                id_ord,
                comprador,
                id_vend,
                id_prod,
                cant,
            ),
    {
        if cant == 0 {
            return Err(Errores::ProductoSinStock);
        }
        Ok(
            OrdenCompra {
                id_orden: id_ord,
                id_comprador: comprador,
                id_vendedor: id_vend,
                id_producto: id_prod,
                cantidad: cant,
                estado: EstadoOrden::Pendiente,
            },
        )
    }

    /// Moves the order to `estado_nuevo` where the role of `usuario` allows
    /// it, and leaves it as it is where not.
    pub fn cambiar_estado(
        &mut self,
        usuario: Usuario,
        estado_nuevo: EstadoOrden,
    ) -> (r: Result<bool, Errores>)
        ensures
            r == resultado_transicion(usuario@.rol, estado_nuevo),
            *final(self) == old(self).tras_transicion(usuario@.rol, estado_nuevo),
    {
        match usuario.get_rol() {
            Roles::Comprador => {
                match estado_nuevo {
                    EstadoOrden::Enviado => {
                        self.estado = estado_nuevo;
                        Ok(true)
                    },
                    _ => Err(Errores::PermisoDenegado),
                }
            },
            Roles::Vendedor => {
                match estado_nuevo {
                    EstadoOrden::Recibido => {
                        self.estado = estado_nuevo;
                        Ok(true)
                    },
                    EstadoOrden::Cancelada => Err(Errores::ConsentimientoFaltante),
                    _ => Err(Errores::PermisoDenegado),
                }
            },
            _ => Err(Errores::PermisoDenegado),
        }
    }
}

} // verus!
