//! No operation leads out of the valid states of the ledger.

use vstd::prelude::*;
use crate::busqueda::{alguno, lema_alguno_tiene_primero};
use crate::cuenta::AccountId;
use crate::errores::Errores;
use crate::inventario::{con_id, con_nombre};
use crate::modelo::{de_producto, EstadoMercado};
use crate::orden::EstadoOrden;
use crate::producto::Categoria;
use crate::publicacion::{Balance, Timestamp};
use crate::roles::Roles;

verus! {

/// The empty ledger is valid.
pub proof fn ley_vacio_valido()
    ensures
        EstadoMercado::vacio().valido(),
{
}

/// Registering a user keeps the ledger valid.
pub proof fn ley_alta_usuario_conserva(
    s: EstadoMercado,
    nombre: Seq<char>,
    dni: u64,
    id: AccountId,
    rol: Roles,
)
    requires
        s.valido(),
    ensures
        s.tras_alta_usuario(nombre, dni, id, rol).valido(),
{
}

/// Changing a role keeps the ledger valid.
pub proof fn ley_cambio_rol_conserva(s: EstadoMercado, id: AccountId, rol: Roles)
    requires
        s.valido(),
    ensures
        s.tras_cambio_rol(id, rol).valido(),
{
}

/// Adding a product keeps the ledger valid, as long as the number of products
/// fits the range of the ids.
pub proof fn ley_agregar_producto_conserva(
    s: EstadoMercado,
    id: AccountId,
    stock_total: u64,
    nombre: Seq<char>,
    categoria: Categoria,
)
    requires
        s.valido(),
        s.inventarios.contains_key(id) ==> s.inventarios[id].len() <= u64::MAX,
    ensures
        s.tras_agregar_producto(id, stock_total, nombre, categoria).valido(),
{
}

/// Publishing a listing keeps the ledger valid.
pub proof fn ley_alta_publicacion_conserva(
    s: EstadoMercado,
    id: AccountId,
    nombre_producto: Seq<char>,
    fecha: Timestamp,
    descripcion: Seq<char>,
    precio: Balance,
    stock_inicial: u64,
)
    requires
        s.valido(),
    ensures
        s.tras_alta_publicacion(
            id,
            nombre_producto,
            fecha,
            descripcion,
            precio,
            stock_inicial,
        ).valido(),
{
    if s.resultado_alta_publicacion(id, nombre_producto) is Ok {
        lema_alguno_tiene_primero(s.inventarios[id], con_nombre(nombre_producto));
    }
}

/// Replacing a listing's description keeps the ledger valid.
pub proof fn ley_cambio_descripcion_conserva(s: EstadoMercado, indice: u64, descripcion: Seq<char>)
    requires
        s.valido(),
    ensures
        s.tras_cambio_descripcion(indice, descripcion).valido(),
{
}

/// Replacing a listing's price keeps the ledger valid.
pub proof fn ley_cambio_precio_conserva(s: EstadoMercado, indice: u64, precio: Balance)
    requires
        s.valido(),
    ensures
        s.tras_cambio_precio(indice, precio).valido(),
{
}

/// Placing an order keeps the ledger valid, as long as the number of orders
/// fits the range of the ids.
pub proof fn ley_alta_orden_conserva(
    s: EstadoMercado,
    comprador: AccountId,
    id_producto: u64,
    cantidad: u64,
)
    requires
        s.valido(),
        s.ordenes.len() <= u64::MAX,
    ensures
        s.tras_alta_orden(comprador, id_producto, cantidad).valido(),
{
    if s.resultado_alta_orden(comprador, id_producto, cantidad) is Ok {
        lema_alguno_tiene_primero(s.publicaciones, de_producto(id_producto));
        let p = s.publicaciones[s.publicacion_de(id_producto)];
        lema_alguno_tiene_primero(s.inventarios[p.id_vendedor], con_id(id_producto));
    }
}

/// Moving an order to another state keeps the ledger valid.
pub proof fn ley_cambio_estado_conserva(
    s: EstadoMercado,
    actor: AccountId,
    indice: u64,
    estado_nuevo: EstadoOrden,
)
    requires
        s.valido(),
    ensures
        s.tras_cambio_estado(actor, indice, estado_nuevo).valido(),
{
}

/// In a valid ledger an order fails for one of three reasons only: the buyer
/// is not registered, no listing offers the product, or the stock does not
/// cover the quantity.
pub proof fn ley_alta_orden_errores(
    s: EstadoMercado,
    comprador: AccountId,
    id_producto: u64,
    cantidad: u64,
)
    requires
        s.valido(),
    ensures
        s.resultado_alta_orden(comprador, id_producto, cantidad) matches Err(e) ==> {
            ||| e == Errores::CompradorNoEncontrado && !s.usuarios.contains_key(comprador)
            ||| e == Errores::ProductoNoEncontrado && !alguno(
                s.publicaciones,
                de_producto(id_producto),
            )
            ||| e == Errores::ProductoSinStock
        },
{
    if s.usuarios.contains_key(comprador) && alguno(s.publicaciones, de_producto(id_producto)) {
        lema_alguno_tiene_primero(s.publicaciones, de_producto(id_producto));
        let p = s.publicaciones[s.publicacion_de(id_producto)];
        assert(con_id(id_producto)(s.inventarios[p.id_vendedor][id_producto as int]));
    }
}

} // verus!
