//! What the operations of the ledger guarantee, one law per proof.

use vstd::prelude::*;
use crate::busqueda::{alguno, lema_alguno_tiene_primero};
use crate::cuenta::AccountId;
use crate::errores::Errores;
use crate::inventario::{con_id, con_nombre};
use crate::modelo::{de_producto, EstadoMercado};
use crate::orden::EstadoOrden;
use crate::producto::{Categoria, ProductoView};
use crate::publicacion::{Balance, Timestamp};
use crate::roles::{rol_puede_vender, Roles};

verus! {

/// After a successful registration the user is on file under the identity,
/// with the name and the national id that were given.
pub proof fn ley_registro_y_consulta(
    s: EstadoMercado,
    nombre: Seq<char>,
    dni: u64,
    id: AccountId,
    rol: Roles,
)
    requires
        s.resultado_alta_usuario(nombre, dni, id) is Ok,
    ensures
        s.tras_alta_usuario(nombre, dni, id, rol).usuarios.contains_key(id),
        s.tras_alta_usuario(nombre, dni, id, rol).usuarios[id].nombre == nombre,
        s.tras_alta_usuario(nombre, dni, id, rol).usuarios[id].dni == dni,
        s.tras_alta_usuario(nombre, dni, id, rol).usuarios[id].id == id,
        s.tras_alta_usuario(nombre, dni, id, rol).usuarios[id].rol == rol,
{
}

/// Registering an identity a second time fails: with `UsuarioExistente` where
/// the national id is the one on file, with `ConflictoDni` where it is
/// another. The second call is given a name and a national id other than
/// zero, so that neither is refused for itself.
pub proof fn ley_registro_repetido(
    s: EstadoMercado,
    nombre: Seq<char>,
    dni: u64,
    id: AccountId,
    rol: Roles,
    nombre_2: Seq<char>,
    dni_2: u64,
)
    requires
        s.resultado_alta_usuario(nombre, dni, id) is Ok,
        nombre_2.len() > 0,
        dni_2 != 0,
    ensures
        dni_2 == dni ==> s.tras_alta_usuario(nombre, dni, id, rol).resultado_alta_usuario(
            nombre_2,
            dni_2,
            id,
        ) == Err::<bool, Errores>(Errores::UsuarioExistente),
        dni_2 != dni ==> s.tras_alta_usuario(nombre, dni, id, rol).resultado_alta_usuario(
            nombre_2,
            dni_2,
            id,
        ) == Err::<bool, Errores>(Errores::ConflictoDni),
{
}

/// A refused registration, under whatever role, leaves the ledger as it was.
pub proof fn ley_registro_rechazado(
    s: EstadoMercado,
    nombre: Seq<char>,
    dni: u64,
    id: AccountId,
    rol: Roles,
)
    requires
        s.resultado_alta_usuario(nombre, dni, id) is Err,
    ensures
        s.tras_alta_usuario(nombre, dni, id, rol) == s,
{
}

/// A new user owns an inventory exactly if their role can sell, and that
/// inventory is empty. Nobody else gains, loses or sees changed an inventory.
pub proof fn ley_inventario_por_rol(
    s: EstadoMercado,
    nombre: Seq<char>,
    dni: u64,
    id: AccountId,
    rol: Roles,
)
    requires
        s.valido(),
        s.resultado_alta_usuario(nombre, dni, id) is Ok,
    ensures
        ({
            let t = s.tras_alta_usuario(nombre, dni, id, rol);
            &&& t.inventarios.contains_key(id) <==> rol_puede_vender(rol)
            &&& rol_puede_vender(rol) ==> t.inventarios[id] == Seq::<ProductoView>::empty()
            &&& forall|otro: AccountId|
                otro != id ==> (t.inventarios.contains_key(otro) <==> s.inventarios.contains_key(
                    otro,
                ))
            &&& forall|otro: AccountId|
                s.inventarios.contains_key(otro) ==> t.inventarios[otro] == s.inventarios[otro]
        }),
{
}

/// After a change of role the user owns an inventory if they owned one
/// before or the new role can sell, and not otherwise. An inventory filed by
/// the change is empty; every inventory that was there stays as it was.
pub proof fn ley_inventario_tras_cambio_rol(s: EstadoMercado, id: AccountId, rol: Roles)
    requires
        s.resultado_cambio_rol(id, rol) is Ok,
    ensures
        ({
            let t = s.tras_cambio_rol(id, rol);
            &&& t.inventarios.contains_key(id) <==> s.inventarios.contains_key(id)
                || rol_puede_vender(rol)
            &&& !s.inventarios.contains_key(id) && rol_puede_vender(rol) ==> t.inventarios[id]
                == Seq::<ProductoView>::empty()
            &&& forall|otro: AccountId|
                otro != id ==> (t.inventarios.contains_key(otro) <==> s.inventarios.contains_key(
                    otro,
                ))
            &&& forall|otro: AccountId|
                s.inventarios.contains_key(otro) ==> t.inventarios[otro] == s.inventarios[otro]
        }),
{
}

/// A user who is a buyer only cannot add a product: the call is answered with
/// `PermisoDenegado`, and no inventory changes.
pub proof fn ley_comprador_no_agrega(
    s: EstadoMercado,
    id: AccountId,
    stock_total: u64,
    nombre: Seq<char>,
    categoria: Categoria,
)
    requires
        s.usuarios.contains_key(id),
        s.usuarios[id].rol == Roles::Comprador,
    ensures
        s.resultado_agregar_producto(id) == Err::<bool, Errores>(Errores::PermisoDenegado),
        s.tras_agregar_producto(id, stock_total, nombre, categoria) == s,
{
}

/// In a valid ledger a user whose role can sell is never refused a product:
/// the inventory is there.
pub proof fn ley_vendedor_agrega(s: EstadoMercado, id: AccountId)
    requires
        s.valido(),
        s.usuarios.contains_key(id),
        s.usuarios[id].rol != Roles::Comprador,
    ensures
        s.resultado_agregar_producto(id) == Ok::<bool, Errores>(true),
{
}

/// An added product stands last in its owner's inventory, and its id is the
/// number of products that the inventory held before.
pub proof fn ley_producto_agregado(
    s: EstadoMercado,
    id: AccountId,
    stock_total: u64,
    nombre: Seq<char>,
    categoria: Categoria,
)
    requires
        s.resultado_agregar_producto(id) is Ok,
        s.inventarios[id].len() <= u64::MAX,
    ensures
        ({
            let antes = s.inventarios[id];
            let t = s.tras_agregar_producto(id, stock_total, nombre, categoria);
            let despues = t.inventarios[id];
            &&& despues.len() == antes.len() + 1
            &&& despues.last().id == antes.len()
            &&& despues.last().nombre == nombre
            &&& despues.last().categoria == categoria
            &&& despues.last().cantidad == stock_total
            &&& despues.drop_last() == antes
        }),
{
}

/// A new listing stands last, at the position that the call returns. It
/// holds the seller, the description, the time, the price and the stock of
/// the call, and a copy of a product of that name from the seller's
/// inventory; the earlier listings stay as they were.
pub proof fn ley_publicacion_nueva(
    s: EstadoMercado,
    id: AccountId,
    nombre_producto: Seq<char>,
    fecha: Timestamp,
    descripcion: Seq<char>,
    precio: Balance,
    stock_inicial: u64,
)
    requires
        s.publicaciones.len() <= u64::MAX,
        s.resultado_alta_publicacion(id, nombre_producto) is Ok,
    ensures
        ({
            let t = s.tras_alta_publicacion(
                id,
                nombre_producto,
                fecha,
                descripcion,
                precio,
                stock_inicial,
            );
            let p = t.publicaciones.last();
            &&& s.resultado_alta_publicacion(id, nombre_producto).unwrap()
                == s.publicaciones.len()
            &&& t.publicaciones.len() == s.publicaciones.len() + 1
            &&& t.publicaciones.drop_last() == s.publicaciones
            &&& p.id_vendedor == id
            &&& p.descripcion == descripcion
            &&& p.fecha == fecha
            &&& p.precio == precio
            &&& p.disponibles == stock_inicial
            &&& p.producto.nombre == nombre_producto
            &&& s.inventarios[id].contains(p.producto)
            &&& t.usuarios == s.usuarios
            &&& t.inventarios == s.inventarios
            &&& t.ordenes == s.ordenes
        }),
{
    lema_alguno_tiene_primero(s.inventarios[id], con_nombre(nombre_producto));
}

/// An order never takes a listing below zero: whatever the call and its
/// outcome, no listing has more units available afterwards than before, and
/// the number of listings stays.
pub proof fn ley_orden_no_aumenta_disponibles(
    s: EstadoMercado,
    comprador: AccountId,
    id_producto: u64,
    cantidad: u64,
)
    ensures
        s.tras_alta_orden(comprador, id_producto, cantidad).publicaciones.len()
            == s.publicaciones.len(),
        forall|k: int|
            0 <= k < s.publicaciones.len() ==> 0 <= (#[trigger] s.tras_alta_orden(
                comprador,
                id_producto,
                cantidad,
            ).publicaciones[k]).disponibles <= s.publicaciones[k].disponibles,
{
    if s.resultado_alta_orden(comprador, id_producto, cantidad) is Ok {
        lema_alguno_tiene_primero(s.publicaciones, de_producto(id_producto));
    }
}

/// A successful order takes exactly its quantity from the listing it was
/// placed against, and leaves every other listing as it was.
pub proof fn ley_orden_descuenta_publicacion(
    s: EstadoMercado,
    comprador: AccountId,
    id_producto: u64,
    cantidad: u64,
)
    requires
        s.resultado_alta_orden(comprador, id_producto, cantidad) is Ok,
    ensures
        ({
            let i = s.publicacion_de(id_producto);
            let t = s.tras_alta_orden(comprador, id_producto, cantidad);
            &&& 0 <= i < s.publicaciones.len()
            &&& s.publicaciones[i].producto.id == id_producto
            &&& cantidad <= s.publicaciones[i].disponibles
            &&& t.publicaciones[i].disponibles == s.publicaciones[i].disponibles - cantidad
            &&& t.publicaciones[i] == s.publicaciones[i].con_disponibles(
                t.publicaciones[i].disponibles,
            )
            &&& forall|k: int|
                0 <= k < s.publicaciones.len() && k != i ==> t.publicaciones[k]
                    == s.publicaciones[k]
        }),
{
    lema_alguno_tiene_primero(s.publicaciones, de_producto(id_producto));
}

/// In a valid ledger a successful order takes exactly its quantity from the
/// product in the seller's inventory, and leaves every other product and
/// every other inventory as it was.
pub proof fn ley_orden_descuenta_inventario(
    s: EstadoMercado,
    comprador: AccountId,
    id_producto: u64,
    cantidad: u64,
)
    requires
        s.valido(),
        s.resultado_alta_orden(comprador, id_producto, cantidad) is Ok,
    ensures
        ({
            let vendedor = s.publicaciones[s.publicacion_de(id_producto)].id_vendedor;
            let antes = s.inventarios[vendedor];
            let t = s.tras_alta_orden(comprador, id_producto, cantidad);
            let despues = t.inventarios[vendedor];
            &&& s.inventarios.contains_key(vendedor)
            &&& t.inventarios.dom() == s.inventarios.dom()
            &&& despues.len() == antes.len()
            &&& id_producto < antes.len()
            &&& cantidad <= antes[id_producto as int].cantidad
            &&& despues[id_producto as int].cantidad == antes[id_producto as int].cantidad
                - cantidad
            &&& despues[id_producto as int] == antes[id_producto as int].con_cantidad(
                despues[id_producto as int].cantidad,
            )
            &&& forall|k: int|
                0 <= k < antes.len() && k != id_producto ==> despues[k] == antes[k]
            &&& forall|otro: AccountId|
                s.inventarios.contains_key(otro) && otro != vendedor ==> t.inventarios[otro]
                    == s.inventarios[otro]
        }),
{
    let vendedor = s.publicaciones[s.publicacion_de(id_producto)].id_vendedor;
    lema_alguno_tiene_primero(s.inventarios[vendedor], con_id(id_producto));
}

/// An order for more units than the listing has available is answered with
/// `ProductoSinStock` and changes nothing: neither a listing nor an inventory.
/// The buyer is registered and some listing offers the product.
pub proof fn ley_orden_sin_stock(
    s: EstadoMercado,
    comprador: AccountId,
    id_producto: u64,
    cantidad: u64,
)
    requires
        s.usuarios.contains_key(comprador),
        alguno(s.publicaciones, de_producto(id_producto)),
        cantidad > s.publicaciones[s.publicacion_de(id_producto)].disponibles,
    ensures
        s.resultado_alta_orden(comprador, id_producto, cantidad) == Err::<u64, Errores>(
            Errores::ProductoSinStock,
        ),
        s.tras_alta_orden(comprador, id_producto, cantidad) == s,
{
}

/// A refused order, whatever the reason, leaves the ledger as it was.
pub proof fn ley_orden_rechazada(
    s: EstadoMercado,
    comprador: AccountId,
    id_producto: u64,
    cantidad: u64,
)
    requires
        s.resultado_alta_orden(comprador, id_producto, cantidad) is Err,
    ensures
        s.tras_alta_orden(comprador, id_producto, cantidad) == s,
{
}

/// The id of a new order is the number of orders placed before it. The order
/// stands last, pending, with the buyer, the product and the quantity of the
/// call and the seller of the listing; the earlier orders stay as they were.
pub proof fn ley_orden_nueva(
    s: EstadoMercado,
    comprador: AccountId,
    id_producto: u64,
    cantidad: u64,
)
    requires
        s.ordenes.len() <= u64::MAX,
        s.resultado_alta_orden(comprador, id_producto, cantidad) is Ok,
    ensures
        ({
            let t = s.tras_alta_orden(comprador, id_producto, cantidad);
            let o = t.ordenes.last();
            &&& s.resultado_alta_orden(comprador, id_producto, cantidad) == Ok::<u64, Errores>(
                o.id_orden,
            )
            &&& t.ordenes.len() == s.ordenes.len() + 1
            &&& t.ordenes.drop_last() == s.ordenes
            &&& o.id_orden == s.ordenes.len()
            &&& o.id_comprador == comprador
            &&& o.id_vendedor == s.publicaciones[s.publicacion_de(id_producto)].id_vendedor
            &&& o.id_producto == id_producto
            &&& o.cantidad == cantidad
            &&& o.cantidad > 0
            &&& o.estado == EstadoOrden::Pendiente
        }),
{
}

/// Order ids count up from zero without a gap: in a valid ledger the id of
/// each order is its position, so an earlier order has the smaller id.
pub proof fn ley_ids_de_orden(s: EstadoMercado)
    requires
        s.valido(),
    ensures
        forall|k: int| 0 <= k < s.ordenes.len() ==> (#[trigger] s.ordenes[k]).id_orden == k,
        forall|j: int, k: int|
            0 <= j < k < s.ordenes.len() ==> (#[trigger] s.ordenes[j]).id_orden < (
            #[trigger] s.ordenes[k]).id_orden,
{
}

/// Of two orders placed one after the other, the second gets the id that
/// follows the first one's.
pub proof fn ley_ordenes_consecutivas(
    s: EstadoMercado,
    comprador_1: AccountId,
    id_producto_1: u64,
    cantidad_1: u64,
    comprador_2: AccountId,
    id_producto_2: u64,
    cantidad_2: u64,
)
    requires
        s.ordenes.len() < u64::MAX,
        s.resultado_alta_orden(comprador_1, id_producto_1, cantidad_1) is Ok,
        s.tras_alta_orden(comprador_1, id_producto_1, cantidad_1).resultado_alta_orden(
            comprador_2,
            id_producto_2,
            cantidad_2,
        ) is Ok,
    ensures
        s.tras_alta_orden(comprador_1, id_producto_1, cantidad_1).resultado_alta_orden(
            comprador_2,
            id_producto_2,
            cantidad_2,
        ).unwrap() == s.resultado_alta_orden(comprador_1, id_producto_1, cantidad_1).unwrap() + 1,
{
}

/// Asking twice in a row for the same role is refused the second time with
/// `ConflictoRol`, for every registered user.
pub proof fn ley_cambio_rol_repetido(s: EstadoMercado, id: AccountId, rol: Roles)
    requires
        s.usuarios.contains_key(id),
    ensures
        s.tras_cambio_rol(id, rol).resultado_cambio_rol(id, rol) == Err::<bool, Errores>(
            Errores::ConflictoRol,
        ),
{
}

/// A change of role touches neither the products of an inventory nor the
/// user's name or national id.
pub proof fn ley_cambio_rol_conserva_datos(s: EstadoMercado, id: AccountId, rol: Roles)
    requires
        s.resultado_cambio_rol(id, rol) is Ok,
    ensures
        ({
            let t = s.tras_cambio_rol(id, rol);
            &&& t.usuarios[id].rol == rol
            &&& t.usuarios[id].nombre == s.usuarios[id].nombre
            &&& t.usuarios[id].dni == s.usuarios[id].dni
            &&& forall|otro: AccountId|
                s.inventarios.contains_key(otro) ==> t.inventarios.contains_key(otro)
                    && t.inventarios[otro] == s.inventarios[otro]
        }),
{
}

/// The national id on file for an identity never changes: neither a
/// registration nor a change of role touches it.
pub proof fn ley_dni_inmutable(
    s: EstadoMercado,
    otro: AccountId,
    nombre: Seq<char>,
    dni: u64,
    id: AccountId,
    rol: Roles,
)
    requires
        s.usuarios.contains_key(otro),
    ensures
        s.tras_alta_usuario(nombre, dni, id, rol).usuarios.contains_key(otro),
        s.tras_alta_usuario(nombre, dni, id, rol).usuarios[otro].dni == s.usuarios[otro].dni,
        s.tras_cambio_rol(id, rol).usuarios.contains_key(otro),
        s.tras_cambio_rol(id, rol).usuarios[otro].dni == s.usuarios[otro].dni,
{
}

} // verus!
