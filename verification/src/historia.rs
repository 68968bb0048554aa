//! The ledger under any sequence of operations.
//!
//! An `Operacion` names one call with its arguments. Whatever calls are made,
//! and whether they succeed or not, the ledger stays valid, nothing that was
//! recorded is lost, and what identifies a record never changes.

use vstd::prelude::*;
use crate::busqueda::lema_alguno_tiene_primero;
use crate::cuenta::AccountId;
use crate::invariantes::{
    ley_agregar_producto_conserva, ley_alta_orden_conserva, ley_alta_publicacion_conserva,
    ley_alta_usuario_conserva, ley_cambio_descripcion_conserva, ley_cambio_estado_conserva,
    ley_cambio_precio_conserva, ley_cambio_rol_conserva,
};
use crate::inventario::con_id;
use crate::modelo::{de_producto, EstadoMercado};
use crate::orden::EstadoOrden;
use crate::producto::Categoria;
use crate::publicacion::{Balance, Timestamp};
use crate::roles::Roles;

verus! {

/// One call to the ledger, with its arguments.
pub enum Operacion {
    AltaUsuario { nombre: Seq<char>, dni: u64, id: AccountId, rol: Roles },
    CambioRol { id: AccountId, rol: Roles },
    AgregarProducto { id: AccountId, stock_total: u64, nombre: Seq<char>, categoria: Categoria },
    AltaPublicacion {
        id: AccountId,
        nombre_producto: Seq<char>,
        fecha: Timestamp,
        descripcion: Seq<char>,
        precio: Balance,
        stock_inicial: u64,
    },
    CambioDescripcion { indice: u64, descripcion: Seq<char> },
    CambioPrecio { indice: u64, precio: Balance },
    AltaOrden { comprador: AccountId, id_producto: u64, cantidad: u64 },
    CambioEstado { actor: AccountId, indice: u64, estado_nuevo: EstadoOrden },
}

impl EstadoMercado {
    /// The ledger after the call `op`.
    pub open spec fn tras(self, op: Operacion) -> EstadoMercado {
        match op {
            Operacion::AltaUsuario { nombre, dni, id, rol } => self.tras_alta_usuario(
                nombre,
                dni,
                id,
                rol,
            ),
            Operacion::CambioRol { id, rol } => self.tras_cambio_rol(id, rol),
            Operacion::AgregarProducto {
                id,
                stock_total,
                nombre,
                categoria,
            } => self.tras_agregar_producto(id, stock_total, nombre, categoria),
            Operacion::AltaPublicacion {
                id,
                nombre_producto,
                fecha,
                descripcion,
                precio,
                stock_inicial,
            } => self.tras_alta_publicacion(
                id,
                nombre_producto,
                fecha,
                descripcion,
                precio,
                stock_inicial,
            ),
            Operacion::CambioDescripcion { indice, descripcion } => self.tras_cambio_descripcion(
                indice,
                descripcion,
            ),
            Operacion::CambioPrecio { indice, precio } => self.tras_cambio_precio(indice, precio),
            Operacion::AltaOrden { comprador, id_producto, cantidad } => self.tras_alta_orden(
                comprador,
                id_producto,
                cantidad,
            ),
            Operacion::CambioEstado { actor, indice, estado_nuevo } => self.tras_cambio_estado(
                actor,
                indice,
                estado_nuevo,
            ),
        }
    }

    /// The ledger after the calls `ops`, made in order.
    pub open spec fn tras_todas(self, ops: Seq<Operacion>) -> EstadoMercado
        decreases ops.len(),
    {
        if ops.len() == 0 {
            self
        } else {
            self.tras_todas(ops.drop_last()).tras(ops.last())
        }
    }

    /// No inventory holds more than `n` products, and there are no more than
    /// `n` listings and no more than `n` orders.
    pub open spec fn acotado(self, n: nat) -> bool {
        &&& self.publicaciones.len() <= n
        &&& self.ordenes.len() <= n
        &&& forall|id: AccountId| #[trigger]
            self.inventarios.contains_key(id) ==> self.inventarios[id].len() <= n
    }

    /// Everything that `self` records is still recorded in `t`, and what
    /// identifies a record is the same in both.
    ///
    /// A user keeps their identity, name and national id. An inventory keeps
    /// its owner and its products, each under its id, name and category, with
    /// no more units than before. A listing keeps its position, its seller,
    /// its copy of the product and its date, with no more units available
    /// than before. An order keeps everything but its state.
    pub open spec fn conservado_en(self, t: EstadoMercado) -> bool {
        &&& forall|id: AccountId| #[trigger]
            self.usuarios.contains_key(id) ==> {
                &&& t.usuarios.contains_key(id)
                &&& t.usuarios[id].id == self.usuarios[id].id
                &&& t.usuarios[id].nombre == self.usuarios[id].nombre
                &&& t.usuarios[id].dni == self.usuarios[id].dni
            }
        &&& forall|id: AccountId| #[trigger]
            self.inventarios.contains_key(id) ==> {
                &&& t.inventarios.contains_key(id)
                &&& self.inventarios[id].len() <= t.inventarios[id].len()
            }
        &&& forall|id: AccountId, k: int|
            self.inventarios.contains_key(id) && 0 <= k < self.inventarios[id].len() ==> {
                let antes = #[trigger] self.inventarios[id][k];
                let despues = t.inventarios[id][k];
                &&& despues.id == antes.id
                &&& despues.nombre == antes.nombre
                &&& despues.categoria == antes.categoria
                &&& despues.cantidad <= antes.cantidad
            }
        &&& self.publicaciones.len() <= t.publicaciones.len()
        &&& forall|i: int|
            0 <= i < self.publicaciones.len() ==> {
                let antes = #[trigger] self.publicaciones[i];
                let despues = t.publicaciones[i];
                &&& despues.id_vendedor == antes.id_vendedor
                &&& despues.producto == antes.producto
                &&& despues.fecha == antes.fecha
                &&& despues.disponibles <= antes.disponibles
            }
        &&& self.ordenes.len() <= t.ordenes.len()
        &&& forall|k: int|
            0 <= k < self.ordenes.len() ==> t.ordenes[k] == (#[trigger] self.ordenes[k]).con_estado(
                t.ordenes[k].estado,
            )
    }
}

/// No call leads out of the valid states of the ledger, as long as the
/// inventories, the listings and the orders have room for one more entry
/// within the range of the ids.
pub proof fn ley_paso_conserva(s: EstadoMercado, op: Operacion, n: nat)
    requires
        s.valido(),
        s.acotado(n),
        n <= u64::MAX,
    ensures
        s.tras(op).valido(),
        s.tras(op).acotado(n + 1),
{
    match op {
        Operacion::AltaUsuario { nombre, dni, id, rol } => {
            ley_alta_usuario_conserva(s, nombre, dni, id, rol);
        },
        Operacion::CambioRol { id, rol } => {
            ley_cambio_rol_conserva(s, id, rol);
        },
        Operacion::AgregarProducto { id, stock_total, nombre, categoria } => {
            ley_agregar_producto_conserva(s, id, stock_total, nombre, categoria);
        },
        Operacion::AltaPublicacion {
            id,
            nombre_producto,
            fecha,
            descripcion,
            precio,
            stock_inicial,
        } => {
            ley_alta_publicacion_conserva(
                s,
                id,
                nombre_producto,
                fecha,
                descripcion,
                precio,
                stock_inicial,
            );
        },
        Operacion::CambioDescripcion { indice, descripcion } => {
            ley_cambio_descripcion_conserva(s, indice, descripcion);
        },
        Operacion::CambioPrecio { indice, precio } => {
            ley_cambio_precio_conserva(s, indice, precio);
        },
        Operacion::AltaOrden { comprador, id_producto, cantidad } => {
            ley_alta_orden_conserva(s, comprador, id_producto, cantidad);
            if s.resultado_alta_orden(comprador, id_producto, cantidad) is Ok {
                lema_alguno_tiene_primero(s.publicaciones, de_producto(id_producto));
                let p = s.publicaciones[s.publicacion_de(id_producto)];
                lema_alguno_tiene_primero(s.inventarios[p.id_vendedor], con_id(id_producto));
            }
        },
        Operacion::CambioEstado { actor, indice, estado_nuevo } => {
            ley_cambio_estado_conserva(s, actor, indice, estado_nuevo);
        },
    }
}

/// Whatever calls are made on the empty ledger, the ledger is valid after
/// them, as long as their number fits the range of the ids.
pub proof fn ley_historia_valida(ops: Seq<Operacion>)
    requires
        ops.len() <= u64::MAX,
    ensures
        EstadoMercado::vacio().tras_todas(ops).valido(),
        EstadoMercado::vacio().tras_todas(ops).acotado(ops.len()),
    decreases ops.len(),
{
    if ops.len() > 0 {
        ley_historia_valida(ops.drop_last());
        ley_paso_conserva(
            EstadoMercado::vacio().tras_todas(ops.drop_last()),
            ops.last(),
            ops.drop_last().len(),
        );
    }
}

/// No call loses a record or changes what identifies one.
pub proof fn ley_paso_no_pierde(s: EstadoMercado, op: Operacion)
    requires
        s.valido(),
    ensures
        s.conservado_en(s.tras(op)),
{
    match op {
        Operacion::AltaOrden { comprador, id_producto, cantidad } => {
            if s.resultado_alta_orden(comprador, id_producto, cantidad) is Ok {
                lema_alguno_tiene_primero(s.publicaciones, de_producto(id_producto));
                let p = s.publicaciones[s.publicacion_de(id_producto)];
                lema_alguno_tiene_primero(s.inventarios[p.id_vendedor], con_id(id_producto));
            }
        },
        _ => {},
    }
}

/// Whatever calls are made on a valid ledger, no record is lost and what
/// identifies a record stays, as long as the ledger has room for the calls
/// within the range of the ids.
pub proof fn ley_historia_no_pierde(s: EstadoMercado, ops: Seq<Operacion>, n: nat)
    requires
        s.valido(),
        s.acotado(n),
        n + ops.len() <= u64::MAX,
    ensures
        s.tras_todas(ops).valido(),
        s.tras_todas(ops).acotado(n + ops.len()),
        s.conservado_en(s.tras_todas(ops)),
    decreases ops.len(),
{
    if ops.len() > 0 {
        let antes = s.tras_todas(ops.drop_last());
        ley_historia_no_pierde(s, ops.drop_last(), n);
        ley_paso_conserva(antes, ops.last(), n + ops.drop_last().len());
        ley_paso_no_pierde(antes, ops.last());
    }
}

} // verus!
