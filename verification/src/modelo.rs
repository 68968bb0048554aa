//! The ledger as a mathematical value, and what each operation answers and
//! leaves behind.
//!
//! For every operation there are two functions: `resultado_..` gives the
//! answer, and `tras_..` the state after the call. A refused operation leaves
//! the state as it was.

use vstd::prelude::*;
use crate::asociacion::mapa;
use crate::busqueda::{alguno, primero};
use crate::cuenta::AccountId;
use crate::errores::Errores;
use crate::inventario::{
    con_nombre, ids_en_orden, resultado_descuento, tras_descuento, DepositoView,
};
use crate::orden::{resultado_transicion, EstadoOrden, OrdenCompra};
use crate::producto::{Categoria, ProductoView};
use crate::publicacion::{Balance, PublicacionView, Timestamp};
use crate::roles::{rol_puede_vender, Roles};
use crate::usuario::UsuarioView;

verus! {

/// The state of the ledger: the users and the inventories by identity, the
/// listings and the orders by position.
pub struct EstadoMercado {
    pub usuarios: Map<AccountId, UsuarioView>,
    pub inventarios: Map<AccountId, Seq<ProductoView>>,
    pub publicaciones: Seq<PublicacionView>,
    pub ordenes: Seq<OrdenCompra>,
}

/// The identities of the given users, in the same order.
pub open spec fn identidades(usuarios: Seq<UsuarioView>) -> Seq<AccountId> {
    usuarios.map_values(|u: UsuarioView| u.id)
}

/// The owners of the given inventories, in the same order.
pub open spec fn duenios(depositos: Seq<DepositoView>) -> Seq<AccountId> {
    depositos.map_values(|d: DepositoView| d.duenio)
}

/// The products of the given inventories, in the same order.
pub open spec fn contenidos(depositos: Seq<DepositoView>) -> Seq<Seq<ProductoView>> {
    depositos.map_values(|d: DepositoView| d.inventario)
}

/// The property of offering the product with the id `id`.
pub open spec fn de_producto(id: u64) -> spec_fn(PublicacionView) -> bool {
    |p: PublicacionView| p.producto.id == id
}

impl EstadoMercado {
    /// The ledger before anything happened.
    pub open spec fn vacio() -> EstadoMercado {
        EstadoMercado {
            usuarios: Map::empty(),
            inventarios: Map::empty(),
            publicaciones: Seq::empty(),
            ordenes: Seq::empty(),
        }
    }

    /// The ledger that holds the given users, inventories, listings and
    /// orders.
    pub open spec fn de_registros(
        usuarios: Seq<UsuarioView>,
        depositos: Seq<DepositoView>,
        publicaciones: Seq<PublicacionView>,
        ordenes: Seq<OrdenCompra>,
    ) -> EstadoMercado {
        EstadoMercado {
            usuarios: mapa(identidades(usuarios), usuarios),
            inventarios: mapa(duenios(depositos), contenidos(depositos)),
            publicaciones,
            ordenes,
        }
    }

    /// The given records make up a valid ledger: no identity occurs twice
    /// among the users, none twice among the owners of the inventories, and
    /// the ledger that holds the records is valid.
    pub open spec fn registros_validos(
        usuarios: Seq<UsuarioView>,
        depositos: Seq<DepositoView>,
        publicaciones: Seq<PublicacionView>,
        ordenes: Seq<OrdenCompra>,
    ) -> bool {
        &&& identidades(usuarios).no_duplicates()
        &&& duenios(depositos).no_duplicates()
        &&& EstadoMercado::de_registros(usuarios, depositos, publicaciones, ordenes).valido()
    }

    /// The user has a name and a national id other than zero, and owns an
    /// inventory if their role can sell.
    pub open spec fn usuario_valido(self, u: UsuarioView) -> bool {
        &&& u.nombre.len() > 0
        &&& u.dni != 0
        &&& rol_puede_vender(u.rol) ==> self.inventarios.contains_key(u.id)
    }

    /// Every user is filed under their own identity, has a name and a national
    /// id other than zero, and owns an inventory if their role can sell.
    pub open spec fn usuarios_validos(self) -> bool {
        forall|id: AccountId| #[trigger]
            self.usuarios.contains_key(id) ==> self.usuarios[id].id == id && self.usuario_valido(
                self.usuarios[id],
            )
    }

    /// Every inventory belongs to a user, and numbers its products from zero
    /// in the order in which they were added.
    pub open spec fn inventarios_validos(self) -> bool {
        forall|id: AccountId| #[trigger]
            self.inventarios.contains_key(id) ==> self.usuarios.contains_key(id) && ids_en_orden(
                self.inventarios[id],
            )
    }

    /// The listing offers a product of its seller's inventory: the seller owns
    /// an inventory, and the product that it numbers like the listing's copy
    /// has the copy's name and category.
    pub open spec fn publicacion_valida(self, p: PublicacionView) -> bool {
        &&& self.inventarios.contains_key(p.id_vendedor)
        &&& p.producto.id < self.inventarios[p.id_vendedor].len()
        &&& self.inventarios[p.id_vendedor][p.producto.id as int].nombre == p.producto.nombre
        &&& self.inventarios[p.id_vendedor][p.producto.id as int].categoria
            == p.producto.categoria
    }

    /// Every listing offers a product of its seller's inventory.
    pub open spec fn publicaciones_validas(self) -> bool {
        forall|i: int|
            0 <= i < self.publicaciones.len() ==> self.publicacion_valida(
                #[trigger] self.publicaciones[i],
            )
    }

    /// The order is for at least one unit of a product of its seller's
    /// inventory, and its buyer is registered.
    pub open spec fn orden_valida(self, o: OrdenCompra) -> bool {
        &&& o.cantidad > 0
        &&& self.usuarios.contains_key(o.id_comprador)
        &&& self.inventarios.contains_key(o.id_vendedor)
        &&& o.id_producto < self.inventarios[o.id_vendedor].len()
    }

    /// Every order's id is its position; every order is for at least one unit
    /// of a product of its seller's inventory, and its buyer is registered.
    pub open spec fn ordenes_validas(self) -> bool {
        forall|k: int|
            0 <= k < self.ordenes.len() ==> (#[trigger] self.ordenes[k]).id_orden == k
                && self.orden_valida(self.ordenes[k])
    }

    /// What holds of the ledger between any two operations.
    pub open spec fn valido(self) -> bool {
        &&& self.usuarios_validos()
        &&& self.inventarios_validos()
        &&& self.publicaciones_validas()
        &&& self.ordenes_validas()
    }

    /// The inventories once `id` is sure to own one: an empty one is added
    /// where `id` owned none, and nothing differs where it did.
    pub open spec fn con_inventario(self, id: AccountId) -> Map<AccountId, Seq<ProductoView>> {
        if self.inventarios.contains_key(id) {
            self.inventarios
        } else {
            self.inventarios.insert(id, Seq::empty())
        }
    }

    /// What registering a user answers.
    pub open spec fn resultado_alta_usuario(
        self,
        nombre: Seq<char>,
        dni: u64,
        id: AccountId,
    ) -> Result<bool, Errores> {
        if nombre.len() == 0 {
            Err(Errores::NombreNulo)
        } else if dni == 0 {
            Err(Errores::DniNulo)
        } else if self.usuarios.contains_key(id) {
            if self.usuarios[id].dni != dni {
                Err(Errores::ConflictoDni)
            } else {
                Err(Errores::UsuarioExistente)
            }
        } else {
            Ok(true)
        }
    }

    /// The ledger after registering a user: the user is filed under `id`, and
    /// owns an inventory if `rol` can sell.
    pub open spec fn tras_alta_usuario(
        self,
        nombre: Seq<char>,
        dni: u64,
        id: AccountId,
        rol: Roles,
    ) -> EstadoMercado {
        if self.resultado_alta_usuario(nombre, dni, id) is Ok {
            EstadoMercado {
                usuarios: self.usuarios.insert(id, UsuarioView::nuevo(nombre, dni, id, rol)),
                inventarios: if rol_puede_vender(rol) {
                    self.con_inventario(id)
                } else {
                    self.inventarios
                },
                ..self
            }
        } else {
            self
        }
    }

    /// What changing the role of `id` answers.
    pub open spec fn resultado_cambio_rol(
        self,
        id: AccountId,
        rol: Roles,
    ) -> Result<bool, Errores> {
        if !self.usuarios.contains_key(id) {
            Err(Errores::UsuarioInexistente)
        } else if self.usuarios[id].rol == rol {
            Err(Errores::ConflictoRol)
        } else {
            Ok(true)
        }
    }

    /// The ledger after changing the role of `id`: the user has the new role,
    /// and owns an inventory if the new role can sell. An inventory that the
    /// user owned before stays as it was, whatever the new role.
    pub open spec fn tras_cambio_rol(self, id: AccountId, rol: Roles) -> EstadoMercado {
        if self.resultado_cambio_rol(id, rol) is Ok {
            EstadoMercado {
                usuarios: self.usuarios.insert(id, self.usuarios[id].con_rol(rol)),
                inventarios: if rol_puede_vender(rol) {
                    self.con_inventario(id)
                } else {
                    self.inventarios
                },
                ..self
            }
        } else {
            self
        }
    }

    /// What adding a product to the inventory of `id` answers.
    pub open spec fn resultado_agregar_producto(self, id: AccountId) -> Result<bool, Errores> {
        if !self.usuarios.contains_key(id) {
            Err(Errores::UsuarioInexistente)
        } else if self.usuarios[id].rol == Roles::Comprador {
            Err(Errores::PermisoDenegado)
        } else if !self.inventarios.contains_key(id) {
            Err(Errores::SinInventario)
        } else {
            Ok(true)
        }
    }

    /// The ledger after adding a product to the inventory of `id`: the product
    /// stands last there, and its id is the number of products that the
    /// inventory held before.
    pub open spec fn tras_agregar_producto(
        self,
        id: AccountId,
        stock_total: u64,
        nombre: Seq<char>,
        categoria: Categoria,
    ) -> EstadoMercado {
        if self.resultado_agregar_producto(id) is Ok {
            let inv = self.inventarios[id];
            EstadoMercado {
                inventarios: self.inventarios.insert(
                    id,
                    inv.push(
                        ProductoView {
                            id: inv.len() as u64,
                            nombre,
                            categoria,
                            cantidad: stock_total,
                        },
                    ),
                ),
                ..self
            }
        } else {
            self
        }
    }

    /// What publishing a listing answers: on success, the position of the new
    /// listing.
    pub open spec fn resultado_alta_publicacion(
        self,
        id: AccountId,
        nombre_producto: Seq<char>,
    ) -> Result<u64, Errores> {
        if !self.usuarios.contains_key(id) {
            Err(Errores::UsuarioInexistente)
        } else if !self.inventarios.contains_key(id) {
            Err(Errores::SinInventario)
        } else if !alguno(self.inventarios[id], con_nombre(nombre_producto)) {
            Err(Errores::ProductoNoEncontrado)
        } else {
            Ok(self.publicaciones.len() as u64)
        }
    }

    /// The ledger after publishing a listing: the new listing stands last, and
    /// holds a copy of the first product of that name in the seller's
    /// inventory.
    pub open spec fn tras_alta_publicacion(
        self,
        id: AccountId,
        nombre_producto: Seq<char>,
        fecha: Timestamp,
        descripcion: Seq<char>,
        precio: Balance,
        stock_inicial: u64,
    ) -> EstadoMercado {
        if self.resultado_alta_publicacion(id, nombre_producto) is Ok {
            let inv = self.inventarios[id];
            EstadoMercado {
                publicaciones: self.publicaciones.push(
                    PublicacionView {
                        id_vendedor: id,
                        producto: inv[primero(inv, con_nombre(nombre_producto))],
                        descripcion,
                        fecha,
                        precio,
                        disponibles: stock_inicial,
                    },
                ),
                ..self
            }
        } else {
            self
        }
    }

    /// What replacing the description of the listing at `indice` answers. An
    /// empty description is refused whatever the position; a position without
    /// a listing is answered with `ProductoNoEncontrado`.
    pub open spec fn resultado_cambio_descripcion(
        self,
        indice: u64,
        descripcion: Seq<char>,
    ) -> Result<bool, Errores> {
        if descripcion.len() == 0 {
            Err(Errores::ProductoSinDescripcion)
        } else if indice >= self.publicaciones.len() {
            Err(Errores::ProductoNoEncontrado)
        } else {
            Ok(true)
        }
    }

    /// The ledger after replacing the description of the listing at `indice`.
    pub open spec fn tras_cambio_descripcion(
        self,
        indice: u64,
        descripcion: Seq<char>,
    ) -> EstadoMercado {
        if self.resultado_cambio_descripcion(indice, descripcion) is Ok {
            EstadoMercado {
                publicaciones: self.publicaciones.update(
                    indice as int,
                    self.publicaciones[indice as int].con_descripcion(descripcion),
                ),
                ..self
            }
        } else {
            self
        }
    }

    /// What replacing the price of the listing at `indice` answers. A price of
    /// zero is refused whatever the position; a position without a listing is
    /// answered with `ProductoNoEncontrado`.
    pub open spec fn resultado_cambio_precio(
        self,
        indice: u64,
        precio: Balance,
    ) -> Result<bool, Errores> {
        if precio == 0 {
            Err(Errores::PrecioNulo)
        } else if indice >= self.publicaciones.len() {
            Err(Errores::ProductoNoEncontrado)
        } else {
            Ok(true)
        }
    }

    /// The ledger after replacing the price of the listing at `indice`.
    pub open spec fn tras_cambio_precio(self, indice: u64, precio: Balance) -> EstadoMercado {
        if self.resultado_cambio_precio(indice, precio) is Ok {
            EstadoMercado {
                publicaciones: self.publicaciones.update(
                    indice as int,
                    self.publicaciones[indice as int].con_precio(precio),
                ),
                ..self
            }
        } else {
            self
        }
    }

    /// The position of the listing that an order for the product `id_producto`
    /// is placed against: the first one that offers a product with that id.
    pub open spec fn publicacion_de(self, id_producto: u64) -> int {
        primero(self.publicaciones, de_producto(id_producto))
    }

    /// What placing an order answers: on success, the id of the new order.
    ///
    /// The buyer must be registered and some listing must offer the product.
    /// The quantity must not be zero, and it must be covered by what the
    /// listing has available and by what the seller's inventory holds of the
    /// product.
    pub open spec fn resultado_alta_orden(
        self,
        comprador: AccountId,
        id_producto: u64,
        cantidad: u64,
    ) -> Result<u64, Errores> {
        if !self.usuarios.contains_key(comprador) {
            Err(Errores::CompradorNoEncontrado)
        } else if !alguno(self.publicaciones, de_producto(id_producto)) {
            Err(Errores::ProductoNoEncontrado)
        } else {
            let p = self.publicaciones[self.publicacion_de(id_producto)];
            if cantidad > p.disponibles || cantidad == 0 {
                Err(Errores::ProductoSinStock)
            } else if !self.inventarios.contains_key(p.id_vendedor) {
                Err(Errores::VendedorNoEncontrado)
            } else {
                match resultado_descuento(self.inventarios[p.id_vendedor], cantidad, id_producto) {
                    Err(e) => Err(e),
                    Ok(_) => Ok(self.ordenes.len() as u64),
                }
            }
        }
    }

    /// The ledger after placing an order: the listing has that many units
    /// fewer available, the seller's inventory holds that many units fewer of
    /// the product, and a pending order stands last, its id being its
    /// position.
    pub open spec fn tras_alta_orden(
        self,
        comprador: AccountId,
        id_producto: u64,
        cantidad: u64,
    ) -> EstadoMercado {
        if self.resultado_alta_orden(comprador, id_producto, cantidad) is Ok {
            let i = self.publicacion_de(id_producto);
            let p = self.publicaciones[i];
            EstadoMercado {
                usuarios: self.usuarios,
                inventarios: self.inventarios.insert(
                    p.id_vendedor,
                    tras_descuento(self.inventarios[p.id_vendedor], cantidad, id_producto),
                ),
                publicaciones: self.publicaciones.update(i, p.tras_reserva(cantidad)),
                ordenes: self.ordenes.push(
                    OrdenCompra::pendiente(
                        self.ordenes.len() as u64,
                        comprador,
                        p.id_vendedor,
                        id_producto,
                        cantidad,
                    ),
                ),
            }
        } else {
            self
        }
    }

    /// What the user `actor` is answered on asking to move the order at
    /// `indice` to `estado_nuevo`.
    pub open spec fn resultado_cambio_estado(
        self,
        actor: AccountId,
        indice: u64,
        estado_nuevo: EstadoOrden,
    ) -> Result<bool, Errores> {
        if !self.usuarios.contains_key(actor) {
            Err(Errores::UsuarioInexistente)
        } else if indice >= self.ordenes.len() {
            Err(Errores::OrdenNoExistente)
        } else {
            resultado_transicion(self.usuarios[actor].rol, estado_nuevo)
        }
    }

    /// The ledger after the user `actor` asked to move the order at `indice`
    /// to `estado_nuevo`.
    pub open spec fn tras_cambio_estado(
        self,
        actor: AccountId,
        indice: u64,
        estado_nuevo: EstadoOrden,
    ) -> EstadoMercado {
        if self.resultado_cambio_estado(actor, indice, estado_nuevo) is Ok {
            EstadoMercado {
                ordenes: self.ordenes.update(
                    indice as int,
                    self.ordenes[indice as int].con_estado(estado_nuevo),
                ),
                ..self
            }
        } else {
            self
        }
    }
}

} // verus!
