//! The ledger itself.

use vstd::prelude::*;
use crate::asociacion::{lema_mapa_en, lema_mapa_push, lema_mapa_update, sin_repetidos};
use crate::busqueda::{alguno, lema_primero_unico};
use crate::cuenta::AccountId;
use crate::errores::Errores;
use crate::inventario::{ids_en_orden, tras_descuento, Deposito, DepositoView, Inventario};
use crate::invariantes::{
    ley_agregar_producto_conserva, ley_alta_orden_conserva, ley_alta_orden_errores,
    ley_alta_publicacion_conserva, ley_alta_usuario_conserva, ley_cambio_descripcion_conserva,
    ley_cambio_estado_conserva, ley_cambio_precio_conserva, ley_cambio_rol_conserva,
};
use crate::leyes::ley_orden_no_aumenta_disponibles;
use crate::modelo::{contenidos, de_producto, duenios, identidades, EstadoMercado};
use crate::orden::{EstadoOrden, OrdenCompra};
use crate::producto::{Categoria, Producto, ProductoView};
use crate::publicacion::{Balance, Publicacion, PublicacionView, Timestamp};
use crate::roles::Roles;
use crate::usuario::{Usuario, UsuarioView};

verus! {

/// The ledger: users, inventories, listings and orders. Users and inventories
/// are found by identity, listings and orders by position.
pub struct Marketplace {
    usuarios: Vec<Usuario>,
    inventarios: Vec<Deposito>,
    publicaciones: Vec<Publicacion>,
    ordenes_de_compra: Vec<OrdenCompra>,
}

/// What the given users hold, as mathematical values.
pub open spec fn vistas_usuarios(usuarios: Seq<Usuario>) -> Seq<UsuarioView> {
    usuarios.map_values(|u: Usuario| u@)
}

/// What the given inventories hold, as mathematical values.
pub open spec fn vistas_depositos(depositos: Seq<Deposito>) -> Seq<DepositoView> {
    depositos.map_values(|d: Deposito| d@)
}

/// What the given listings hold, as mathematical values.
pub open spec fn vistas_publicaciones(publicaciones: Seq<Publicacion>) -> Seq<PublicacionView> {
    publicaciones.map_values(|p: Publicacion| p@)
}

impl View for Marketplace {
    type V = EstadoMercado;

    closed spec fn view(&self) -> EstadoMercado {
        EstadoMercado::de_registros(
            vistas_usuarios(self.usuarios@),
            vistas_depositos(self.inventarios@),
            vistas_publicaciones(self.publicaciones@),
            self.ordenes_de_compra@,
        )
    }
}

impl Marketplace {
    spec fn claves_usuarios(&self) -> Seq<AccountId> {
        identidades(vistas_usuarios(self.usuarios@))
    }

    spec fn valores_usuarios(&self) -> Seq<UsuarioView> {
        vistas_usuarios(self.usuarios@)
    }

    spec fn claves_inventarios(&self) -> Seq<AccountId> {
        duenios(vistas_depositos(self.inventarios@))
    }

    spec fn valores_inventarios(&self) -> Seq<Seq<ProductoView>> {
        contenidos(vistas_depositos(self.inventarios@))
    }

    spec fn valores_publicaciones(&self) -> Seq<PublicacionView> {
        vistas_publicaciones(self.publicaciones@)
    }

    /// No identity is filed twice, neither among the users nor among the
    /// inventories.
    pub closed spec fn representa(&self) -> bool {
        &&& self.claves_usuarios().no_duplicates()
        &&& self.claves_inventarios().no_duplicates()
    }

    /// The ledger is well formed: it stands for a valid state.
    pub open spec fn wf(&self) -> bool {
        &&& self.representa()
        &&& self@.valido()
    }

    /// The empty ledger.
    pub fn new() -> (r: Marketplace)
        ensures
            r.wf(),
            r@ == EstadoMercado::vacio(),
    {
        let r = Marketplace {
            usuarios: Vec::new(),
            inventarios: Vec::new(),
            publicaciones: Vec::new(),
            ordenes_de_compra: Vec::new(),
        };
        proof {
            assert(r@.usuarios =~= Map::empty());
            assert(r@.inventarios =~= Map::empty());
            assert(r@.publicaciones =~= Seq::empty());
        }
        r
    }

    /// The position at which the user `id` is filed.
    fn posicion_usuario(&self, id: &AccountId) -> (r: Option<usize>)
        requires
            self.representa(),
        ensures
            r is Some <==> self@.usuarios.contains_key(*id),
            r matches Some(i) ==> i < self.usuarios.len() && self.usuarios[i as int].id == *id
                && self.usuarios[i as int]@ == self@.usuarios[*id],
    {
        let mut i: usize = 0;
        while i < self.usuarios.len()
            invariant
                i <= self.usuarios.len(),
                self.representa(),
                forall|j: int| 0 <= j < i ==> self.claves_usuarios()[j] != *id,
            decreases self.usuarios.len() - i,
        {
            if self.usuarios[i].id.es_igual(id) {
                proof {
                    lema_mapa_en(self.claves_usuarios(), self.valores_usuarios(), i as int);
                }
                return Some(i);
            }
            i = i + 1;
        }
        None
    }

    /// The position at which the inventory of `id` is filed.
    fn posicion_inventario(&self, id: &AccountId) -> (r: Option<usize>)
        requires
            self.representa(),
        ensures
            r is Some <==> self@.inventarios.contains_key(*id),
            r matches Some(j) ==> j < self.inventarios.len() && self.inventarios[j as int].duenio
                == *id && self.inventarios[j as int].inventario@ == self@.inventarios[*id],
    {
        let mut j: usize = 0;
        while j < self.inventarios.len()
            invariant
                j <= self.inventarios.len(),
                self.representa(),
                forall|k: int| 0 <= k < j ==> self.claves_inventarios()[k] != *id,
            decreases self.inventarios.len() - j,
        {
            if self.inventarios[j].duenio.es_igual(id) {
                proof {
                    lema_mapa_en(self.claves_inventarios(), self.valores_inventarios(), j as int);
                }
                return Some(j);
            }
            j = j + 1;
        }
        None
    }

    /// The position of the first listing that offers the product
    /// `id_producto`.
    fn posicion_publicacion(&self, id_producto: u64) -> (r: Option<usize>)
        ensures
            r is Some <==> alguno(self@.publicaciones, de_producto(id_producto)),
            r matches Some(i) ==> i < self.publicaciones.len() && i == self@.publicacion_de(
                id_producto,
            ),
    {
        let mut i: usize = 0;
        while i < self.publicaciones.len()
            invariant
                i <= self.publicaciones.len(),
                forall|j: int|
                    0 <= j < i ==> !#[trigger] de_producto(id_producto)(self@.publicaciones[j]),
            decreases self.publicaciones.len() - i,
        {
            if self.publicaciones[i].producto.id == id_producto {
                proof {
                    lema_primero_unico(self@.publicaciones, de_producto(id_producto), i as int);
                }
                return Some(i);
            }
            i = i + 1;
        }
        None
    }

    /// Makes sure that `id` owns an inventory: an empty one is filed where it
    /// owned none. Users, listings and orders stay as they are.
    fn asegurar_inventario(&mut self, id: AccountId)
        requires
            old(self).representa(),
        ensures
            final(self).representa(),
            final(self).usuarios == old(self).usuarios,
            final(self).publicaciones == old(self).publicaciones,
            final(self).ordenes_de_compra == old(self).ordenes_de_compra,
            final(self)@.inventarios == old(self)@.con_inventario(id),
    {
        if self.posicion_inventario(&id).is_none() {
            let deposito = Deposito { duenio: id, inventario: Inventario::new() };
            proof {
                lema_mapa_push(
                    self.claves_inventarios(),
                    self.valores_inventarios(),
                    id,
                    deposito.inventario@,
                );
            }
            self.inventarios.push(deposito);
            proof {
                assert(self.claves_inventarios() =~= old(self).claves_inventarios().push(id));
            }
        }
    }

    /// Registers a user under the identity `id`, and files an empty inventory
    /// for them if `rol` can sell.
    ///
    /// Fails with `NombreNulo` on an empty name and with `DniNulo` on a
    /// national id of zero. Where `id` is registered already, fails with
    /// `ConflictoDni` if the national id on file differs from `dni`, and with
    /// `UsuarioExistente` if it is the same.
    pub fn alta_usuario(
        &mut self,
        nombre: String,
        dni: u64,
        id: AccountId,
        rol: Roles,
    ) -> (r: Result<bool, Errores>)
        requires
            old(self).wf(),
        ensures
            final(self).wf(),
            r == old(self)@.resultado_alta_usuario(nombre@, dni, id),
            final(self)@ == old(self)@.tras_alta_usuario(nombre@, dni, id, rol),
            r is Ok ==> final(self)@.usuarios.contains_key(id) && final(self)@.usuarios[id]
                == UsuarioView::nuevo(nombre@, dni, id, rol),
            r is Err ==> final(self)@ == old(self)@,
    {
        if nombre.as_str().is_empty() {
            return Err(Errores::NombreNulo);
        }
        if dni == 0 {
            return Err(Errores::DniNulo);
        }
        if let Some(i) = self.posicion_usuario(&id) {
            if self.usuarios[i].get_dni() != dni {
                return Err(Errores::ConflictoDni);
            } else {
                return Err(Errores::UsuarioExistente);
            }
        }
        let user = Usuario::new(nombre, dni, id, rol);
        if user.puede_vender() {
            self.asegurar_inventario(id);
        }
        proof {
            lema_mapa_push(self.claves_usuarios(), self.valores_usuarios(), id, user@);
        }
        self.usuarios.push(user);
        proof {
            assert(self.claves_usuarios() =~= old(self).claves_usuarios().push(id));
            assert(self.valores_usuarios() =~= old(self).valores_usuarios().push(user@));
            ley_alta_usuario_conserva(old(self)@, nombre@, dni, id, rol);
        }
        Ok(true)
    }

    /// Registers the caller as a user.
    pub fn crear_usuario(
        &mut self,
        caller: AccountId,
        nombre: String,
        dni: u64,
        rol: Roles,
    ) -> (r: Result<bool, Errores>)
        requires
            old(self).wf(),
        ensures
            final(self).wf(),
            r == old(self)@.resultado_alta_usuario(nombre@, dni, caller),
            final(self)@ == old(self)@.tras_alta_usuario(nombre@, dni, caller, rol),
            r is Err ==> final(self)@ == old(self)@,
    {
        self.alta_usuario(nombre, dni, caller, rol)
    }

    /// Gives the caller the role `rol_nuevo`, and files an empty inventory for
    /// them if that role can sell and they own none. An inventory that they own
    /// already stays as it is, also where the new role cannot sell.
    ///
    /// Fails with `UsuarioInexistente` where the caller is not registered, and
    /// with `ConflictoRol` where `rol_nuevo` is the role they have.
    pub fn cambiar_de_rol(
        &mut self,
        caller: AccountId,
        rol_nuevo: Roles,
    ) -> (r: Result<bool, Errores>)
        requires
            old(self).wf(),
        ensures
            final(self).wf(),
            r == old(self)@.resultado_cambio_rol(caller, rol_nuevo),
            final(self)@ == old(self)@.tras_cambio_rol(caller, rol_nuevo),
            r is Err ==> final(self)@ == old(self)@,
    {
        match self.posicion_usuario(&caller) {
            None => Err(Errores::UsuarioInexistente),
            Some(i) => {
                if self.usuarios[i].get_rol() == rol_nuevo {
                    Err(Errores::ConflictoRol)
                } else {
                    proof {
                        lema_mapa_update(
                            self.claves_usuarios(),
                            self.valores_usuarios(),
                            i as int,
                            self.usuarios[i as int]@.con_rol(rol_nuevo),
                        );
                    }
                    self.usuarios[i].obtener_nuevo_rol(rol_nuevo);
                    proof {
                        assert(self.claves_usuarios() =~= old(self).claves_usuarios());
                        assert(self.valores_usuarios() =~= old(self).valores_usuarios().update(
                            i as int,
                            old(self).usuarios[i as int]@.con_rol(rol_nuevo),
                        ));
                    }
                    if rol_nuevo.puede_vender() {
                        self.asegurar_inventario(caller);
                    }
                    proof {
                        ley_cambio_rol_conserva(old(self)@, caller, rol_nuevo);
                    }
                    Ok(true)
                }
            },
        }
    }

    /// Gives the caller the role `rol_nuevo`.
    pub fn cambiar_rol(&mut self, caller: AccountId, rol_nuevo: Roles) -> (r: Result<bool, Errores>)
        requires
            old(self).wf(),
        ensures
            final(self).wf(),
            r == old(self)@.resultado_cambio_rol(caller, rol_nuevo),
            final(self)@ == old(self)@.tras_cambio_rol(caller, rol_nuevo),
            r is Err ==> final(self)@ == old(self)@,
    {
        self.cambiar_de_rol(caller, rol_nuevo)
    }

    /// Appends a product with the id `id_producto` to the caller's inventory.
    /// The id is the number of products that the inventory holds.
    ///
    /// Fails with `UsuarioInexistente` where the caller is not registered, with
    /// `PermisoDenegado` where they are a buyer only, and with `SinInventario`
    /// where they own no inventory.
    fn agregar_producto_inventario(
        &mut self,
        caller: AccountId,
        id_producto: u64,
        stock_total: u64,
        nombre: String,
        categoria: Categoria,
    ) -> (r: Result<bool, Errores>)
        requires
            old(self).wf(),
            old(self)@.inventarios.contains_key(caller) ==> id_producto
                == old(self)@.inventarios[caller].len(),
        ensures
            final(self).wf(),
            r == old(self)@.resultado_agregar_producto(caller),
            final(self)@ == old(self)@.tras_agregar_producto(
                caller,
                stock_total,
                nombre@,
                categoria,
            ),
            r is Err ==> final(self)@ == old(self)@,
    {
        match self.posicion_usuario(&caller) {
            None => Err(Errores::UsuarioInexistente),
            Some(i) => {
                match self.usuarios[i].get_rol() {
                    Roles::Comprador => Err(Errores::PermisoDenegado),
                    _ => {
                        match self.posicion_inventario(&caller) {
                            // Never taken: in a well-formed ledger a user whose role can
                            // sell owns an inventory.
                            None => Err(Errores::SinInventario),
                            Some(j) => {
                                let producto = Producto::new(
                                    id_producto,
                                    nombre,
                                    categoria,
                                    stock_total,
                                );
                                let ghost antes = self.inventarios[j as int].inventario@;
                                proof {
                                    lema_mapa_update(
                                        self.claves_inventarios(),
                                        self.valores_inventarios(),
                                        j as int,
                                        antes.push(producto@),
                                    );
                                }
                                self.inventarios[j].inventario.listado_productos.push(producto);
                                proof {
                                    assert(self.inventarios[j as int].inventario@ =~= antes.push(
                                        producto@,
                                    ));
                                    assert(self.claves_inventarios() =~= old(
                                        self,
                                    ).claves_inventarios());
                                    assert(self.valores_inventarios() =~= old(
                                        self,
                                    ).valores_inventarios().update(
                                        j as int,
                                        antes.push(producto@),
                                    ));
                                    ley_agregar_producto_conserva(
                                        old(self)@,
                                        caller,
                                        stock_total,
                                        nombre@,
                                        categoria,
                                    );
                                }
                                Ok(true)
                            },
                        }
                    },
                }
            },
        }
    }

    /// Adds a product with `stock_total` units to the caller's inventory. Its
    /// id is the number of products that the inventory held before.
    ///
    /// Fails with `UsuarioInexistente` where the caller is not registered, and
    /// with `PermisoDenegado` where they are a buyer only. A user with any
    /// other role owns an inventory, so nothing else can fail.
    pub fn agregar_producto(
        &mut self,
        caller: AccountId,
        stock_total: u64,
        nombre: String,
        categoria: Categoria,
    ) -> (r: Result<bool, Errores>)
        requires
            old(self).wf(),
        ensures
            final(self).wf(),
            r == old(self)@.resultado_agregar_producto(caller),
            final(self)@ == old(self)@.tras_agregar_producto(
                caller,
                stock_total,
                nombre@,
                categoria,
            ),
            r is Err ==> final(self)@ == old(self)@,
            old(self)@.usuarios.contains_key(caller) && old(self)@.usuarios[caller].rol
                == Roles::Comprador ==> r == Err::<bool, Errores>(Errores::PermisoDenegado)
                && final(self)@ == old(self)@,
            r matches Err(e) ==> e == Errores::UsuarioInexistente || e == Errores::PermisoDenegado,
    {
        let id_producto: u64 = match self.posicion_inventario(&caller) {
            Some(j) => self.inventarios[j].inventario.listado_productos.len() as u64,
            None => 0,
        };
        self.agregar_producto_inventario(caller, id_producto, stock_total, nombre, categoria)
    }

    /// Publishes a listing of the first product named `nombre_producto` in the
    /// inventory of `id_usuario`, with `stock_inicial` units available, and
    /// returns the listing's position. The listing holds a copy of the product
    /// as it stands now. Neither the description nor the price is checked.
    ///
    /// Fails with `UsuarioInexistente` where `id_usuario` is not registered,
    /// with `SinInventario` where they own no inventory, and with
    /// `ProductoNoEncontrado` where the inventory has no product of that name.
    pub fn alta_publicacion(
        &mut self,
        id_usuario: AccountId,
        nombre_producto: String,
        fecha: Timestamp,
        descripcion: String,
        precio: Balance,
        stock_inicial: u64,
    ) -> (r: Result<u64, Errores>)
        requires
            old(self).wf(),
        ensures
            final(self).wf(),
            r == old(self)@.resultado_alta_publicacion(id_usuario, nombre_producto@),
            final(self)@ == old(self)@.tras_alta_publicacion(
                id_usuario,
                nombre_producto@,
                fecha,
                descripcion@,
                precio,
                stock_inicial,
            ),
            r is Err ==> final(self)@ == old(self)@,
    {
        if self.posicion_usuario(&id_usuario).is_none() {
            return Err(Errores::UsuarioInexistente);
        }
        match self.posicion_inventario(&id_usuario) {
            None => Err(Errores::SinInventario),
            Some(j) => {
                match self.inventarios[j].inventario.buscar_por_nombre(&nombre_producto) {
                    None => Err(Errores::ProductoNoEncontrado),
                    Some(k) => {
                        let producto = self.inventarios[j].inventario.listado_productos[k].clone();
                        let indice: u64 = self.publicaciones.len() as u64;
                        let publi = Publicacion::alta_publicacion(
                            id_usuario,
                            producto,
                            descripcion,
                            fecha,
                            precio,
                            stock_inicial,
                        );
                        self.publicaciones.push(publi);
                        proof {
                            assert(self.valores_publicaciones() =~= old(
                                self,
                            ).valores_publicaciones().push(publi@));
                            ley_alta_publicacion_conserva(
                                old(self)@,
                                id_usuario,
                                nombre_producto@,
                                fecha,
                                descripcion@,
                                precio,
                                stock_inicial,
                            );
                        }
                        Ok(indice)
                    },
                }
            },
        }
    }

    /// Publishes a listing of the caller's product named `nombre_producto`, at
    /// the time `fecha`.
    pub fn crear_publicacion(
        &mut self,
        caller: AccountId,
        fecha: Timestamp,
        nombre_producto: String,
        descripcion: String,
        precio: Balance,
        stock_inicial: u64,
    ) -> (r: Result<bool, Errores>)
        requires
            old(self).wf(),
        ensures
            final(self).wf(),
            r == match old(self)@.resultado_alta_publicacion(caller, nombre_producto@) {
                Ok(_) => Ok::<bool, Errores>(true),
                Err(e) => Err(e),
            },
            final(self)@ == old(self)@.tras_alta_publicacion(
                caller,
                nombre_producto@,
                fecha,
                descripcion@,
                precio,
                stock_inicial,
            ),
            r is Err ==> final(self)@ == old(self)@,
    {
        match self.alta_publicacion(
            caller,
            nombre_producto,
            fecha,
            descripcion,
            precio,
            stock_inicial,
        ) {
            Ok(_) => Ok(true),
            Err(e) => Err(e),
        }
    }

    /// Replaces the description of the listing at `indice`.
    ///
    /// Fails with `ProductoSinDescripcion` on an empty description, and with
    /// `ProductoNoEncontrado` where no listing stands at `indice`.
    pub fn cambiar_descripcion_publicacion(
        &mut self,
        indice: u64,
        nueva_descripcion: String,
    ) -> (r: Result<bool, Errores>)
        requires
            old(self).wf(),
        ensures
            final(self).wf(),
            r == old(self)@.resultado_cambio_descripcion(indice, nueva_descripcion@),
            final(self)@ == old(self)@.tras_cambio_descripcion(indice, nueva_descripcion@),
            r is Err ==> final(self)@ == old(self)@,
    {
        if nueva_descripcion.as_str().is_empty() {
            return Err(Errores::ProductoSinDescripcion);
        }
        if indice >= self.publicaciones.len() as u64 {
            return Err(Errores::ProductoNoEncontrado);
        }
        let r = self.publicaciones[indice as usize].cambiar_descripcion(nueva_descripcion);
        proof {
            assert(self.valores_publicaciones() =~= old(self).valores_publicaciones().update(
                indice as int,
                old(self)@.publicaciones[indice as int].con_descripcion(nueva_descripcion@),
            ));
            ley_cambio_descripcion_conserva(old(self)@, indice, nueva_descripcion@);
        }
        r
    }

    /// Replaces the price of the listing at `indice`.
    ///
    /// Fails with `PrecioNulo` on a price of zero, and with
    /// `ProductoNoEncontrado` where no listing stands at `indice`.
    pub fn cambiar_precio_publicacion(
        &mut self,
        indice: u64,
        nuevo_precio: Balance,
    ) -> (r: Result<bool, Errores>)
        requires
            old(self).wf(),
        ensures
            final(self).wf(),
            r == old(self)@.resultado_cambio_precio(indice, nuevo_precio),
            final(self)@ == old(self)@.tras_cambio_precio(indice, nuevo_precio),
            r is Err ==> final(self)@ == old(self)@,
    {
        if nuevo_precio == 0 {
            return Err(Errores::PrecioNulo);
        }
        if indice >= self.publicaciones.len() as u64 {
            return Err(Errores::ProductoNoEncontrado);
        }
        let r = self.publicaciones[indice as usize].cambiar_precio(nuevo_precio);
        proof {
            assert(self.valores_publicaciones() =~= old(self).valores_publicaciones().update(
                indice as int,
                old(self)@.publicaciones[indice as int].con_precio(nuevo_precio),
            ));
            ley_cambio_precio_conserva(old(self)@, indice, nuevo_precio);
        }
        r
    }

    /// Places an order of `id_usuario` for `cantidad` units of the product
    /// `id_producto`, against the first listing that offers a product with that
    /// id, and returns the order's id.
    ///
    /// On success the listing has `cantidad` units fewer available, the
    /// seller's inventory holds `cantidad` units fewer of the product, and a
    /// pending order stands last in the ledger, its id being its position. On
    /// failure nothing changes.
    ///
    /// Fails with `CompradorNoEncontrado` where `id_usuario` is not registered,
    /// with `ProductoNoEncontrado` where no listing offers the product, and
    /// with `ProductoSinStock` where `cantidad` is zero, exceeds what the
    /// listing has available, or exceeds what the inventory holds.
    pub fn alta_orden(
        &mut self,
        id_usuario: AccountId,
        id_producto: u64,
        cantidad: u64,
    ) -> (r: Result<u64, Errores>)
        requires
            old(self).wf(),
        ensures
            final(self).wf(),
            r == old(self)@.resultado_alta_orden(id_usuario, id_producto, cantidad),
            final(self)@ == old(self)@.tras_alta_orden(id_usuario, id_producto, cantidad),
            r is Err ==> final(self)@ == old(self)@,
            final(self)@.publicaciones.len() == old(self)@.publicaciones.len(),
            forall|k: int|
                0 <= k < old(self)@.publicaciones.len() ==> 0 <= (
                #[trigger] final(self)@.publicaciones[k]).disponibles
                    <= old(self)@.publicaciones[k].disponibles,
            r is Ok ==> final(self)@.publicaciones[old(self)@.publicacion_de(
                id_producto,
            )].disponibles == old(self)@.publicaciones[old(self)@.publicacion_de(
                id_producto,
            )].disponibles - cantidad,
            old(self)@.usuarios.contains_key(id_usuario) && alguno(
                old(self)@.publicaciones,
                de_producto(id_producto),
            ) && cantidad > old(self)@.publicaciones[old(self)@.publicacion_de(
                id_producto,
            )].disponibles ==> r == Err::<u64, Errores>(Errores::ProductoSinStock) && final(self)@
                == old(self)@,
            r matches Ok(id) ==> id == old(self)@.ordenes.len() && final(self)@.ordenes.len()
                == old(self)@.ordenes.len() + 1 && final(self)@.ordenes[id as int].id_orden == id
                && final(self)@.ordenes[id as int].estado == EstadoOrden::Pendiente,
            r matches Err(e) ==> e == Errores::CompradorNoEncontrado || e
                == Errores::ProductoNoEncontrado || e == Errores::ProductoSinStock,
    {
        proof {
            ley_alta_orden_errores(self@, id_usuario, id_producto, cantidad);
        }
        if self.posicion_usuario(&id_usuario).is_none() {
            return Err(Errores::CompradorNoEncontrado);
        }
        let i: usize = match self.posicion_publicacion(id_producto) {
            None => {
                return Err(Errores::ProductoNoEncontrado);
            },
            Some(i) => i,
        };
        if cantidad > self.publicaciones[i].disponibles {
            return Err(Errores::ProductoSinStock);
        }
        let id_vendedor = self.publicaciones[i].id_vendedor;
        let orden = match OrdenCompra::crear_orden(
            self.ordenes_de_compra.len() as u64,
            id_usuario,
            id_vendedor,
            id_producto,
            cantidad,
        ) {
            Err(e) => {
                return Err(e);
            },
            Ok(orden) => orden,
        };
        let j: usize = match self.posicion_inventario(&id_vendedor) {
            None => {
                // Never taken: in a well-formed ledger the seller of a listing owns an
                // inventory.
                return Err(Errores::VendedorNoEncontrado);
            },
            Some(j) => j,
        };
        let ghost inv = self.inventarios[j as int].inventario@;
        proof {
            lema_mapa_update(
                self.claves_inventarios(),
                self.valores_inventarios(),
                j as int,
                tras_descuento(inv, cantidad, id_producto),
            );
        }
        if let Err(e) = self.inventarios[j].inventario.descontar_stock_inventario(
            cantidad,
            id_producto,
        ) {
            proof {
                assert(self.valores_inventarios() =~= old(self).valores_inventarios());
                assert(self.claves_inventarios() =~= old(self).claves_inventarios());
            }
            return Err(e);
        }
        let _ = self.publicaciones[i].descontar_stock(cantidad);
        self.ordenes_de_compra.push(orden);
        proof {
            assert(self.claves_inventarios() =~= old(self).claves_inventarios());
            assert(self.valores_inventarios() =~= old(self).valores_inventarios().update(
                j as int,
                tras_descuento(inv, cantidad, id_producto),
            ));
            assert(self.valores_publicaciones() =~= old(self).valores_publicaciones().update(
                i as int,
                old(self)@.publicaciones[i as int].tras_reserva(cantidad),
            ));
            ley_alta_orden_conserva(old(self)@, id_usuario, id_producto, cantidad);
            ley_orden_no_aumenta_disponibles(old(self)@, id_usuario, id_producto, cantidad);
        }
        Ok(orden.id_orden)
    }

    /// Places an order of the caller for `cantidad` units of the product
    /// `id_producto`.
    pub fn hacer_orden(
        &mut self,
        caller: AccountId,
        id_producto: u64,
        cantidad: u64,
    ) -> (r: Result<bool, Errores>)
        requires
            old(self).wf(),
        ensures
            final(self).wf(),
            r == match old(self)@.resultado_alta_orden(caller, id_producto, cantidad) {
                Ok(_) => Ok::<bool, Errores>(true),
                Err(e) => Err(e),
            },
            final(self)@ == old(self)@.tras_alta_orden(caller, id_producto, cantidad),
            r is Err ==> final(self)@ == old(self)@,
    {
        match self.alta_orden(caller, id_producto, cantidad) {
            Ok(_) => Ok(true),
            Err(e) => Err(e),
        }
    }

    /// Moves the order with the id `indice` to `estado_nuevo` on behalf of the
    /// caller, where the caller's role allows it.
    ///
    /// Fails with `UsuarioInexistente` where the caller is not registered and
    /// with `OrdenNoExistente` where there is no such order; otherwise the
    /// caller's role and `estado_nuevo` decide.
    pub fn cambiar_estado_orden(
        &mut self,
        caller: AccountId,
        indice: u64,
        estado_nuevo: EstadoOrden,
    ) -> (r: Result<bool, Errores>)
        requires
            old(self).wf(),
        ensures
            final(self).wf(),
            r == old(self)@.resultado_cambio_estado(caller, indice, estado_nuevo),
            final(self)@ == old(self)@.tras_cambio_estado(caller, indice, estado_nuevo),
            r is Err ==> final(self)@ == old(self)@,
    {
        let u: usize = match self.posicion_usuario(&caller) {
            None => {
                return Err(Errores::UsuarioInexistente);
            },
            Some(u) => u,
        };
        if indice >= self.ordenes_de_compra.len() as u64 {
            return Err(Errores::OrdenNoExistente);
        }
        let usuario = self.usuarios[u].clone();
        let r = self.ordenes_de_compra[indice as usize].cambiar_estado(usuario, estado_nuevo);
        proof {
            if r is Err {
                assert(self.ordenes_de_compra@ =~= old(self).ordenes_de_compra@);
            }
            ley_cambio_estado_conserva(old(self)@, caller, indice, estado_nuevo);
        }
        r
    }

    /// The identities under which the users are filed, in order.
    fn identidades_de_usuarios(&self) -> (r: Vec<AccountId>)
        ensures
            r@ == self.claves_usuarios(),
    {
        let mut r: Vec<AccountId> = Vec::new();
        let mut i: usize = 0;
        while i < self.usuarios.len()
            invariant
                i <= self.usuarios.len(),
                r@ == self.claves_usuarios().take(i as int),
            decreases self.usuarios.len() - i,
        {
            r.push(self.usuarios[i].id);
            i = i + 1;
        }
        r
    }

    /// The identities under which the inventories are filed, in order.
    fn duenios_de_inventarios(&self) -> (r: Vec<AccountId>)
        ensures
            r@ == self.claves_inventarios(),
    {
        let mut r: Vec<AccountId> = Vec::new();
        let mut j: usize = 0;
        while j < self.inventarios.len()
            invariant
                j <= self.inventarios.len(),
                r@ == self.claves_inventarios().take(j as int),
            decreases self.inventarios.len() - j,
        {
            r.push(self.inventarios[j].duenio);
            j = j + 1;
        }
        r
    }

    /// Tells whether every user has a name and a national id other than zero,
    /// and owns an inventory if their role can sell.
    fn usuarios_en_regla(&self) -> (r: bool)
        requires
            self.representa(),
        ensures
            r == self@.usuarios_validos(),
    {
        let mut i: usize = 0;
        while i < self.usuarios.len()
            invariant
                i <= self.usuarios.len(),
                self.representa(),
                forall|k: int| 0 <= k < i ==> self@.usuario_valido(#[trigger] self.usuarios[k]@),
            decreases self.usuarios.len() - i,
        {
            let u = &self.usuarios[i];
            let en_regla = !u.nombre.as_str().is_empty() && u.dni != 0 && (!u.puede_vender()
                || self.posicion_inventario(&u.id).is_some());
            if !en_regla {
                proof {
                    lema_mapa_en(self.claves_usuarios(), self.valores_usuarios(), i as int);
                }
                return false;
            }
            i = i + 1;
        }
        proof {
            assert forall|id: AccountId| #[trigger]
                self@.usuarios.contains_key(id) implies self@.usuarios[id].id == id
                && self@.usuario_valido(self@.usuarios[id]) by {
                let k = self.claves_usuarios().index_of(id);
                assert(self@.usuarios[id] == self.usuarios[k]@);
            }
        }
        true
    }

    /// Tells whether every inventory belongs to a user and numbers its
    /// products by position.
    fn inventarios_en_regla(&self) -> (r: bool)
        requires
            self.representa(),
        ensures
            r == self@.inventarios_validos(),
    {
        let mut j: usize = 0;
        while j < self.inventarios.len()
            invariant
                j <= self.inventarios.len(),
                self.representa(),
                forall|k: int|
                    0 <= k < j ==> self@.usuarios.contains_key(
                        (#[trigger] self.inventarios[k]).duenio,
                    ) && ids_en_orden(self.inventarios[k].inventario@),
            decreases self.inventarios.len() - j,
        {
            let d = &self.inventarios[j];
            if self.posicion_usuario(&d.duenio).is_none() || !d.inventario.ids_en_orden() {
                proof {
                    assert(self.claves_inventarios()[j as int] == d.duenio);
                    assert(self@.inventarios.contains_key(d.duenio));
                }
                return false;
            }
            j = j + 1;
        }
        proof {
            assert forall|id: AccountId| #[trigger]
                self@.inventarios.contains_key(id) implies self@.usuarios.contains_key(id)
                && ids_en_orden(self@.inventarios[id]) by {
                let k = self.claves_inventarios().index_of(id);
                assert(self@.inventarios[id] == self.inventarios[k].inventario@);
            }
        }
        true
    }

    /// Tells whether the listing offers a product of its seller's inventory.
    fn publicacion_en_regla(&self, p: &Publicacion) -> (r: bool)
        requires
            self.representa(),
        ensures
            r == self@.publicacion_valida(p@),
    {
        match self.posicion_inventario(&p.id_vendedor) {
            None => false,
            Some(j) => {
                let productos = &self.inventarios[j].inventario.listado_productos;
                if p.producto.id < productos.len() as u64 {
                    let producto = &productos[p.producto.id as usize];
                    producto.nombre == p.producto.nombre && producto.categoria
                        == p.producto.categoria
                } else {
                    false
                }
            },
        }
    }

    /// Tells whether every listing offers a product of its seller's inventory.
    fn publicaciones_en_regla(&self) -> (r: bool)
        requires
            self.representa(),
        ensures
            r == self@.publicaciones_validas(),
    {
        let mut i: usize = 0;
        while i < self.publicaciones.len()
            invariant
                i <= self.publicaciones.len(),
                self.representa(),
                forall|k: int|
                    0 <= k < i ==> self@.publicacion_valida(#[trigger] self@.publicaciones[k]),
            decreases self.publicaciones.len() - i,
        {
            if !self.publicacion_en_regla(&self.publicaciones[i]) {
                assert(!self@.publicacion_valida(self@.publicaciones[i as int]));
                return false;
            }
            i = i + 1;
        }
        true
    }

    /// Tells whether the order is for at least one unit of a product of its
    /// seller's inventory, and its buyer is registered.
    fn orden_en_regla(&self, o: &OrdenCompra) -> (r: bool)
        requires
            self.representa(),
        ensures
            r == self@.orden_valida(*o),
    {
        if o.cantidad == 0 || self.posicion_usuario(&o.id_comprador).is_none() {
            return false;
        }
        match self.posicion_inventario(&o.id_vendedor) {
            None => false,
            Some(j) => o.id_producto < self.inventarios[j].inventario.listado_productos.len() as u64,
        }
    }

    /// Tells whether every order's id is its position, and every order is for
    /// at least one unit of a product of its seller's inventory and has a
    /// registered buyer.
    fn ordenes_en_regla(&self) -> (r: bool)
        requires
            self.representa(),
        ensures
            r == self@.ordenes_validas(),
    {
        let mut k: usize = 0;
        while k < self.ordenes_de_compra.len()
            invariant
                k <= self.ordenes_de_compra.len(),
                self.representa(),
                forall|j: int|
                    0 <= j < k ==> (#[trigger] self@.ordenes[j]).id_orden == j
                        && self@.orden_valida(self@.ordenes[j]),
            decreases self.ordenes_de_compra.len() - k,
        {
            let o = &self.ordenes_de_compra[k];
            if o.id_orden != k as u64 || !self.orden_en_regla(o) {
                assert(!(self@.ordenes[k as int].id_orden == k && self@.orden_valida(
                    self@.ordenes[k as int],
                )));
                return false;
            }
            k = k + 1;
        }
        true
    }

    /// Builds the ledger that holds the given records, as they were taken out
    /// of a ledger by `desarmar` and kept elsewhere. Returns `None` where the
    /// records do not make up a valid ledger.
    pub fn restaurar(
        usuarios: Vec<Usuario>,
        inventarios: Vec<Deposito>,
        publicaciones: Vec<Publicacion>,
        ordenes: Vec<OrdenCompra>,
    ) -> (r: Option<Marketplace>)
        ensures
            r is Some <==> EstadoMercado::registros_validos(
                vistas_usuarios(usuarios@),
                vistas_depositos(inventarios@),
                vistas_publicaciones(publicaciones@),
                ordenes@,
            ),
            r matches Some(m) ==> m.wf() && m@ == EstadoMercado::de_registros(
                vistas_usuarios(usuarios@),
                vistas_depositos(inventarios@),
                vistas_publicaciones(publicaciones@),
                ordenes@,
            ),
    {
        let m = Marketplace { usuarios, inventarios, publicaciones, ordenes_de_compra: ordenes };
        if !sin_repetidos(&m.identidades_de_usuarios()) {
            return None;
        }
        if !sin_repetidos(&m.duenios_de_inventarios()) {
            return None;
        }
        if m.usuarios_en_regla() && m.inventarios_en_regla() && m.publicaciones_en_regla()
            && m.ordenes_en_regla() {
            Some(m)
        } else {
            None
        }
    }

    /// Takes the ledger apart into its records: the users, the inventories
    /// with their owners, the listings and the orders. `restaurar` builds the
    /// same ledger from them again.
    pub fn desarmar(self) -> (r: (Vec<Usuario>, Vec<Deposito>, Vec<Publicacion>, Vec<OrdenCompra>))
        requires
            self.wf(),
        ensures
            EstadoMercado::registros_validos(
                vistas_usuarios(r.0@),
                vistas_depositos(r.1@),
                vistas_publicaciones(r.2@),
                r.3@,
            ),
            EstadoMercado::de_registros(
                vistas_usuarios(r.0@),
                vistas_depositos(r.1@),
                vistas_publicaciones(r.2@),
                r.3@,
            ) == self@,
    {
        (self.usuarios, self.inventarios, self.publicaciones, self.ordenes_de_compra)
    }

    /// The user registered under `id`, if there is one.
    pub fn get_usuario(&self, id: AccountId) -> (r: Option<Usuario>)
        requires
            self.wf(),
        ensures
            r is Some <==> self@.usuarios.contains_key(id),
            r matches Some(u) ==> u@ == self@.usuarios[id],
    {
        match self.posicion_usuario(&id) {
            Some(i) => Some(self.usuarios[i].clone()),
            None => None,
        }
    }

    /// The inventory that `id` owns, if there is one.
    pub fn get_inventario(&self, id: AccountId) -> (r: Option<Inventario>)
        requires
            self.wf(),
        ensures
            r is Some <==> self@.inventarios.contains_key(id),
            r matches Some(inv) ==> inv@ == self@.inventarios[id],
    {
        match self.posicion_inventario(&id) {
            Some(j) => Some(self.inventarios[j].inventario.clone()),
            None => None,
        }
    }

    /// The number of listings.
    pub fn cantidad_publicaciones(&self) -> (r: u64)
        ensures
            r == self@.publicaciones.len(),
    {
        self.publicaciones.len() as u64
    }

    /// The listing at the position `indice`, if there is one.
    pub fn get_publicacion(&self, indice: u64) -> (r: Option<Publicacion>)
        ensures
            r is Some <==> indice < self@.publicaciones.len(),
            r matches Some(p) ==> p@ == self@.publicaciones[indice as int],
    {
        if indice < self.publicaciones.len() as u64 {
            Some(self.publicaciones[indice as usize].clone())
        } else {
            None
        }
    }

    /// The number of orders.
    pub fn cantidad_ordenes(&self) -> (r: u64)
        ensures
            r == self@.ordenes.len(),
    {
        self.ordenes_de_compra.len() as u64
    }

    /// The order with the id `indice`, if there is one.
    pub fn get_orden(&self, indice: u64) -> (r: Option<OrdenCompra>)
        ensures
            r is Some <==> indice < self@.ordenes.len(),
            r matches Some(o) ==> o == self@.ordenes[indice as int],
    {
        if indice < self.ordenes_de_compra.len() as u64 {
            Some(self.ordenes_de_compra[indice as usize])
        } else {
            None
        }
    }
}

} // verus!
