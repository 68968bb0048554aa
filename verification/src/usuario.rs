//! Users of the marketplace.

use vstd::prelude::*;
use crate::cuenta::AccountId;
use crate::roles::{rol_puede_vender, Roles};

verus! {

/// A registered person: a name, a national id, the identity that acts for
/// them, a role, and the ratings received so far.
#[derive(Debug)]
pub struct Usuario {
    pub nombre: String,
    pub dni: u64,
    pub id: AccountId,
    pub rol: Roles,
    pub calificaciones: Vec<u8>,
}

/// What a `Usuario` holds, as mathematical values.
pub struct UsuarioView {
    pub nombre: Seq<char>,
    pub dni: u64,
    pub id: AccountId,
    pub rol: Roles,
    pub calificaciones: Seq<u8>,
}

impl View for Usuario {
    type V = UsuarioView;

    open spec fn view(&self) -> UsuarioView {
        UsuarioView {
            nombre: self.nombre@,
            dni: self.dni,
            id: self.id,
            rol: self.rol,
            calificaciones: self.calificaciones@,
        }
    }
}

impl UsuarioView {
    /// The user as it is right after registration: no ratings yet.
    pub open spec fn nuevo(nombre: Seq<char>, dni: u64, id: AccountId, rol: Roles) -> UsuarioView {
        UsuarioView { nombre, dni, id, rol, calificaciones: Seq::empty() }
    }

    /// The same user under another role.
    pub open spec fn con_rol(self, rol: Roles) -> UsuarioView {
        UsuarioView { rol, ..self }
    }
}

impl Clone for Usuario {
    fn clone(&self) -> (r: Usuario)
        ensures
            r@ == self@,
    {
        Usuario {
            nombre: self.nombre.clone(),
            dni: self.dni,
            id: self.id,
            rol: self.rol,
            calificaciones: self.calificaciones.clone(),
        }
    }
}

impl Usuario {
    /// Builds a user with no ratings.
    pub fn new(nom: String, dni_in: u64, id_in: AccountId, r: Roles) -> (u: Usuario)
        ensures
            u@ == UsuarioView::nuevo(nom@, dni_in, id_in, r),
            u.nombre == nom,
    {
        Usuario { nombre: nom, dni: dni_in, id: id_in, rol: r, calificaciones: Vec::new() }
    }

    /// Replaces the role and nothing else.
    pub fn obtener_nuevo_rol(&mut self, r: Roles)
        ensures
            final(self)@ == old(self)@.con_rol(r),
    {
        self.rol = r;
    }

    /// Tells whether the user's role allows selling.
    pub fn puede_vender(&self) -> (r: bool)
        ensures
            r == rol_puede_vender(self@.rol),
    {
        self.rol.puede_vender()
    }

    /// The current role.
    pub fn get_rol(&self) -> (r: Roles)
        ensures
            r == self@.rol,
    {
        self.rol
    }

    /// The identity that acts for the user.
    pub fn get_id(&self) -> (r: AccountId)
        ensures
            r == self@.id,
    {
        self.id
    }

    /// The name.
    pub fn get_nom(&self) -> (r: String)
        ensures
            r@ == self@.nombre,
    {
        self.nombre.clone()
    }

    /// The national id.
    pub fn get_dni(&self) -> (r: u64)
        ensures
            r == self@.dni,
    {
        self.dni
    }
}

} // verus!
