//! Roles, and what a role allows.

use vstd::prelude::*;

verus! {

/// The role of a user.
#[derive(Clone, Copy, Debug, PartialEq, Eq, Structural)]
pub enum Roles {
    Comprador,
    Vendedor,
    CompradorVendedor,
}

/// A role can sell when it is `Vendedor` or `CompradorVendedor`.
pub open spec fn rol_puede_vender(rol: Roles) -> bool {
    rol == Roles::Vendedor || rol == Roles::CompradorVendedor
}

impl Roles {
    /// Tells whether the role allows owning an inventory and selling from it.
    pub fn puede_vender(&self) -> (r: bool)
        ensures
            r == rol_puede_vender(*self),
    {
        match self {
            Roles::Comprador => false,
            Roles::Vendedor => true,
            Roles::CompradorVendedor => true,
        }
    }
}

} // verus!
