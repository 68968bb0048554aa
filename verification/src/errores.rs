//! The failures that an operation of the ledger can report.

use vstd::prelude::*;

verus! {

/// Why an operation was refused. A refused operation changes nothing.
#[derive(Clone, Copy, Debug, PartialEq, Eq, Structural)]
pub enum Errores {
    /// The caller is not a buyer. No operation of the ledger answers with it.
    NoEsComprador,
    /// The name of a user is empty.
    NombreNulo,
    /// The identity is already registered, with the same national id.
    UsuarioExistente,
    /// The identity is already registered, with another national id.
    ConflictoDni,
    /// No user is registered under the identity.
    UsuarioInexistente,
    /// The requested role is the one the user already has.
    ConflictoRol,
    /// A cancellation needs the agreement of both parties.
    ConsentimientoFaltante,
    /// The caller's role does not allow the operation.
    PermisoDenegado,
    /// No order stands at the given position.
    OrdenNoExistente,
    /// No product, or no listing, matches the request.
    ProductoNoEncontrado,
    /// The buyer of an order is not registered.
    CompradorNoEncontrado,
    /// The stock does not cover the requested quantity, or the quantity is zero.
    ProductoSinStock,
    /// The description of a listing is empty.
    ProductoSinDescripcion,
    /// The price of a listing is zero.
    PrecioNulo,
    /// The caller is not a seller. No operation of the ledger answers with it.
    NoEsVendedor,
    /// The seller of a listing owns no inventory. A well-formed ledger never
    /// answers with it.
    VendedorNoEncontrado,
    /// The user owns no inventory.
    SinInventario,
    /// The national id of a user is zero.
    DniNulo,
}

} // verus!
