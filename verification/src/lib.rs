//! A transactional marketplace ledger: users, the products they own, the
//! listings they publish and the purchase orders placed against them.
//!
//! Every operation either commits all of its effects or none of them. The
//! ledger's state is described by a mathematical model (`modelo`), and each
//! operation of `Marketplace` is proved to compute exactly the answer and the
//! next state that the model prescribes.
//!
//! - `cuenta`, `roles`, `errores`, `usuario`, `producto`, `inventario`,
//!   `publicacion`, `orden`: the records and the rules that concern one
//!   record alone.
//! - `modelo`: the state of the ledger and the effect of each operation on it.
//! - `marketplace`: the ledger itself.
//! - `invariantes`, `leyes`, `historia`: what holds of the model, and so of
//!   the ledger: the valid states are never left, and what each operation
//!   guarantees.
//! - `busqueda`, `asociacion`: first positions in a sequence, and maps kept as
//!   sequences of keys and values.

pub mod cuenta;
pub mod errores;
pub mod roles;
pub mod usuario;
pub mod producto;
pub mod busqueda;
pub mod asociacion;
pub mod inventario;
pub mod publicacion;
pub mod orden;
pub mod modelo;
pub mod invariantes;
pub mod marketplace;
pub mod leyes;
pub mod historia;
