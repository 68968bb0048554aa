use marketplace::cuenta::AccountId;
use marketplace::errores::Errores;
use marketplace::inventario::Inventario;
use marketplace::orden::{EstadoOrden, OrdenCompra};
use marketplace::producto::{Categoria, Producto};
use marketplace::publicacion::Publicacion;
use marketplace::roles::Roles;
use marketplace::usuario::Usuario;

fn crear_id(n: u8) -> AccountId {
    AccountId::from([n; 32])
}

#[test]
fn test_para_new_prod() {
    let p: Producto = Producto::new(1, "mesa".to_string(), Categoria::Hogar, 10);
    assert_eq!(p.id, 1);
    assert_ne!(p.id, 4);
    assert_eq!(p.nombre, "mesa".to_string());
    assert_ne!(p.nombre, "silla".to_string());
}

#[test]
fn test_para_get_producto() {
    let p: Producto = Producto::new(1, "lavandina".to_string(), Categoria::Limpieza, 10);
    let copia = p.get_producto();
    assert_eq!(p.id, copia.id);
    assert_eq!(p.nombre, copia.nombre);
}

#[test]
fn test_usuario_puede_vender() {
    let comprador = Usuario::new("A".to_string(), 1, crear_id(1), Roles::Comprador);
    let vendedor = Usuario::new("B".to_string(), 2, crear_id(1), Roles::Vendedor);
    assert_eq!(comprador.puede_vender(), false);
    assert_eq!(vendedor.puede_vender(), true);
}

#[test]
fn test_crear_orden_valida() {
    let orden = OrdenCompra::crear_orden(1, crear_id(1), crear_id(1), 10, 5);
    assert!(orden.is_ok());
    let orden = orden.unwrap();
    assert_eq!(orden.id_comprador, crear_id(1));
    assert_eq!(orden.cantidad, 5);
    assert_eq!(orden.estado, EstadoOrden::Pendiente);
}

#[test]
fn test_crear_orden_cantidad_cero() {
    let orden = OrdenCompra::crear_orden(1, crear_id(1), crear_id(1), 10, 0);
    assert_eq!(orden, Err(Errores::ProductoSinStock));
}

#[test]
fn test_cambiar_estado_por_comprador() {
    match OrdenCompra::crear_orden(1, crear_id(1), crear_id(1), 10, 2) {
        Ok(mut orden) => {
            let usuario = Usuario::new("comprador".to_string(), 100, crear_id(2), Roles::Comprador);
            let resultado = orden.cambiar_estado(usuario, EstadoOrden::Enviado);
            assert_eq!(resultado, Ok(true));
            assert_eq!(orden.estado, EstadoOrden::Enviado);
        }
        Err(e) => panic!("fallo orden {:?}", e),
    }
}

#[test]
fn test_cambiar_estado_permiso_denegado() {
    let mut orden = OrdenCompra::crear_orden(1, crear_id(1), crear_id(1), 10, 2).unwrap();
    let usuario = Usuario::new("otro".to_string(), 101, crear_id(1), Roles::Vendedor);
    let resultado = orden.cambiar_estado(usuario, EstadoOrden::Enviado);
    assert_eq!(resultado, Err(Errores::PermisoDenegado));
}

#[test]
fn test_alta_publicacion_y_cambiar_descripcion() {
    let prod = Producto::new(1, "mouse".to_string(), Categoria::Electronica, 20);
    let mut pub1 = Publicacion::alta_publicacion(crear_id(1), prod, String::from("bueno"), 123, 1000, 10);
    let resultado = pub1.cambiar_descripcion(String::from("nuevo modelo"));
    assert_eq!(resultado, Ok(true));
    assert_eq!(pub1.descripcion, "nuevo modelo");
    let resultado = pub1.cambiar_descripcion("".to_string());
    assert_eq!(resultado, Err(Errores::ProductoSinDescripcion));
    assert!(pub1.descontar_stock(2).is_ok());
    assert!(pub1.descontar_stock(25).is_err());
}

#[test]
fn test_cambiar_precio_valido() {
    let prod = Producto::new(1, "monitor".to_string(), Categoria::Electronica, 20);
    let mut pub1 = Publicacion::alta_publicacion(crear_id(1), prod, String::from("HD"), 123, 500, 10);
    let mut resultado = pub1.cambiar_precio(800);
    assert_eq!(resultado, Ok(true));
    assert_eq!(pub1.precio, 800);
    resultado = pub1.cambiar_precio(0);
    assert_eq!(resultado, Err(Errores::PrecioNulo));
}

#[test]
fn test_inventario_descontar_stock_ok() {
    let prod = Producto::new(1, "camiseta".to_string(), Categoria::Deporte, 10);
    let mut inventario = Inventario { listado_productos: vec![prod] };
    let mut resultado = inventario.descontar_stock_inventario(5, 1);
    assert_eq!(resultado, Ok(true));
    assert_eq!(inventario.listado_productos[0].cantidad, 5);
    resultado = inventario.descontar_stock_inventario(5, 1);
    assert_eq!(resultado, Ok(true));
    resultado = inventario.descontar_stock_inventario(1, 999);
    assert_eq!(resultado, Err(Errores::ProductoNoEncontrado));
    resultado = inventario.descontar_stock_inventario(20, 1);
    assert_eq!(resultado, Err(Errores::ProductoSinStock));
}
