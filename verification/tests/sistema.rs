use marketplace::cuenta::AccountId;
use marketplace::errores::Errores;
use marketplace::marketplace::Marketplace;
use marketplace::orden::EstadoOrden;
use marketplace::producto::Categoria;
use marketplace::roles::Roles;

fn alice() -> AccountId {
    AccountId::from([1; 32])
}

fn bob() -> AccountId {
    AccountId::from([2; 32])
}

fn iniciar_contrato() -> Marketplace {
    Marketplace::new()
}

#[test]
fn test_alta_orden_todos_los_casos() {
    let mut contrato = iniciar_contrato();
    let result = contrato.alta_orden(alice(), 1, 1);
    assert_eq!(result, Err(Errores::CompradorNoEncontrado));
    let creado = contrato.crear_usuario(alice(), "Comprador".to_string(), 1111, Roles::Comprador);
    assert_eq!(creado, Ok(true));
    let result2 = contrato.alta_orden(alice(), 99, 1);
    assert_eq!(result2, Err(Errores::ProductoNoEncontrado));
    let creado_vend = contrato.crear_usuario(bob(), "Vendedor".to_string(), 2222, Roles::Vendedor);
    assert_eq!(creado_vend, Ok(true));
    let agregar = contrato.agregar_producto(bob(), 10, "mouse".to_string(), Categoria::Electronica);
    assert_eq!(agregar, Ok(true));
    let publica =
        contrato.crear_publicacion(bob(), 0, "mouse".to_string(), "rapido".to_string(), 100, 10);
    assert_eq!(publica, Ok(true));
    let inventario = contrato.get_inventario(bob()).expect("deberia tener inventario");
    let producto_mouse = inventario
        .listado_productos
        .iter()
        .find(|p| p.nombre == "mouse")
        .expect("deberia existir");
    let id_producto_mouse = producto_mouse.id;
    let stock_insuf = contrato.alta_orden(alice(), id_producto_mouse, 20);
    assert_eq!(stock_insuf, Err(Errores::ProductoSinStock));
    let ok = contrato.alta_orden(alice(), id_producto_mouse, 2);
    assert_eq!(ok, Ok(0));
}

#[test]
fn test_crear_usuario() {
    let mut contrato = iniciar_contrato();
    let mut resultado =
        contrato.crear_usuario(alice(), "juancito".to_string(), 12345678, Roles::Comprador);
    assert!(resultado.is_ok());
    resultado = contrato.crear_usuario(alice(), "".to_string(), 12345678, Roles::Comprador);
    assert_eq!(resultado, Err(Errores::NombreNulo));
    resultado = contrato.crear_usuario(alice(), "juancarlo".to_string(), 0, Roles::Comprador);
    assert_eq!(resultado, Err(Errores::DniNulo));
    resultado = contrato.crear_usuario(alice(), "juancito".to_string(), 12345678, Roles::Comprador);
    assert_eq!(resultado, Err(Errores::UsuarioExistente));
}

#[test]
fn test_cambiar_rol() {
    let mut contrato = iniciar_contrato();
    let creado = contrato.crear_usuario(alice(), "anita".to_string(), 12345678, Roles::Comprador);
    assert_eq!(creado, Ok(true));
    let mut resultado = contrato.cambiar_rol(alice(), Roles::Vendedor);
    assert_eq!(resultado, Ok(true));
    resultado = contrato.cambiar_rol(alice(), Roles::Vendedor);
    assert_eq!(resultado, Err(Errores::ConflictoRol));
}

#[test]
fn test_agregar_producto_ok() {
    let mut contrato = iniciar_contrato();
    let creado = contrato.crear_usuario(alice(), "bob".to_string(), 12345678, Roles::Vendedor);
    assert_eq!(creado, Ok(true));
    let mut resultado =
        contrato.agregar_producto(alice(), 10, "teclado".to_string(), Categoria::Electronica);
    assert_eq!(resultado, Ok(true));
    let repetido = contrato.crear_usuario(alice(), "bob".to_string(), 12345678, Roles::Comprador);
    assert_eq!(repetido, Err(Errores::UsuarioExistente));
    resultado =
        contrato.agregar_producto(alice(), 10, "teclado".to_string(), Categoria::Electronica);
    assert_eq!(resultado, Ok(true));
    let inventario = contrato.get_inventario(alice()).unwrap();
    assert_eq!(inventario.listado_productos.len(), 2);
    assert_eq!(inventario.listado_productos[0].id, 0);
    assert_eq!(inventario.listado_productos[1].id, 1);
}

#[test]
fn test_crear_publicacion_sin_producto() {
    let mut contrato = iniciar_contrato();
    let creado = contrato.crear_usuario(alice(), "carlos".to_string(), 12345678, Roles::Vendedor);
    assert_eq!(creado, Ok(true));
    let resultado = contrato.crear_publicacion(
        alice(),
        0,
        "mouse".to_string(),
        "buen mouse".to_string(),
        1000,
        10,
    );
    assert_eq!(resultado, Err(Errores::ProductoNoEncontrado));
}

#[test]
fn test_hacer_orden_sin_usuario() {
    let mut contrato = iniciar_contrato();
    let resultado = contrato.hacer_orden(alice(), 0, 1);
    assert_eq!(resultado, Err(Errores::CompradorNoEncontrado));
}

#[test]
fn test_flujo_completo_e2e() {
    let mut contrato = Marketplace::new();
    let res_comprador = contrato.crear_usuario(alice(), "Alice".to_string(), 1111, Roles::Comprador);
    assert_eq!(res_comprador, Ok(true));
    let res_vendedor = contrato.crear_usuario(bob(), "Bob".to_string(), 2222, Roles::Vendedor);
    assert_eq!(res_vendedor, Ok(true));
    let agregar_producto =
        contrato.agregar_producto(bob(), 10, "teclado".to_string(), Categoria::Electronica);
    assert_eq!(agregar_producto, Ok(true));
    let crear_publicacion = contrato.crear_publicacion(
        bob(),
        1752796800000,
        "teclado".to_string(),
        "teclado mecánico de alta calidad".to_string(),
        1000,
        10,
    );
    assert_eq!(crear_publicacion, Ok(true));
    let hacer_orden = contrato.hacer_orden(alice(), 0, 5);
    assert_eq!(hacer_orden, Ok(true));
    let publi = contrato.get_publicacion(0).expect("la publicacion debe existir");
    assert_eq!(publi.disponibles, 5);
    let orden = contrato.get_orden(0).expect("la orden debe existir");
    assert_eq!(orden.id_comprador, alice());
    assert_eq!(orden.id_producto, 0);
    assert_eq!(orden.cantidad, 5);
    assert_eq!(orden.estado, EstadoOrden::Pendiente);
}
