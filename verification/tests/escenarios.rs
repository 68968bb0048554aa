use marketplace::cuenta::AccountId;
use marketplace::errores::Errores;
use marketplace::inventario::{Deposito, Inventario};
use marketplace::marketplace::Marketplace;
use marketplace::orden::{EstadoOrden, OrdenCompra};
use marketplace::producto::{Categoria, Producto};
use marketplace::publicacion::Publicacion;
use marketplace::roles::Roles;
use marketplace::usuario::Usuario;

fn ana() -> AccountId {
    AccountId::from([10; 32])
}

fn leo() -> AccountId {
    AccountId::from([20; 32])
}

fn eva() -> AccountId {
    AccountId::from([30; 32])
}

/// Ana buys, Leo sells a mouse: ten in stock, ten listed.
fn mercado_con_mouse() -> Marketplace {
    let mut m = Marketplace::new();
    assert_eq!(m.crear_usuario(ana(), "Ana".to_string(), 111, Roles::Comprador), Ok(true));
    assert_eq!(m.crear_usuario(leo(), "Leo".to_string(), 222, Roles::Vendedor), Ok(true));
    assert_eq!(m.agregar_producto(leo(), 10, "mouse".to_string(), Categoria::Electronica), Ok(true));
    assert_eq!(
        m.crear_publicacion(leo(), 7, "mouse".to_string(), "fast".to_string(), 100, 10),
        Ok(true)
    );
    m
}

#[test]
fn compra_de_tres_unidades() {
    let mut m = mercado_con_mouse();
    assert_eq!(m.hacer_orden(ana(), 0, 3), Ok(true));
    let orden = m.get_orden(0).unwrap();
    assert_eq!(orden.id_orden, 0);
    assert_eq!(orden.estado, EstadoOrden::Pendiente);
    assert_eq!(orden.cantidad, 3);
    assert_eq!(orden.id_comprador, ana());
    assert_eq!(orden.id_vendedor, leo());
    assert_eq!(orden.id_producto, 0);
    assert_eq!(m.cantidad_ordenes(), 1);
    assert_eq!(m.get_publicacion(0).unwrap().disponibles, 7);
    assert_eq!(m.get_inventario(leo()).unwrap().listado_productos[0].cantidad, 7);
}

#[test]
fn comprador_envia_y_no_recibe() {
    let mut m = mercado_con_mouse();
    assert_eq!(m.alta_orden(ana(), 0, 3), Ok(0));
    assert_eq!(m.cambiar_estado_orden(ana(), 0, EstadoOrden::Enviado), Ok(true));
    assert_eq!(m.get_orden(0).unwrap().estado, EstadoOrden::Enviado);
    assert_eq!(
        m.cambiar_estado_orden(ana(), 0, EstadoOrden::Recibido),
        Err(Errores::PermisoDenegado)
    );
    assert_eq!(m.get_orden(0).unwrap().estado, EstadoOrden::Enviado);
}

#[test]
fn vendedor_no_cancela_solo() {
    let mut m = mercado_con_mouse();
    assert_eq!(m.alta_orden(ana(), 0, 3), Ok(0));
    assert_eq!(
        m.cambiar_estado_orden(leo(), 0, EstadoOrden::Cancelada),
        Err(Errores::ConsentimientoFaltante)
    );
    assert_eq!(m.get_orden(0).unwrap().estado, EstadoOrden::Pendiente);
}

#[test]
fn mismo_rol_dos_veces() {
    let mut m = mercado_con_mouse();
    assert_eq!(m.cambiar_rol(ana(), Roles::CompradorVendedor), Ok(true));
    assert_eq!(m.cambiar_rol(ana(), Roles::CompradorVendedor), Err(Errores::ConflictoRol));
    assert_eq!(m.get_usuario(ana()).unwrap().get_rol(), Roles::CompradorVendedor);
}

#[test]
fn registro_y_consulta() {
    let mut m = Marketplace::new();
    assert!(m.get_usuario(ana()).is_none());
    assert_eq!(m.alta_usuario("Ana".to_string(), 111, ana(), Roles::Comprador), Ok(true));
    let u = m.get_usuario(ana()).unwrap();
    assert_eq!(u.get_nom(), "Ana");
    assert_eq!(u.get_dni(), 111);
    assert_eq!(u.get_id(), ana());
    assert_eq!(u.get_rol(), Roles::Comprador);
    assert!(u.calificaciones.is_empty());
    assert!(m.get_usuario(leo()).is_none());
}

#[test]
fn registro_repetido() {
    let mut m = Marketplace::new();
    assert_eq!(m.alta_usuario("Ana".to_string(), 111, ana(), Roles::Comprador), Ok(true));
    assert_eq!(
        m.alta_usuario("Ana".to_string(), 111, ana(), Roles::Comprador),
        Err(Errores::UsuarioExistente)
    );
    assert_eq!(
        m.alta_usuario("Otra".to_string(), 111, ana(), Roles::Vendedor),
        Err(Errores::UsuarioExistente)
    );
    assert_eq!(
        m.alta_usuario("Ana".to_string(), 112, ana(), Roles::Comprador),
        Err(Errores::ConflictoDni)
    );
    let u = m.get_usuario(ana()).unwrap();
    assert_eq!(u.get_nom(), "Ana");
    assert_eq!(u.get_dni(), 111);
    assert_eq!(u.get_rol(), Roles::Comprador);
    assert!(m.get_inventario(ana()).is_none());
}

#[test]
fn registro_rechazado_no_deja_rastro() {
    let mut m = Marketplace::new();
    assert_eq!(m.alta_usuario("".to_string(), 111, leo(), Roles::Vendedor), Err(Errores::NombreNulo));
    assert_eq!(m.alta_usuario("Leo".to_string(), 0, leo(), Roles::Vendedor), Err(Errores::DniNulo));
    assert_eq!(m.alta_usuario("".to_string(), 0, leo(), Roles::Vendedor), Err(Errores::NombreNulo));
    assert!(m.get_usuario(leo()).is_none());
    assert!(m.get_inventario(leo()).is_none());
}

#[test]
fn el_rol_decide_el_inventario() {
    let mut m = Marketplace::new();
    assert_eq!(m.alta_usuario("Ana".to_string(), 1, ana(), Roles::Comprador), Ok(true));
    assert_eq!(m.alta_usuario("Leo".to_string(), 2, leo(), Roles::Vendedor), Ok(true));
    assert_eq!(m.alta_usuario("Eva".to_string(), 3, eva(), Roles::CompradorVendedor), Ok(true));
    assert!(m.get_inventario(ana()).is_none());
    assert!(m.get_inventario(leo()).unwrap().listado_productos.is_empty());
    assert!(m.get_inventario(eva()).unwrap().listado_productos.is_empty());
}

#[test]
fn comprador_no_agrega_productos() {
    let mut m = mercado_con_mouse();
    assert_eq!(
        m.agregar_producto(ana(), 5, "teclado".to_string(), Categoria::Electronica),
        Err(Errores::PermisoDenegado)
    );
    assert!(m.get_inventario(ana()).is_none());
    assert_eq!(m.get_inventario(leo()).unwrap().listado_productos.len(), 1);
}

#[test]
fn agregar_producto_sin_registro() {
    let mut m = Marketplace::new();
    assert_eq!(
        m.agregar_producto(ana(), 5, "teclado".to_string(), Categoria::Electronica),
        Err(Errores::UsuarioInexistente)
    );
}

#[test]
fn ids_de_producto_por_inventario() {
    let mut m = mercado_con_mouse();
    assert_eq!(m.crear_usuario(eva(), "Eva".to_string(), 333, Roles::CompradorVendedor), Ok(true));
    assert_eq!(m.agregar_producto(leo(), 4, "silla".to_string(), Categoria::Hogar), Ok(true));
    assert_eq!(m.agregar_producto(eva(), 2, "pelota".to_string(), Categoria::Deporte), Ok(true));
    let de_leo = m.get_inventario(leo()).unwrap();
    assert_eq!(de_leo.listado_productos.len(), 2);
    assert_eq!(de_leo.listado_productos[0].id, 0);
    assert_eq!(de_leo.listado_productos[1].id, 1);
    assert_eq!(de_leo.listado_productos[1].nombre, "silla");
    assert_eq!(de_leo.listado_productos[1].categoria, Categoria::Hogar);
    assert_eq!(de_leo.listado_productos[1].cantidad, 4);
    let de_eva = m.get_inventario(eva()).unwrap();
    assert_eq!(de_eva.listado_productos.len(), 1);
    assert_eq!(de_eva.listado_productos[0].id, 0);
}

#[test]
fn cambio_de_rol_sin_registro() {
    let mut m = Marketplace::new();
    assert_eq!(m.cambiar_rol(ana(), Roles::Vendedor), Err(Errores::UsuarioInexistente));
    assert_eq!(m.cambiar_de_rol(ana(), Roles::Vendedor), Err(Errores::UsuarioInexistente));
}

#[test]
fn volver_a_comprador_conserva_el_inventario() {
    let mut m = mercado_con_mouse();
    assert_eq!(m.cambiar_rol(leo(), Roles::Comprador), Ok(true));
    assert_eq!(m.get_usuario(leo()).unwrap().get_rol(), Roles::Comprador);
    assert_eq!(m.cambiar_rol(leo(), Roles::Comprador), Err(Errores::ConflictoRol));
    assert_eq!(m.get_inventario(leo()).unwrap().listado_productos.len(), 1);
    assert_eq!(
        m.agregar_producto(leo(), 1, "silla".to_string(), Categoria::Hogar),
        Err(Errores::PermisoDenegado)
    );
    assert_eq!(m.cambiar_rol(leo(), Roles::CompradorVendedor), Ok(true));
    let inventario = m.get_inventario(leo()).unwrap();
    assert_eq!(inventario.listado_productos.len(), 1);
    assert_eq!(inventario.listado_productos[0].nombre, "mouse");
    assert_eq!(inventario.listado_productos[0].cantidad, 10);
    assert_eq!(m.agregar_producto(leo(), 1, "silla".to_string(), Categoria::Hogar), Ok(true));
    assert_eq!(m.get_inventario(leo()).unwrap().listado_productos[1].id, 1);
}

#[test]
fn comprador_que_pasa_a_vender_recibe_inventario() {
    let mut m = mercado_con_mouse();
    assert!(m.get_inventario(ana()).is_none());
    assert_eq!(m.cambiar_rol(ana(), Roles::Vendedor), Ok(true));
    assert!(m.get_inventario(ana()).unwrap().listado_productos.is_empty());
    let u = m.get_usuario(ana()).unwrap();
    assert_eq!(u.get_nom(), "Ana");
    assert_eq!(u.get_dni(), 111);
}

#[test]
fn publicar_devuelve_la_posicion() {
    let mut m = mercado_con_mouse();
    assert_eq!(m.agregar_producto(leo(), 4, "silla".to_string(), Categoria::Hogar), Ok(true));
    assert_eq!(
        m.alta_publicacion(leo(), "silla".to_string(), 9, "comoda".to_string(), 50, 4),
        Ok(1)
    );
    assert_eq!(m.cantidad_publicaciones(), 2);
    let p = m.get_publicacion(1).unwrap();
    assert_eq!(p.id_vendedor, leo());
    assert_eq!(p.producto.id, 1);
    assert_eq!(p.producto.nombre, "silla");
    assert_eq!(p.producto.categoria, Categoria::Hogar);
    assert_eq!(p.producto.cantidad, 4);
    assert_eq!(p.descripcion, "comoda");
    assert_eq!(p.fecha, 9);
    assert_eq!(p.precio, 50);
    assert_eq!(p.disponibles, 4);
    assert!(m.get_publicacion(2).is_none());
}

#[test]
fn publicar_sin_registro_o_sin_inventario() {
    let mut m = mercado_con_mouse();
    assert_eq!(
        m.alta_publicacion(eva(), "mouse".to_string(), 0, "x".to_string(), 1, 1),
        Err(Errores::UsuarioInexistente)
    );
    assert_eq!(
        m.alta_publicacion(ana(), "mouse".to_string(), 0, "x".to_string(), 1, 1),
        Err(Errores::SinInventario)
    );
    assert_eq!(
        m.alta_publicacion(leo(), "teclado".to_string(), 0, "x".to_string(), 1, 1),
        Err(Errores::ProductoNoEncontrado)
    );
    assert_eq!(m.cantidad_publicaciones(), 1);
}

#[test]
fn publicar_no_revisa_precio_ni_descripcion() {
    let mut m = mercado_con_mouse();
    assert_eq!(m.alta_publicacion(leo(), "mouse".to_string(), 0, "".to_string(), 0, 99), Ok(1));
    let p = m.get_publicacion(1).unwrap();
    assert_eq!(p.descripcion, "");
    assert_eq!(p.precio, 0);
    assert_eq!(p.disponibles, 99);
}

#[test]
fn la_publicacion_guarda_una_copia() {
    let mut m = mercado_con_mouse();
    assert_eq!(m.alta_orden(ana(), 0, 4), Ok(0));
    assert_eq!(m.get_inventario(leo()).unwrap().listado_productos[0].cantidad, 6);
    assert_eq!(m.get_publicacion(0).unwrap().producto.cantidad, 10);
}

#[test]
fn cambiar_descripcion_de_una_publicacion() {
    let mut m = mercado_con_mouse();
    assert_eq!(m.cambiar_descripcion_publicacion(0, "faster".to_string()), Ok(true));
    assert_eq!(m.get_publicacion(0).unwrap().descripcion, "faster");
    assert_eq!(
        m.cambiar_descripcion_publicacion(0, "".to_string()),
        Err(Errores::ProductoSinDescripcion)
    );
    assert_eq!(
        m.cambiar_descripcion_publicacion(5, "".to_string()),
        Err(Errores::ProductoSinDescripcion)
    );
    assert_eq!(
        m.cambiar_descripcion_publicacion(1, "x".to_string()),
        Err(Errores::ProductoNoEncontrado)
    );
    let p = m.get_publicacion(0).unwrap();
    assert_eq!(p.descripcion, "faster");
    assert_eq!(p.precio, 100);
    assert_eq!(p.disponibles, 10);
}

#[test]
fn cambiar_precio_de_una_publicacion() {
    let mut m = mercado_con_mouse();
    assert_eq!(m.cambiar_precio_publicacion(0, 250), Ok(true));
    assert_eq!(m.get_publicacion(0).unwrap().precio, 250);
    assert_eq!(m.cambiar_precio_publicacion(0, 0), Err(Errores::PrecioNulo));
    assert_eq!(m.cambiar_precio_publicacion(9, 0), Err(Errores::PrecioNulo));
    assert_eq!(m.cambiar_precio_publicacion(1, 3), Err(Errores::ProductoNoEncontrado));
    let p = m.get_publicacion(0).unwrap();
    assert_eq!(p.precio, 250);
    assert_eq!(p.descripcion, "fast");
}

#[test]
fn reservar_resta_y_no_reemplaza() {
    let prod = Producto::new(0, "mouse".to_string(), Categoria::Electronica, 10);
    let mut p = Publicacion::alta_publicacion(leo(), prod, "fast".to_string(), 0, 100, 10);
    assert_eq!(p.descontar_stock(2), Ok(true));
    assert_eq!(p.disponibles, 8);
    assert_eq!(p.descontar_stock(3), Ok(true));
    assert_eq!(p.disponibles, 5);
    assert_eq!(p.descontar_stock(6), Err(Errores::ProductoSinStock));
    assert_eq!(p.disponibles, 5);
    assert_eq!(p.descontar_stock(5), Ok(true));
    assert_eq!(p.disponibles, 0);
    assert_eq!(p.descontar_stock(0), Ok(true));
    assert_eq!(p.descontar_stock(1), Err(Errores::ProductoSinStock));
}

#[test]
fn ordenes_sucesivas_descuentan() {
    let mut m = mercado_con_mouse();
    assert_eq!(m.alta_orden(ana(), 0, 3), Ok(0));
    assert_eq!(m.alta_orden(ana(), 0, 3), Ok(1));
    assert_eq!(m.alta_orden(leo(), 0, 4), Ok(2));
    assert_eq!(m.get_publicacion(0).unwrap().disponibles, 0);
    assert_eq!(m.get_inventario(leo()).unwrap().listado_productos[0].cantidad, 0);
    assert_eq!(m.alta_orden(ana(), 0, 1), Err(Errores::ProductoSinStock));
    assert_eq!(m.cantidad_ordenes(), 3);
    for k in 0..3 {
        let o = m.get_orden(k).unwrap();
        assert_eq!(o.id_orden, k);
        assert_eq!(o.estado, EstadoOrden::Pendiente);
    }
    assert_eq!(m.get_orden(2).unwrap().id_comprador, leo());
    assert!(m.get_orden(3).is_none());
}

#[test]
fn pedir_de_mas_no_cambia_nada() {
    let mut m = mercado_con_mouse();
    assert_eq!(m.alta_orden(ana(), 0, 11), Err(Errores::ProductoSinStock));
    assert_eq!(m.hacer_orden(ana(), 0, u64::MAX), Err(Errores::ProductoSinStock));
    assert_eq!(m.get_publicacion(0).unwrap().disponibles, 10);
    assert_eq!(m.get_inventario(leo()).unwrap().listado_productos[0].cantidad, 10);
    assert_eq!(m.cantidad_ordenes(), 0);
}

#[test]
fn pedir_cero_unidades() {
    let mut m = mercado_con_mouse();
    assert_eq!(m.alta_orden(ana(), 0, 0), Err(Errores::ProductoSinStock));
    assert_eq!(m.get_publicacion(0).unwrap().disponibles, 10);
    assert_eq!(m.cantidad_ordenes(), 0);
}

#[test]
fn publicacion_con_mas_stock_que_el_inventario() {
    let mut m = Marketplace::new();
    assert_eq!(m.crear_usuario(ana(), "Ana".to_string(), 111, Roles::Comprador), Ok(true));
    assert_eq!(m.crear_usuario(leo(), "Leo".to_string(), 222, Roles::Vendedor), Ok(true));
    assert_eq!(m.agregar_producto(leo(), 10, "mouse".to_string(), Categoria::Electronica), Ok(true));
    assert_eq!(m.alta_publicacion(leo(), "mouse".to_string(), 0, "fast".to_string(), 100, 20), Ok(0));
    assert_eq!(m.alta_orden(ana(), 0, 15), Err(Errores::ProductoSinStock));
    assert_eq!(m.get_publicacion(0).unwrap().disponibles, 20);
    assert_eq!(m.get_inventario(leo()).unwrap().listado_productos[0].cantidad, 10);
    assert_eq!(m.cantidad_ordenes(), 0);
    assert_eq!(m.alta_orden(ana(), 0, 10), Ok(0));
    assert_eq!(m.get_publicacion(0).unwrap().disponibles, 10);
    assert_eq!(m.get_inventario(leo()).unwrap().listado_productos[0].cantidad, 0);
}

#[test]
fn la_primera_publicacion_del_producto_gana() {
    let mut m = mercado_con_mouse();
    assert_eq!(m.crear_usuario(eva(), "Eva".to_string(), 333, Roles::Vendedor), Ok(true));
    assert_eq!(m.agregar_producto(eva(), 5, "pelota".to_string(), Categoria::Deporte), Ok(true));
    assert_eq!(m.alta_publicacion(eva(), "pelota".to_string(), 0, "x".to_string(), 1, 5), Ok(1));
    assert_eq!(m.alta_orden(ana(), 0, 2), Ok(0));
    assert_eq!(m.get_orden(0).unwrap().id_vendedor, leo());
    assert_eq!(m.get_publicacion(0).unwrap().disponibles, 8);
    assert_eq!(m.get_publicacion(1).unwrap().disponibles, 5);
    assert_eq!(m.get_inventario(eva()).unwrap().listado_productos[0].cantidad, 5);
}

#[test]
fn orden_sobre_el_segundo_producto() {
    let mut m = mercado_con_mouse();
    assert_eq!(m.agregar_producto(leo(), 4, "silla".to_string(), Categoria::Hogar), Ok(true));
    assert_eq!(m.alta_publicacion(leo(), "silla".to_string(), 0, "x".to_string(), 1, 4), Ok(1));
    assert_eq!(m.alta_orden(ana(), 1, 3), Ok(0));
    assert_eq!(m.get_orden(0).unwrap().id_producto, 1);
    let inventario = m.get_inventario(leo()).unwrap();
    assert_eq!(inventario.listado_productos[0].cantidad, 10);
    assert_eq!(inventario.listado_productos[1].cantidad, 1);
    assert_eq!(m.get_publicacion(0).unwrap().disponibles, 10);
    assert_eq!(m.get_publicacion(1).unwrap().disponibles, 1);
}

#[test]
fn transiciones_segun_el_rol() {
    let mut m = mercado_con_mouse();
    assert_eq!(m.crear_usuario(eva(), "Eva".to_string(), 333, Roles::CompradorVendedor), Ok(true));
    assert_eq!(m.alta_orden(ana(), 0, 1), Ok(0));
    let estados =
        [EstadoOrden::Pendiente, EstadoOrden::Enviado, EstadoOrden::Recibido, EstadoOrden::Cancelada];
    for estado in estados {
        assert_eq!(m.cambiar_estado_orden(eva(), 0, estado), Err(Errores::PermisoDenegado));
    }
    assert_eq!(
        m.cambiar_estado_orden(ana(), 0, EstadoOrden::Pendiente),
        Err(Errores::PermisoDenegado)
    );
    assert_eq!(
        m.cambiar_estado_orden(ana(), 0, EstadoOrden::Cancelada),
        Err(Errores::PermisoDenegado)
    );
    assert_eq!(m.cambiar_estado_orden(leo(), 0, EstadoOrden::Enviado), Err(Errores::PermisoDenegado));
    assert_eq!(
        m.cambiar_estado_orden(leo(), 0, EstadoOrden::Pendiente),
        Err(Errores::PermisoDenegado)
    );
    assert_eq!(m.get_orden(0).unwrap().estado, EstadoOrden::Pendiente);
    assert_eq!(m.cambiar_estado_orden(leo(), 0, EstadoOrden::Recibido), Ok(true));
    assert_eq!(m.get_orden(0).unwrap().estado, EstadoOrden::Recibido);
    assert_eq!(m.cambiar_estado_orden(ana(), 0, EstadoOrden::Enviado), Ok(true));
    assert_eq!(m.cambiar_estado_orden(ana(), 0, EstadoOrden::Enviado), Ok(true));
    let o = m.get_orden(0).unwrap();
    assert_eq!(o.estado, EstadoOrden::Enviado);
    assert_eq!(o.cantidad, 1);
    assert_eq!(o.id_orden, 0);
}

#[test]
fn transicion_sin_usuario_o_sin_orden() {
    let mut m = mercado_con_mouse();
    assert_eq!(
        m.cambiar_estado_orden(eva(), 0, EstadoOrden::Enviado),
        Err(Errores::UsuarioInexistente)
    );
    assert_eq!(m.cambiar_estado_orden(ana(), 0, EstadoOrden::Enviado), Err(Errores::OrdenNoExistente));
    assert_eq!(m.alta_orden(ana(), 0, 1), Ok(0));
    assert_eq!(m.cambiar_estado_orden(ana(), 1, EstadoOrden::Enviado), Err(Errores::OrdenNoExistente));
}

#[test]
fn transicion_de_una_orden_suelta() {
    let mut orden = OrdenCompra::crear_orden(4, ana(), leo(), 2, 7).unwrap();
    assert_eq!(orden.id_orden, 4);
    assert_eq!(orden.id_vendedor, leo());
    assert_eq!(orden.id_producto, 2);
    let vendedor = Usuario::new("Leo".to_string(), 2, leo(), Roles::Vendedor);
    assert_eq!(orden.cambiar_estado(vendedor.clone(), EstadoOrden::Recibido), Ok(true));
    assert_eq!(orden.estado, EstadoOrden::Recibido);
    assert_eq!(
        orden.cambiar_estado(vendedor, EstadoOrden::Cancelada),
        Err(Errores::ConsentimientoFaltante)
    );
    assert_eq!(orden.estado, EstadoOrden::Recibido);
    let ambos = Usuario::new("Eva".to_string(), 3, eva(), Roles::CompradorVendedor);
    assert_eq!(orden.cambiar_estado(ambos, EstadoOrden::Enviado), Err(Errores::PermisoDenegado));
    assert_eq!(orden.cantidad, 7);
}

#[test]
fn roles_que_pueden_vender() {
    assert!(!Roles::Comprador.puede_vender());
    assert!(Roles::Vendedor.puede_vender());
    assert!(Roles::CompradorVendedor.puede_vender());
    let mut u = Usuario::new("A".to_string(), 1, ana(), Roles::Comprador);
    assert!(!u.puede_vender());
    u.obtener_nuevo_rol(Roles::CompradorVendedor);
    assert!(u.puede_vender());
    assert_eq!(u.get_rol(), Roles::CompradorVendedor);
    assert_eq!(u.get_nom(), "A");
}

#[test]
fn identidades_iguales_y_distintas() {
    let mut bytes = [7u8; 32];
    let a = AccountId::from(bytes);
    assert!(a == AccountId::from([7u8; 32]));
    assert!(a.es_igual(&AccountId::from([7u8; 32])));
    bytes[31] = 8;
    assert!(a != AccountId::from(bytes));
    bytes[31] = 7;
    bytes[0] = 6;
    assert!(!a.es_igual(&AccountId::from(bytes)));
}

#[test]
fn inventario_busca_el_primero() {
    let mut inventario = Inventario::new();
    assert_eq!(inventario.buscar_por_id(0), None);
    assert!(inventario.ids_en_orden());
    inventario.listado_productos.push(Producto::new(3, "a".to_string(), Categoria::Hogar, 1));
    inventario.listado_productos.push(Producto::new(5, "b".to_string(), Categoria::Hogar, 2));
    inventario.listado_productos.push(Producto::new(5, "a".to_string(), Categoria::Hogar, 9));
    assert!(!inventario.ids_en_orden());
    assert_eq!(inventario.buscar_por_id(5), Some(1));
    assert_eq!(inventario.buscar_por_id(3), Some(0));
    assert_eq!(inventario.buscar_por_id(4), None);
    assert_eq!(inventario.buscar_por_nombre(&"a".to_string()), Some(0));
    assert_eq!(inventario.buscar_por_nombre(&"b".to_string()), Some(1));
    assert_eq!(inventario.buscar_por_nombre(&"c".to_string()), None);
    assert_eq!(inventario.descontar_stock_inventario(3, 5), Err(Errores::ProductoSinStock));
    assert_eq!(inventario.descontar_stock_inventario(2, 5), Ok(true));
    assert_eq!(inventario.listado_productos[1].cantidad, 0);
    assert_eq!(inventario.listado_productos[2].cantidad, 9);
    assert_eq!(inventario.listado_productos[0].cantidad, 1);
}

#[test]
fn desarmar_y_restaurar() {
    let mut m = mercado_con_mouse();
    assert_eq!(m.alta_orden(ana(), 0, 3), Ok(0));
    let (usuarios, inventarios, publicaciones, ordenes) = m.desarmar();
    assert_eq!(usuarios.len(), 2);
    assert_eq!(inventarios.len(), 1);
    assert_eq!(inventarios[0].duenio, leo());
    assert_eq!(publicaciones.len(), 1);
    assert_eq!(ordenes.len(), 1);
    let mut m = Marketplace::restaurar(usuarios, inventarios, publicaciones, ordenes).unwrap();
    assert_eq!(m.get_usuario(ana()).unwrap().get_dni(), 111);
    assert_eq!(m.get_inventario(leo()).unwrap().listado_productos[0].cantidad, 7);
    assert_eq!(m.get_publicacion(0).unwrap().disponibles, 7);
    assert_eq!(m.get_orden(0).unwrap().cantidad, 3);
    assert_eq!(m.alta_orden(ana(), 0, 7), Ok(1));
    assert_eq!(m.get_publicacion(0).unwrap().disponibles, 0);
}

fn usuarios_de_muestra() -> Vec<Usuario> {
    vec![
        Usuario::new("Ana".to_string(), 111, ana(), Roles::Comprador),
        Usuario::new("Leo".to_string(), 222, leo(), Roles::Vendedor),
    ]
}

fn inventarios_de_muestra() -> Vec<Deposito> {
    let producto = Producto::new(0, "mouse".to_string(), Categoria::Electronica, 10);
    vec![Deposito { duenio: leo(), inventario: Inventario { listado_productos: vec![producto] } }]
}

fn publicaciones_de_muestra() -> Vec<Publicacion> {
    let producto = Producto::new(0, "mouse".to_string(), Categoria::Electronica, 10);
    vec![Publicacion::alta_publicacion(leo(), producto, "fast".to_string(), 0, 100, 10)]
}

fn ordenes_de_muestra() -> Vec<OrdenCompra> {
    vec![OrdenCompra::crear_orden(0, ana(), leo(), 0, 3).unwrap()]
}

#[test]
fn restaurar_registros_validos() {
    let m = Marketplace::restaurar(
        usuarios_de_muestra(),
        inventarios_de_muestra(),
        publicaciones_de_muestra(),
        ordenes_de_muestra(),
    );
    let m = m.unwrap();
    assert_eq!(m.get_usuario(leo()).unwrap().get_nom(), "Leo");
    assert_eq!(m.cantidad_publicaciones(), 1);
    assert_eq!(m.cantidad_ordenes(), 1);
    assert!(Marketplace::restaurar(vec![], vec![], vec![], vec![]).is_some());
}

#[test]
fn restaurar_rechaza_usuarios_en_falta() {
    let mut repetidos = usuarios_de_muestra();
    repetidos.push(Usuario::new("Otra".to_string(), 5, ana(), Roles::Comprador));
    assert!(Marketplace::restaurar(
        repetidos,
        inventarios_de_muestra(),
        publicaciones_de_muestra(),
        ordenes_de_muestra()
    )
    .is_none());
    let mut sin_nombre = usuarios_de_muestra();
    sin_nombre.push(Usuario::new("".to_string(), 5, eva(), Roles::Comprador));
    assert!(Marketplace::restaurar(sin_nombre, inventarios_de_muestra(), vec![], vec![]).is_none());
    let mut sin_dni = usuarios_de_muestra();
    sin_dni.push(Usuario::new("Eva".to_string(), 0, eva(), Roles::Comprador));
    assert!(Marketplace::restaurar(sin_dni, inventarios_de_muestra(), vec![], vec![]).is_none());
    let mut sin_inventario = usuarios_de_muestra();
    sin_inventario.push(Usuario::new("Eva".to_string(), 5, eva(), Roles::Vendedor));
    assert!(Marketplace::restaurar(sin_inventario, inventarios_de_muestra(), vec![], vec![]).is_none());
}

#[test]
fn restaurar_rechaza_inventarios_en_falta() {
    let mut repetidos = inventarios_de_muestra();
    repetidos.push(Deposito { duenio: leo(), inventario: Inventario::new() });
    assert!(Marketplace::restaurar(usuarios_de_muestra(), repetidos, vec![], vec![]).is_none());
    let mut sin_duenio = inventarios_de_muestra();
    sin_duenio.push(Deposito { duenio: eva(), inventario: Inventario::new() });
    assert!(Marketplace::restaurar(usuarios_de_muestra(), sin_duenio, vec![], vec![]).is_none());
    let producto = Producto::new(1, "mouse".to_string(), Categoria::Electronica, 10);
    let desordenado =
        vec![Deposito { duenio: leo(), inventario: Inventario { listado_productos: vec![producto] } }];
    assert!(Marketplace::restaurar(usuarios_de_muestra(), desordenado, vec![], vec![]).is_none());
    assert!(Marketplace::restaurar(usuarios_de_muestra(), vec![], vec![], vec![]).is_none());
}

#[test]
fn restaurar_rechaza_publicaciones_y_ordenes_en_falta() {
    let producto = Producto::new(1, "silla".to_string(), Categoria::Hogar, 1);
    let ajena = vec![Publicacion::alta_publicacion(leo(), producto, "x".to_string(), 0, 1, 1)];
    assert!(Marketplace::restaurar(
        usuarios_de_muestra(),
        inventarios_de_muestra(),
        ajena,
        vec![]
    )
    .is_none());
    let producto = Producto::new(0, "mouse".to_string(), Categoria::Electronica, 10);
    let sin_vendedor = vec![Publicacion::alta_publicacion(ana(), producto, "x".to_string(), 0, 1, 1)];
    assert!(Marketplace::restaurar(
        usuarios_de_muestra(),
        inventarios_de_muestra(),
        sin_vendedor,
        vec![]
    )
    .is_none());
    let producto = Producto::new(0, "teclado".to_string(), Categoria::Electronica, 10);
    let otro_nombre = vec![Publicacion::alta_publicacion(leo(), producto, "x".to_string(), 0, 1, 1)];
    assert!(Marketplace::restaurar(
        usuarios_de_muestra(),
        inventarios_de_muestra(),
        otro_nombre,
        vec![]
    )
    .is_none());
    let producto = Producto::new(0, "mouse".to_string(), Categoria::Hogar, 10);
    let otra_categoria =
        vec![Publicacion::alta_publicacion(leo(), producto, "x".to_string(), 0, 1, 1)];
    assert!(Marketplace::restaurar(
        usuarios_de_muestra(),
        inventarios_de_muestra(),
        otra_categoria,
        vec![]
    )
    .is_none());
    let producto = Producto::new(0, "mouse".to_string(), Categoria::Electronica, 99);
    let otra_cantidad =
        vec![Publicacion::alta_publicacion(leo(), producto, "x".to_string(), 0, 1, 1)];
    assert!(Marketplace::restaurar(
        usuarios_de_muestra(),
        inventarios_de_muestra(),
        otra_cantidad,
        vec![]
    )
    .is_some());
    let sin_comprador = vec![OrdenCompra::crear_orden(0, eva(), leo(), 0, 3).unwrap()];
    assert!(Marketplace::restaurar(
        usuarios_de_muestra(),
        inventarios_de_muestra(),
        publicaciones_de_muestra(),
        sin_comprador
    )
    .is_none());
    let sin_vendedor = vec![OrdenCompra::crear_orden(0, ana(), ana(), 0, 3).unwrap()];
    assert!(Marketplace::restaurar(
        usuarios_de_muestra(),
        inventarios_de_muestra(),
        publicaciones_de_muestra(),
        sin_vendedor
    )
    .is_none());
    let sin_producto = vec![OrdenCompra::crear_orden(0, ana(), leo(), 1, 3).unwrap()];
    assert!(Marketplace::restaurar(
        usuarios_de_muestra(),
        inventarios_de_muestra(),
        publicaciones_de_muestra(),
        sin_producto
    )
    .is_none());
    let fuera_de_lugar = vec![OrdenCompra::crear_orden(1, ana(), leo(), 0, 3).unwrap()];
    assert!(Marketplace::restaurar(
        usuarios_de_muestra(),
        inventarios_de_muestra(),
        publicaciones_de_muestra(),
        fuera_de_lugar
    )
    .is_none());
    let mut vacia = OrdenCompra::crear_orden(0, ana(), leo(), 0, 3).unwrap();
    vacia.cantidad = 0;
    assert!(Marketplace::restaurar(
        usuarios_de_muestra(),
        inventarios_de_muestra(),
        publicaciones_de_muestra(),
        vec![vacia]
    )
    .is_none());
}
