use httpd_core::config::{BlockContext, ConfigContext};
use httpd_core::http_location::HttpLocationContext;
use httpd_core::http_server::{
    handle_create_server, handle_set_listen, BuildError, HttpServer, HttpServerContext,
};
use httpd_core::http_type::HttpVersion;
use httpd_core::processor::Handler;

fn block(name: &str, args: &[&str]) -> ConfigContext {
    ConfigContext::new(name.to_string(), args.iter().map(|a| a.to_string()).collect())
}

fn server_node(listen: &str) -> ConfigContext {
    let mut ctx = block("server", &[]);
    handle_create_server(&mut ctx);
    ctx.current_cmd_args = vec![listen.to_string()];
    assert_eq!(handle_set_listen(&mut ctx), Ok(()));
    ctx
}

fn location(name: &str, args: &[&str], handlers: &[(u16, &[u8])]) -> ConfigContext {
    let mut ctx = block(name, args);
    let mut location = HttpLocationContext::new();
    for (code, response) in handlers {
        assert_eq!(location.add_handler(*code, Handler::new(response.to_vec())), Ok(()));
    }
    ctx.current_ctx = Some(BlockContext::Location(location));
    ctx
}

fn is_consumed(ctx: &ConfigContext) -> bool {
    match &ctx.current_ctx {
        Some(BlockContext::Location(location)) => location.is_consumed(),
        _ => panic!("the node holds no location context"),
    }
}

fn server_context(ctx: &ConfigContext) -> &HttpServerContext {
    match &ctx.current_ctx {
        Some(BlockContext::Server(server)) => server,
        _ => panic!("the node holds no server context"),
    }
}

fn get(path: &str) -> Vec<u8> {
    format!("GET {} HTTP/1.1\r\nHost: test\r\n\r\n", path).into_bytes()
}

#[test]
fn build_registers_every_handler_of_every_location() {
    let mut cfg = server_node("127.0.0.1:9090");
    cfg.children.push(location("location", &["/a"], &[(200, b"A"), (404, b"A404")]));
    cfg.children.push(location("location", &["/b", "extra"], &[(200, b"B")]));
    cfg.children.push(location("location", &["/c"], &[(500, b"C500")]));
    let server = HttpServer::new(&mut cfg).ok().expect("the build succeeds");
    let processor = server.processor();
    assert!(!processor.is_empty());
    assert_eq!(processor.len(), 4);
    assert!(processor.has_handler("/a", 200));
    assert!(processor.has_handler("/a", 404));
    assert!(processor.has_handler("/b", 200));
    assert!(processor.has_handler("/c", 500));
    assert!(!processor.has_handler("/c", 200));
    assert!(!processor.has_handler("extra", 200));
    assert_eq!(processor.process(get("/a")), Ok(b"A".to_vec()));
    assert_eq!(processor.process(get("/b")), Ok(b"B".to_vec()));
    assert!(processor.process(get("/c")).is_err());
}

#[test]
fn build_carries_address_version_and_flag() {
    let mut cfg = server_node("127.0.0.1:9090");
    cfg.children.push(location("location", &["/"], &[(200, b"root")]));
    let server = HttpServer::new(&mut cfg).ok().expect("the build succeeds");
    assert_eq!(server.listen(), "127.0.0.1:9090");
    assert_eq!(server.http_version(), HttpVersion::Http11);
    assert!(server.is_running());
    assert!(server.tls_config().is_none());
}

#[test]
fn build_uses_the_default_address_without_listen() {
    let mut cfg = block("server", &[]);
    handle_create_server(&mut cfg);
    let server = HttpServer::new(&mut cfg).ok().expect("the build succeeds");
    assert_eq!(server.listen(), "127.0.0.1:8080");
}

#[test]
fn build_keeps_the_order_of_the_locations() {
    let mut cfg = server_node("127.0.0.1:9090");
    cfg.children.push(location("location", &["/same"], &[(200, b"first")]));
    cfg.children.push(location("location", &["/same"], &[(200, b"second")]));
    let server = HttpServer::new(&mut cfg).ok().expect("the build succeeds");
    assert_eq!(server.processor().len(), 2);
    assert_eq!(server.processor().process(get("/same")), Ok(b"first".to_vec()));
}

#[test]
fn build_without_locations_gives_an_empty_processor() {
    let mut cfg = server_node("127.0.0.1:9090");
    cfg.children.push(block("ssl", &[]));
    cfg.children.push(block("upstream", &["backend"]));
    let mut server = HttpServer::new(&mut cfg).ok().expect("the build succeeds");
    assert!(server.processor().is_empty());
    assert!(server.is_running());
    assert!(!server.start());
    assert!(!server.is_running());
}

#[test]
fn build_with_locations_without_handlers_gives_an_empty_processor() {
    let mut cfg = server_node("127.0.0.1:9090");
    cfg.children.push(location("location", &["/a"], &[]));
    cfg.children.push(block("location", &["/b"]));
    let mut server = HttpServer::new(&mut cfg).ok().expect("the build succeeds");
    assert!(server.processor().is_empty());
    assert!(!server.start());
}

#[test]
fn build_fails_on_a_location_without_path() {
    let mut cfg = server_node("127.0.0.1:9090");
    cfg.children.push(location("location", &["/a"], &[(200, b"A")]));
    cfg.children.push(location("location", &[], &[(200, b"B")]));
    assert_eq!(HttpServer::new(&mut cfg).err(), Some(BuildError::LocationWithoutPath));
}

#[test]
fn build_fails_on_a_location_without_path_and_without_context() {
    let mut cfg = server_node("127.0.0.1:9090");
    cfg.children.push(block("location", &[]));
    assert_eq!(HttpServer::new(&mut cfg).err(), Some(BuildError::LocationWithoutPath));
}

#[test]
fn a_failed_build_leaves_the_tree_as_it_was() {
    let mut cfg = server_node("127.0.0.1:9090");
    cfg.children.push(location("location", &["/a"], &[(200, b"A")]));
    cfg.children.push(location("location", &[], &[(200, b"B")]));
    assert_eq!(HttpServer::new(&mut cfg).err(), Some(BuildError::LocationWithoutPath));
    assert!(!is_consumed(&cfg.children[0]));
    assert!(!is_consumed(&cfg.children[1]));
    assert_eq!(server_context(&cfg).listen(), "127.0.0.1:9090");
    cfg.children[1].block_args.push("/b".to_string());
    let server = HttpServer::new(&mut cfg).ok().expect("the build succeeds now");
    assert!(server.processor().has_handler("/a", 200));
    assert!(server.processor().has_handler("/b", 200));
    assert_eq!(server.processor().len(), 2);
}

#[test]
fn build_fails_without_a_server_context() {
    let mut cfg = block("server", &[]);
    cfg.children.push(location("location", &["/a"], &[(200, b"A")]));
    assert_eq!(HttpServer::new(&mut cfg).err(), Some(BuildError::NotAServerBlock));
    assert!(cfg.current_ctx.is_none());
    assert!(!is_consumed(&cfg.children[0]));

    cfg.current_ctx = Some(BlockContext::Http);
    assert_eq!(HttpServer::new(&mut cfg).err(), Some(BuildError::NotAServerBlock));
    assert!(matches!(cfg.current_ctx, Some(BlockContext::Http)));

    let mut cfg = location("location", &["/a"], &[(200, b"A")]);
    assert_eq!(HttpServer::new(&mut cfg).err(), Some(BuildError::NotAServerBlock));
    assert!(!is_consumed(&cfg));
}

#[test]
fn the_missing_server_context_is_reported_first() {
    let mut cfg = block("server", &[]);
    cfg.children.push(block("location", &[]));
    assert_eq!(HttpServer::new(&mut cfg).err(), Some(BuildError::NotAServerBlock));
}

#[test]
fn build_consumes_the_locations() {
    let mut cfg = server_node("127.0.0.1:9090");
    cfg.children.push(location("location", &["/a"], &[(200, b"A")]));
    cfg.children.push(location("other", &["/b"], &[(200, b"B")]));
    let server = HttpServer::new(&mut cfg).ok().expect("the build succeeds");
    assert_eq!(server.processor().len(), 1);
    assert!(is_consumed(&cfg.children[0]));
    assert!(!is_consumed(&cfg.children[1]));
    assert_eq!(cfg.children.len(), 2);
    assert_eq!(cfg.children[0].block_name, "location");
    assert_eq!(cfg.children[0].block_args, vec!["/a"]);
    assert_eq!(server_context(&cfg).listen(), "127.0.0.1:9090");
}

#[test]
fn a_second_build_fails_on_the_consumed_location() {
    let mut cfg = server_node("127.0.0.1:9090");
    cfg.children.push(location("location", &["/a"], &[(200, b"A")]));
    assert!(HttpServer::new(&mut cfg).is_ok());
    assert_eq!(HttpServer::new(&mut cfg).err(), Some(BuildError::LocationConsumed));
    assert!(is_consumed(&cfg.children[0]));
}

#[test]
fn the_first_faulty_location_decides_the_error() {
    let mut used = location("location", &["/a"], &[(200, b"A")]);
    if let Some(BlockContext::Location(ctx)) = &mut used.current_ctx {
        assert!(ctx.take_handlers().is_some());
    }
    let mut cfg = server_node("127.0.0.1:9090");
    cfg.children.push(used);
    cfg.children.push(block("location", &[]));
    assert_eq!(HttpServer::new(&mut cfg).err(), Some(BuildError::LocationConsumed));
    cfg.children.swap(0, 1);
    assert_eq!(HttpServer::new(&mut cfg).err(), Some(BuildError::LocationWithoutPath));
}

#[test]
fn a_second_build_without_locations_is_empty_again() {
    let mut cfg = server_node("127.0.0.1:9090");
    let first = HttpServer::new(&mut cfg).ok().expect("the build succeeds");
    let second = HttpServer::new(&mut cfg).ok().expect("the build succeeds");
    assert!(first.processor().is_empty());
    assert!(second.processor().is_empty());
    assert_eq!(second.listen(), "127.0.0.1:9090");
}

#[test]
fn block_names_are_trimmed() {
    let mut cfg = server_node("127.0.0.1:9090");
    cfg.children.push(location("  location\t", &["/a"], &[(200, b"A")]));
    cfg.children.push(location("\nlocation", &["/b"], &[(200, b"B")]));
    let server = HttpServer::new(&mut cfg).ok().expect("the build succeeds");
    assert!(server.processor().has_handler("/a", 200));
    assert!(server.processor().has_handler("/b", 200));

    let mut cfg = server_node("127.0.0.1:9090");
    cfg.children.push(block(" location ", &[]));
    assert_eq!(HttpServer::new(&mut cfg).err(), Some(BuildError::LocationWithoutPath));
}

#[test]
fn other_blocks_are_ignored() {
    let mut cfg = server_node("127.0.0.1:9090");
    cfg.children.push(location("Location", &["/a"], &[(200, b"A")]));
    cfg.children.push(location("locations", &["/b"], &[(200, b"B")]));
    cfg.children.push(location("loc ation", &[], &[(200, b"C")]));
    cfg.children.push(block("", &[]));
    let server = HttpServer::new(&mut cfg).ok().expect("the build succeeds");
    assert!(server.processor().is_empty());
    for child in &cfg.children[..3] {
        assert!(!is_consumed(child));
    }
}

#[test]
fn a_location_with_another_context_contributes_nothing() {
    let mut cfg = server_node("127.0.0.1:9090");
    let mut odd = block("location", &["/a"]);
    odd.current_ctx = Some(BlockContext::Http);
    cfg.children.push(odd);
    let server = HttpServer::new(&mut cfg).ok().expect("the build succeeds");
    assert!(server.processor().is_empty());
    assert!(matches!(cfg.children[0].current_ctx, Some(BlockContext::Http)));
}

#[test]
fn grandchildren_are_not_merged() {
    let mut cfg = server_node("127.0.0.1:9090");
    let mut outer = location("location", &["/a"], &[(200, b"A")]);
    outer.children.push(location("location", &["/inner"], &[(200, b"I")]));
    cfg.children.push(outer);
    let server = HttpServer::new(&mut cfg).ok().expect("the build succeeds");
    assert_eq!(server.processor().len(), 1);
    assert!(!server.processor().has_handler("/inner", 200));
    assert!(!is_consumed(&cfg.children[0].children[0]));
}
