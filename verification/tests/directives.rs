use httpd_core::config::{BlockContext, BlockType, ConfigContext};
use httpd_core::directive::{Directive, DirectiveError, DirectiveHandler, DirectiveRegistry};
use httpd_core::http_server::{
    handle_create_server, handle_set_listen, handle_set_server_name, register_commands,
    HttpServerContext,
};
use httpd_core::http_type::HttpVersion;

fn node(name: &str, args: &[&str]) -> ConfigContext {
    ConfigContext::new(name.to_string(), args.iter().map(|a| a.to_string()).collect())
}

fn with_args(mut ctx: ConfigContext, args: &[&str]) -> ConfigContext {
    ctx.current_cmd_args = args.iter().map(|a| a.to_string()).collect();
    ctx
}

fn server_of(ctx: &ConfigContext) -> &HttpServerContext {
    match &ctx.current_ctx {
        Some(BlockContext::Server(server)) => server,
        _ => panic!("the node holds no server context"),
    }
}

fn standard() -> DirectiveRegistry {
    let mut registry = DirectiveRegistry::new();
    register_commands(&mut registry);
    registry
}

#[test]
fn new_context_has_the_defaults() {
    let ctx = HttpServerContext::new();
    assert_eq!(ctx.listen(), "127.0.0.1:8080");
    assert_eq!(ctx.get_http_version(), HttpVersion::Http11);
    assert!(ctx.server_names().is_empty());
}

#[test]
fn default_context_has_an_empty_address() {
    let ctx = HttpServerContext::default();
    assert_eq!(ctx.listen(), "");
    assert_eq!(ctx.get_http_version(), HttpVersion::Http11);
    assert!(ctx.server_names().is_empty());
}

#[test]
fn set_listen_replaces_the_address() {
    let mut ctx = HttpServerContext::new();
    ctx.set_listen("0.0.0.0:80");
    assert_eq!(ctx.listen(), "0.0.0.0:80");
    ctx.set_listen("[::1]:8443");
    assert_eq!(ctx.listen(), "[::1]:8443");
    assert!(ctx.server_names().is_empty());
}

#[test]
fn add_server_name_appends_in_order() {
    let mut ctx = HttpServerContext::new();
    ctx.add_server_name("example.org");
    ctx.add_server_name("www.example.org");
    ctx.add_server_name("example.org");
    assert_eq!(ctx.server_names(), vec!["example.org", "www.example.org", "example.org"]);
    assert_eq!(ctx.listen(), "127.0.0.1:8080");
}

#[test]
fn create_server_gives_the_node_a_fresh_context() {
    let mut ctx = with_args(node("server", &["a", "b"]), &["x"]);
    ctx.children.push(node("location", &["/"]));
    assert_eq!(ctx.current_block_type_id(), None);
    handle_create_server(&mut ctx);
    assert_eq!(ctx.current_block_type_id(), Some(BlockType::Server));
    assert_eq!(server_of(&ctx).listen(), "127.0.0.1:8080");
    assert_eq!(ctx.block_name, "server");
    assert_eq!(ctx.block_args, vec!["a", "b"]);
    assert_eq!(ctx.current_cmd_args, vec!["x"]);
    assert_eq!(ctx.children.len(), 1);
}

#[test]
fn create_server_replaces_an_earlier_context() {
    let mut ctx = node("server", &[]);
    handle_create_server(&mut ctx);
    ctx.current_cmd_args = vec!["10.0.0.1:81".to_string()];
    assert_eq!(handle_set_listen(&mut ctx), Ok(()));
    handle_create_server(&mut ctx);
    assert_eq!(server_of(&ctx).listen(), "127.0.0.1:8080");
}

#[test]
fn set_listen_takes_the_first_argument() {
    let mut ctx = node("server", &[]);
    handle_create_server(&mut ctx);
    ctx.current_cmd_args = vec!["127.0.0.1:9090".to_string(), "ignored".to_string()];
    assert_eq!(handle_set_listen(&mut ctx), Ok(()));
    assert_eq!(server_of(&ctx).listen(), "127.0.0.1:9090");
    assert_eq!(ctx.current_cmd_args, vec!["127.0.0.1:9090", "ignored"]);
}

#[test]
fn set_listen_without_argument_is_an_error() {
    let mut ctx = node("server", &[]);
    handle_create_server(&mut ctx);
    assert_eq!(handle_set_listen(&mut ctx), Err(DirectiveError::MissingArgument));
    assert_eq!(server_of(&ctx).listen(), "127.0.0.1:8080");
}

#[test]
fn set_listen_without_server_context_does_nothing() {
    let mut ctx = with_args(node("server", &[]), &["127.0.0.1:9090"]);
    assert_eq!(handle_set_listen(&mut ctx), Ok(()));
    assert!(ctx.current_ctx.is_none());
    ctx.current_ctx = Some(BlockContext::Http);
    assert_eq!(handle_set_listen(&mut ctx), Ok(()));
    assert_eq!(ctx.current_block_type_id(), Some(BlockType::Http));
}

#[test]
fn set_server_name_appends_the_first_argument() {
    let mut ctx = node("server", &[]);
    handle_create_server(&mut ctx);
    ctx.current_cmd_args = vec!["example.org".to_string()];
    assert_eq!(handle_set_server_name(&mut ctx), Ok(()));
    ctx.current_cmd_args = vec!["example.net".to_string(), "example.com".to_string()];
    assert_eq!(handle_set_server_name(&mut ctx), Ok(()));
    assert_eq!(server_of(&ctx).server_names(), vec!["example.org", "example.net"]);
    assert_eq!(server_of(&ctx).listen(), "127.0.0.1:8080");
}

#[test]
fn set_server_name_without_argument_is_an_error() {
    let mut ctx = node("server", &[]);
    handle_create_server(&mut ctx);
    assert_eq!(handle_set_server_name(&mut ctx), Err(DirectiveError::MissingArgument));
    assert!(server_of(&ctx).server_names().is_empty());
}

#[test]
fn set_server_name_without_server_context_does_nothing() {
    let mut ctx = with_args(node("server", &[]), &["example.org"]);
    assert_eq!(handle_set_server_name(&mut ctx), Ok(()));
    assert!(ctx.current_ctx.is_none());
}

#[test]
fn dispatch_runs_the_handler_of_each_valid_pair() {
    let registry = standard();
    let mut ctx = node("server", &[]);
    assert_eq!(registry.dispatch("server", BlockType::Http, &mut ctx), Ok(()));
    assert_eq!(ctx.current_block_type_id(), Some(BlockType::Server));

    ctx.current_cmd_args = vec!["127.0.0.1:9090".to_string()];
    assert_eq!(registry.dispatch("listen", BlockType::Server, &mut ctx), Ok(()));
    assert_eq!(server_of(&ctx).listen(), "127.0.0.1:9090");
    assert!(server_of(&ctx).server_names().is_empty());

    ctx.current_cmd_args = vec!["example.org".to_string()];
    assert_eq!(registry.dispatch("server_name", BlockType::Server, &mut ctx), Ok(()));
    assert_eq!(server_of(&ctx).server_names(), vec!["example.org"]);
    assert_eq!(server_of(&ctx).listen(), "127.0.0.1:9090");
}

#[test]
fn dispatch_changes_nothing_but_the_context() {
    let registry = standard();
    let mut ctx = with_args(node(" server ", &["one"]), &["127.0.0.1:9090"]);
    ctx.children.push(node("location", &["/a"]));
    ctx.children.push(node("ssl", &[]));
    handle_create_server(&mut ctx);
    assert_eq!(registry.dispatch("listen", BlockType::Server, &mut ctx), Ok(()));
    assert_eq!(ctx.block_name, " server ");
    assert_eq!(ctx.block_args, vec!["one"]);
    assert_eq!(ctx.current_cmd_args, vec!["127.0.0.1:9090"]);
    assert_eq!(ctx.children.len(), 2);
    assert_eq!(ctx.children[0].block_name, "location");
    assert_eq!(ctx.children[0].block_args, vec!["/a"]);
    assert_eq!(ctx.children[1].block_name, "ssl");
}

#[test]
fn dispatch_reports_an_unknown_directive() {
    let registry = standard();
    let mut ctx = with_args(node("server", &[]), &["x"]);
    handle_create_server(&mut ctx);
    assert_eq!(
        registry.dispatch("root", BlockType::Server, &mut ctx),
        Err(DirectiveError::UnknownDirective)
    );
    assert_eq!(
        registry.dispatch("", BlockType::Server, &mut ctx),
        Err(DirectiveError::UnknownDirective)
    );
    assert_eq!(
        registry.dispatch("Listen", BlockType::Server, &mut ctx),
        Err(DirectiveError::UnknownDirective)
    );
    assert_eq!(server_of(&ctx).listen(), "127.0.0.1:8080");
}

#[test]
fn dispatch_refuses_a_directive_in_the_wrong_block() {
    let registry = standard();
    let mut ctx = with_args(node("server", &[]), &["127.0.0.1:9090"]);
    handle_create_server(&mut ctx);
    for block_type in [BlockType::Http, BlockType::Location, BlockType::Ssl] {
        assert_eq!(
            registry.dispatch("listen", block_type, &mut ctx),
            Err(DirectiveError::NotValidHere)
        );
        assert_eq!(
            registry.dispatch("server_name", block_type, &mut ctx),
            Err(DirectiveError::NotValidHere)
        );
    }
    for block_type in [BlockType::Server, BlockType::Location, BlockType::Ssl] {
        assert_eq!(
            registry.dispatch("server", block_type, &mut ctx),
            Err(DirectiveError::NotValidHere)
        );
    }
    assert_eq!(server_of(&ctx).listen(), "127.0.0.1:8080");
    assert!(server_of(&ctx).server_names().is_empty());
}

#[test]
fn dispatch_reports_a_missing_argument() {
    let registry = standard();
    let mut ctx = node("server", &[]);
    handle_create_server(&mut ctx);
    assert_eq!(
        registry.dispatch("listen", BlockType::Server, &mut ctx),
        Err(DirectiveError::MissingArgument)
    );
    assert_eq!(
        registry.dispatch("server_name", BlockType::Server, &mut ctx),
        Err(DirectiveError::MissingArgument)
    );
}

#[test]
fn an_empty_registry_knows_no_directive() {
    let registry = DirectiveRegistry::new();
    let mut ctx = node("server", &[]);
    assert!(registry.lookup("server").is_none());
    assert_eq!(
        registry.dispatch("server", BlockType::Http, &mut ctx),
        Err(DirectiveError::UnknownDirective)
    );
    assert!(ctx.current_ctx.is_none());
}

#[test]
fn lookup_finds_what_was_registered() {
    let registry = standard();
    let listen = registry.lookup("listen").expect("listen is registered");
    assert_eq!(listen.name, "listen");
    assert_eq!(listen.handler, DirectiveHandler::SetListen);
    assert_eq!(listen.allowed_block_types, vec![BlockType::Server]);
    assert!(listen.allows(BlockType::Server));
    assert!(!listen.allows(BlockType::Http));
    let server = registry.lookup("server").expect("server is registered");
    assert_eq!(server.handler, DirectiveHandler::CreateServer);
    assert!(server.allows(BlockType::Http));
    assert!(registry.lookup("location").is_none());
}

#[test]
fn a_later_registration_replaces_an_earlier_one() {
    let mut registry = standard();
    registry.register(Directive::new(
        "listen",
        vec![BlockType::Http, BlockType::Location],
        DirectiveHandler::SetServerName,
    ));
    let mut ctx = with_args(node("server", &[]), &["example.org"]);
    handle_create_server(&mut ctx);
    assert_eq!(
        registry.dispatch("listen", BlockType::Server, &mut ctx),
        Err(DirectiveError::NotValidHere)
    );
    assert_eq!(registry.dispatch("listen", BlockType::Location, &mut ctx), Ok(()));
    assert_eq!(server_of(&ctx).server_names(), vec!["example.org"]);
    assert_eq!(server_of(&ctx).listen(), "127.0.0.1:8080");
}

#[test]
fn registration_order_does_not_matter() {
    let a = || Directive::new("listen", vec![BlockType::Server], DirectiveHandler::SetListen);
    let b = || Directive::new("server", vec![BlockType::Http], DirectiveHandler::CreateServer);
    let mut first = DirectiveRegistry::new();
    first.register(a());
    first.register(b());
    let mut second = DirectiveRegistry::new();
    second.register(b());
    second.register(a());
    for registry in [first, second] {
        let mut ctx = with_args(node("server", &[]), &["127.0.0.1:9090"]);
        assert_eq!(registry.dispatch("server", BlockType::Http, &mut ctx), Ok(()));
        assert_eq!(registry.dispatch("listen", BlockType::Server, &mut ctx), Ok(()));
        assert_eq!(server_of(&ctx).listen(), "127.0.0.1:9090");
        assert_eq!(
            registry.dispatch("server_name", BlockType::Server, &mut ctx),
            Err(DirectiveError::UnknownDirective)
        );
    }
}

#[test]
fn a_directive_without_blocks_is_valid_nowhere() {
    let mut registry = DirectiveRegistry::new();
    registry.register(Directive::new("server", Vec::new(), DirectiveHandler::CreateServer));
    let mut ctx = node("server", &[]);
    for block_type in [BlockType::Http, BlockType::Server, BlockType::Location, BlockType::Ssl] {
        assert_eq!(
            registry.dispatch("server", block_type, &mut ctx),
            Err(DirectiveError::NotValidHere)
        );
    }
    assert!(ctx.current_ctx.is_none());
}

#[test]
fn block_contexts_carry_their_kind() {
    let mut ctx = node("x", &[]);
    assert_eq!(ctx.current_block_type_id(), None);
    ctx.current_ctx = Some(BlockContext::Http);
    assert_eq!(ctx.current_block_type_id(), Some(BlockType::Http));
    ctx.current_ctx =
        Some(BlockContext::Location(httpd_core::http_location::HttpLocationContext::new()));
    assert_eq!(ctx.current_block_type_id(), Some(BlockType::Location));
    ctx.current_ctx = Some(BlockContext::Ssl(httpd_core::http_ssl::HttpSslContext::new()));
    assert_eq!(ctx.current_block_type_id(), Some(BlockType::Ssl));
}
