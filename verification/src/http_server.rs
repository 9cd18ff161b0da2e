//! The `server` block: its context, the directives that fill it, the build of
//! a run-ready server from a configuration tree, and the decisions of the
//! accept loop.

use crate::config::{
    lemma_nodes_view, nodes_view, BlockContext, BlockContextView, BlockType, ConfigContext,
    ConfigContextView,
};
use crate::directive::{
    dispatch_spec, handler_effect, Directive, DirectiveError, DirectiveHandler, DirectiveRegistry,
    DirectiveView,
};
use crate::http_location::handlers_view;
use crate::http_ssl::{server_tls_config, tls_material_decodes, HttpSSL, TlsError};
use crate::http_type::HttpVersion;
use crate::processor::{has_route, Handler, HttpProcessor, RouteView};
use crate::text::{strings_view, trim, trimmed_is};
use rustls::ServerConfig;
use std::sync::Arc;
use vstd::prelude::*;
use vstd::string::*;

verus! {

/// The state of a `server` block as contracts see it.
pub ghost struct HttpServerContextView {
    pub listen: Seq<char>,
    pub server_names: Seq<Seq<char>>,
    pub http_version: HttpVersion,
    pub routes: Seq<RouteView>,
}

/// The address a server binds unless a `listen` directive names another.
pub open spec fn default_listen() -> Seq<char> {
    "127.0.0.1:8080"@
}

/// The view of a context fresh from `HttpServerContext::new`.
pub open spec fn fresh_server_context() -> HttpServerContextView {
    HttpServerContextView {
        listen: default_listen(),
        server_names: Seq::empty(),
        http_version: HttpVersion::Http11,
        routes: Seq::empty(),
    }
}

/// The state a `server` block accumulates: the bind address, the virtual-host
/// names, the protocol version, and the route table under construction.
pub struct HttpServerContext {
    listen: String,
    server_names: Vec<String>,
    http_version: HttpVersion,
    processor: HttpProcessor,
}

impl View for HttpServerContext {
    type V = HttpServerContextView;

    closed spec fn view(&self) -> HttpServerContextView {
        HttpServerContextView {
            listen: self.listen@,
            server_names: strings_view(self.server_names@),
            http_version: self.http_version,
            routes: self.processor@,
        }
    }
}

impl HttpServerContext {
    /// A context with the default bind address, no names and no routes.
    pub fn new() -> (ctx: HttpServerContext)
        ensures
            ctx@ == fresh_server_context(),
    {
        let ctx = HttpServerContext {
            listen: "127.0.0.1:8080".to_owned(),
            server_names: Vec::new(),
            http_version: HttpVersion::default(),
            processor: HttpProcessor::new(),
        };
        proof {
            assert(ctx@.server_names =~= Seq::<Seq<char>>::empty());
        }
        ctx
    }

    /// Sets the bind address.
    pub fn set_listen(&mut self, addr: &str)
        ensures
            final(self)@ == (HttpServerContextView { listen: addr@, ..old(self)@ }),
    {
        self.listen = addr.to_owned();
    }

    /// The bind address.
    pub fn listen(&self) -> (addr: String)
        ensures
            addr@ == self@.listen,
    {
        self.listen.clone()
    }

    /// Appends a virtual-host name.
    pub fn add_server_name(&mut self, name: &str)
        ensures
            final(self)@ == (HttpServerContextView {
                server_names: old(self)@.server_names.push(name@),
                ..old(self)@
            }),
    {
        self.server_names.push(name.to_owned());
        proof {
            assert(strings_view(self.server_names@) =~= strings_view(old(self).server_names@).push(
                name@,
            ));
        }
    }

    /// The virtual-host names, in the order they were added.
    pub fn server_names(&self) -> (names: Vec<String>)
        ensures
            strings_view(names@) == self@.server_names,
    {
        let mut names: Vec<String> = Vec::new();
        let mut i: usize = 0;
        while i < self.server_names.len()
            invariant
                i <= self.server_names@.len(),
                names@.len() == i,
                forall|k: int| 0 <= k < i ==> names@[k]@ == self.server_names@[k]@,
            decreases self.server_names.len() - i,
        {
            names.push(self.server_names[i].clone());
            i = i + 1;
        }
        proof {
            assert(strings_view(names@) =~= strings_view(self.server_names@));
        }
        names
    }

    /// The protocol version.
    pub fn get_http_version(&self) -> (version: HttpVersion)
        ensures
            version == self@.http_version,
    {
        self.http_version
    }

    /// Registers a route in the table under construction.
    pub(crate) fn add_route(&mut self, path: String, status_code: u16, handler: Handler)
        ensures
            final(self)@ == (HttpServerContextView {
                routes: old(self)@.routes.push(
                    (RouteView { path: path@, status_code, response: handler@ }),
                ),
                ..old(self)@
            }),
    {
        self.processor.add_handler(path, status_code, handler);
    }

    /// Moves the route table out and leaves an empty one behind.
    pub(crate) fn take_processor(&mut self) -> (taken: HttpProcessor)
        ensures
            taken@ == old(self)@.routes,
            final(self)@ == (HttpServerContextView { routes: Seq::empty(), ..old(self)@ }),
    {
        let mut taken = HttpProcessor::new();
        std::mem::swap(&mut self.processor, &mut taken);
        taken
    }
}

impl Default for HttpServerContext {
    /// A context with an empty bind address, no names and no routes.
    fn default() -> (ctx: HttpServerContext)
        ensures
            ctx@ == (HttpServerContextView { listen: Seq::empty(), ..fresh_server_context() }),
    {
        let ctx = HttpServerContext {
            listen: String::new(),
            server_names: Vec::new(),
            http_version: HttpVersion::default(),
            processor: HttpProcessor::new(),
        };
        proof {
            assert(ctx@.server_names =~= Seq::<Seq<char>>::empty());
        }
        ctx
    }
}

/// What the `server` directive makes of a node: the node gets a fresh server
/// context, whatever context it had.
pub open spec fn create_server_effect(node: ConfigContextView) -> ConfigContextView {
    ConfigContextView {
        current_ctx: Some(BlockContextView::Server(fresh_server_context())),
        ..node
    }
}

/// What the `listen` directive makes of a node: the first argument becomes
/// the bind address of the node's server context. A node without a server
/// context is left as it is; a directive without an argument is an error.
pub open spec fn set_listen_effect(node: ConfigContextView) -> Result<
    ConfigContextView,
    DirectiveError,
> {
    if node.current_cmd_args.len() == 0 {
        Err(DirectiveError::MissingArgument)
    } else {
        match node.current_ctx {
            Some(BlockContextView::Server(server)) => Ok(
                ConfigContextView {
                    current_ctx: Some(
                        BlockContextView::Server(
                            HttpServerContextView { listen: node.current_cmd_args[0], ..server },
                        ),
                    ),
                    ..node
                },
            ),
            _ => Ok(node),
        }
    }
}

/// What the `server_name` directive makes of a node: the first argument is
/// appended to the names of the node's server context. A node without a
/// server context is left as it is; a directive without an argument is an
/// error.
pub open spec fn set_server_name_effect(node: ConfigContextView) -> Result<
    ConfigContextView,
    DirectiveError,
> {
    if node.current_cmd_args.len() == 0 {
        Err(DirectiveError::MissingArgument)
    } else {
        match node.current_ctx {
            Some(BlockContextView::Server(server)) => Ok(
                ConfigContextView {
                    current_ctx: Some(
                        BlockContextView::Server(
                            HttpServerContextView {
                                server_names: server.server_names.push(node.current_cmd_args[0]),
                                ..server
                            },
                        ),
                    ),
                    ..node
                },
            ),
            _ => Ok(node),
        }
    }
}

/// Handles `server`: gives the node a new server context.
pub fn handle_create_server(ctx: &mut ConfigContext)
    ensures
        final(ctx)@ == create_server_effect(old(ctx)@),
{
    ctx.current_ctx = Some(BlockContext::Server(HttpServerContext::new()));
}

/// Handles `listen`: sets the bind address of the node's server context.
pub fn handle_set_listen(ctx: &mut ConfigContext) -> (done: Result<(), DirectiveError>)
    ensures
        match set_listen_effect(old(ctx)@) {
            Ok(after) => done is Ok && final(ctx)@ == after,
            Err(e) => done == Err::<(), DirectiveError>(e) && final(ctx)@ == old(ctx)@,
        },
{
    if ctx.current_cmd_args.len() == 0 {
        return Err(DirectiveError::MissingArgument);
    }
    match ctx.current_ctx.take() {
        Some(BlockContext::Server(mut server)) => {
            server.set_listen(ctx.current_cmd_args[0].as_str());
            ctx.current_ctx = Some(BlockContext::Server(server));
        },
        other => {
            ctx.current_ctx = other;
        },
    }
    Ok(())
}

/// Handles `server_name`: appends a name to the node's server context.
pub fn handle_set_server_name(ctx: &mut ConfigContext) -> (done: Result<(), DirectiveError>)
    ensures
        match set_server_name_effect(old(ctx)@) {
            Ok(after) => done is Ok && final(ctx)@ == after,
            Err(e) => done == Err::<(), DirectiveError>(e) && final(ctx)@ == old(ctx)@,
        },
{
    if ctx.current_cmd_args.len() == 0 {
        return Err(DirectiveError::MissingArgument);
    }
    match ctx.current_ctx.take() {
        Some(BlockContext::Server(mut server)) => {
            server.add_server_name(ctx.current_cmd_args[0].as_str());
            ctx.current_ctx = Some(BlockContext::Server(server));
        },
        other => {
            ctx.current_ctx = other;
        },
    }
    Ok(())
}

/// A table with the directives of the server block registered in it:
/// `server`, valid in an `http` block, and `listen` and `server_name`, valid
/// in a `server` block.
pub open spec fn with_server_directives(table: Map<Seq<char>, DirectiveView>) -> Map<
    Seq<char>,
    DirectiveView,
> {
    table.insert(
        "server"@,
        DirectiveView { allowed: set![BlockType::Http], handler: DirectiveHandler::CreateServer },
    ).insert(
        "listen"@,
        DirectiveView { allowed: set![BlockType::Server], handler: DirectiveHandler::SetListen },
    ).insert(
        "server_name"@,
        DirectiveView {
            allowed: set![BlockType::Server],
            handler: DirectiveHandler::SetServerName,
        },
    )
}

/// Registers the directives of the server block.
pub fn register_commands(registry: &mut DirectiveRegistry)
    ensures
        final(registry)@ == with_server_directives(old(registry)@),
{
    let server = Directive::new("server", vec![BlockType::Http], DirectiveHandler::CreateServer);
    let listen = Directive::new("listen", vec![BlockType::Server], DirectiveHandler::SetListen);
    let server_name = Directive::new(
        "server_name",
        vec![BlockType::Server],
        DirectiveHandler::SetServerName,
    );
    proof {
        assert(seq![BlockType::Http].to_set() =~= set![BlockType::Http]) by {
            assert(seq![BlockType::Http][0] == BlockType::Http);
        }
        assert(seq![BlockType::Server].to_set() =~= set![BlockType::Server]) by {
            assert(seq![BlockType::Server][0] == BlockType::Server);
        }
        assert(server.allowed_block_types@ =~= seq![BlockType::Http]);
        assert(listen.allowed_block_types@ =~= seq![BlockType::Server]);
        assert(server_name.allowed_block_types@ =~= seq![BlockType::Server]);
    }
    registry.register(server);
    registry.register(listen);
    registry.register(server_name);
}

/// Why a server could not be built from a configuration node.
#[derive(Clone, Copy, Debug, PartialEq, Eq, Structural)]
pub enum BuildError {
    /// The node holds no server context.
    NotAServerBlock,
    /// A `location` block has no path argument.
    LocationWithoutPath,
    /// A `location` block's handlers were taken by an earlier build.
    LocationConsumed,
}

/// Whether a node is a `location` block.
pub open spec fn is_location(node: ConfigContextView) -> bool {
    trim(node.block_name) == "location"@
}

/// Whether a node is an `ssl` block.
pub open spec fn is_ssl(node: ConfigContextView) -> bool {
    trim(node.block_name) == "ssl"@
}

/// The routes that handlers make under one path, in the handlers' order.
pub open spec fn routes_for(path: Seq<char>, handlers: Seq<(u16, Seq<u8>)>) -> Seq<RouteView> {
    Seq::new(
        handlers.len(),
        |i: int| RouteView { path, status_code: handlers[i].0, response: handlers[i].1 },
    )
}

/// The routes a child block contributes to its server: those of a `location`
/// block with a path and an open location context, under that path.
pub open spec fn location_routes(node: ConfigContextView) -> Seq<RouteView> {
    if is_location(node) && node.block_args.len() > 0 {
        match node.current_ctx {
            Some(BlockContextView::Location(Some(handlers))) => routes_for(
                node.block_args[0],
                handlers,
            ),
            _ => Seq::empty(),
        }
    } else {
        Seq::empty()
    }
}

/// The routes all children contribute, in the children's order.
pub open spec fn merged_routes(children: Seq<ConfigContextView>) -> Seq<RouteView>
    decreases children.len(),
{
    if children.len() == 0 {
        Seq::empty()
    } else {
        merged_routes(children.drop_last()) + location_routes(children.last())
    }
}

/// What is wrong with a child block, if anything: a `location` block needs a
/// path, and its context must not have been consumed.
pub open spec fn child_fault(node: ConfigContextView) -> Option<BuildError> {
    if !is_location(node) {
        None
    } else if node.block_args.len() == 0 {
        Some(BuildError::LocationWithoutPath)
    } else if node.current_ctx == Some(BlockContextView::Location(None)) {
        Some(BuildError::LocationConsumed)
    } else {
        None
    }
}

/// The fault of the first faulty child, in the children's order.
pub open spec fn first_fault(children: Seq<ConfigContextView>) -> Option<BuildError>
    decreases children.len(),
{
    if children.len() == 0 {
        None
    } else {
        match child_fault(children[0]) {
            Some(fault) => Some(fault),
            None => first_fault(children.drop_first()),
        }
    }
}

/// Why no server can be built from a node, if anything.
pub open spec fn build_fault(node: ConfigContextView) -> Option<BuildError> {
    match node.current_ctx {
        Some(BlockContextView::Server(_)) => first_fault(node.children),
        _ => Some(BuildError::NotAServerBlock),
    }
}

/// A child block after a build: the context of a `location` block is
/// consumed.
pub open spec fn consumed_child(node: ConfigContextView) -> ConfigContextView {
    if is_location(node) && (node.current_ctx matches Some(BlockContextView::Location(_))) {
        ConfigContextView { current_ctx: Some(BlockContextView::Location(None)), ..node }
    } else {
        node
    }
}

/// A server node after a build: its route table is empty again and its
/// `location` children are consumed.
pub open spec fn built_node(node: ConfigContextView) -> ConfigContextView {
    ConfigContextView {
        current_ctx: match node.current_ctx {
            Some(BlockContextView::Server(server)) => Some(
                BlockContextView::Server(
                    HttpServerContextView { routes: Seq::empty(), ..server },
                ),
            ),
            other => other,
        },
        children: Seq::new(node.children.len(), |i: int| consumed_child(node.children[i])),
        ..node
    }
}

/// Whether an `ssl` child holds a certificate and a key that both decode.
pub open spec fn offers_tls(node: ConfigContextView) -> bool {
    &&& is_ssl(node)
    &&& node.current_ctx matches Some(BlockContextView::Ssl(ssl))
    &&& tls_material_decodes(ssl)
}

/// Whether some child offers TLS material.
pub open spec fn tls_offered(children: Seq<ConfigContextView>) -> bool {
    exists|i: int| 0 <= i < children.len() && offers_tls(#[trigger] children[i])
}

/// A built server as contracts see it.
pub ghost struct HttpServerView {
    pub listen: Seq<char>,
    pub http_version: HttpVersion,
    pub routes: Seq<RouteView>,
    pub tls: bool,
    pub running: bool,
}

/// The server a node without fault builds, but for its TLS configuration.
pub open spec fn built_server(node: ConfigContextView, tls: bool) -> HttpServerView {
    let server = node.current_ctx->0->Server_0;
    HttpServerView {
        listen: server.listen,
        http_version: server.http_version,
        routes: server.routes + merged_routes(node.children),
        tls,
        running: true,
    }
}

/// The time an accept loop sleeps after an attempt that found no connection,
/// in milliseconds.
pub const POLL_INTERVAL_MS: u64 = 10;

/// What one attempt to accept a connection gave.
#[derive(Clone, Copy, Debug, PartialEq, Eq, Structural)]
pub enum AcceptOutcome {
    /// A connection was accepted.
    Connection,
    /// No connection is waiting.
    WouldBlock,
    /// The attempt failed for another reason.
    Failed,
    /// The listener will give no more connections.
    Closed,
}

/// What the accept loop does with the outcome of an attempt.
#[derive(Clone, Copy, Debug, PartialEq, Eq, Structural)]
pub enum AcceptAction {
    /// Hand the connection to a worker.
    Dispatch,
    /// Sleep for so many milliseconds.
    Sleep(u64),
    /// Report the failure and go on.
    Report,
    /// Leave the loop.
    Exit,
}

/// The action that answers an outcome.
pub open spec fn accept_action(outcome: AcceptOutcome) -> AcceptAction {
    match outcome {
        AcceptOutcome::Connection => AcceptAction::Dispatch,
        AcceptOutcome::WouldBlock => AcceptAction::Sleep(POLL_INTERVAL_MS),
        AcceptOutcome::Failed => AcceptAction::Report,
        AcceptOutcome::Closed => AcceptAction::Exit,
    }
}

/// A server after `start`: it runs only if it has routes and was not stopped.
pub open spec fn started(server: HttpServerView) -> HttpServerView {
    HttpServerView { running: server.running && server.routes.len() > 0, ..server }
}

/// A server after `stop`.
pub open spec fn stopped(server: HttpServerView) -> HttpServerView {
    HttpServerView { running: false, ..server }
}

/// A server after it has acted on an outcome: a closed listener ends the
/// loop.
pub open spec fn after_accept(server: HttpServerView, outcome: AcceptOutcome) -> HttpServerView {
    if outcome == AcceptOutcome::Closed {
        stopped(server)
    } else {
        server
    }
}

/// A run-ready server: the address to bind, the frozen route table, the
/// optional TLS configuration, the protocol version and the shutdown flag.
pub struct HttpServer {
    listen: String,
    http_version: HttpVersion,
    processor: Arc<HttpProcessor>,
    ssl: Option<Arc<ServerConfig>>,
    running: bool,
}

impl View for HttpServer {
    type V = HttpServerView;

    closed spec fn view(&self) -> HttpServerView {
        HttpServerView {
            listen: self.listen@,
            http_version: self.http_version,
            routes: (*self.processor)@,
            tls: self.ssl is Some,
            running: self.running,
        }
    }
}

/// The TLS configuration a server keeps after one more `ssl` block: that of
/// the block where the block gave one, else the one it had.
pub fn adopt_tls(current: Option<Arc<ServerConfig>>, attempt: Result<ServerConfig, TlsError>) -> (kept:
    Option<Arc<ServerConfig>>)
    ensures
        match attempt {
            Ok(config) => kept matches Some(shared) && *shared == config,
            Err(_) => kept == current,
        },
{
    match attempt {
        Ok(config) => Some(Arc::new(config)),
        Err(_) => current,
    }
}

/// Registers the handlers of one location under its path.
fn register_handlers(server: &mut HttpServerContext, path: &String, handlers: Vec<(u16, Handler)>)
    ensures
        final(server)@ == (HttpServerContextView {
            routes: old(server)@.routes + routes_for(path@, handlers_view(handlers@)),
            ..old(server)@
        }),
{
    let ghost added = routes_for(path@, handlers_view(handlers@));
    proof {
        assert(old(server)@.routes + added.take(0) =~= old(server)@.routes);
    }
    for pair in it: handlers
        invariant
            added == routes_for(path@, handlers_view(handlers@)),
            it.seq() == handlers@,
            server@ == (HttpServerContextView {
                routes: old(server)@.routes + added.take(it.index() as int),
                ..old(server)@
            }),
    {
        let ghost i = it.index() as int;
        let (status_code, handler) = pair;
        server.add_route(path.clone(), status_code, handler);
        proof {
            assert(added.take(i + 1) =~= added.take(i).push(added[i]));
            assert((old(server)@.routes + added.take(i)).push(added[i]) =~= old(server)@.routes
                + added.take(i + 1));
        }
    }
    proof {
        assert(added.take(handlers@.len() as int) =~= added);
    }
}

/// Merges one child block into the server under construction.
fn merge_child(
    child: &mut ConfigContext,
    server: &mut HttpServerContext,
    tls: Option<Arc<ServerConfig>>,
) -> (kept: Option<Arc<ServerConfig>>)
    requires
        child_fault(old(child)@) is None,
    ensures
        final(child)@ == consumed_child(old(child)@),
        final(server)@ == (HttpServerContextView {
            routes: old(server)@.routes + location_routes(old(child)@),
            ..old(server)@
        }),
        kept is Some ==> tls is Some || offers_tls(old(child)@),
{
    if trimmed_is(child.block_name.as_str(), "location") {
        let kept = tls;
        match child.current_ctx.take() {
            Some(BlockContext::Location(mut location)) => {
                let taken = location.take_handlers();
                child.current_ctx = Some(BlockContext::Location(location));
                match taken {
                    Some(handlers) => {
                        register_handlers(server, &child.block_args[0], handlers);
                    },
                    None => {},
                }
            },
            other => {
                child.current_ctx = other;
            },
        }
        proof {
            assert(server@.routes =~= old(server)@.routes + location_routes(old(child)@));
        }
        kept
    } else if trimmed_is(child.block_name.as_str(), "ssl") {
        proof {
            assert(server@.routes =~= old(server)@.routes + location_routes(old(child)@));
        }
        match &child.current_ctx {
            Some(BlockContext::Ssl(ssl_ctx)) => match HttpSSL::from_config(ssl_ctx) {
                Ok(ssl) => adopt_tls(tls, server_tls_config(&ssl)),
                Err(_) => tls,
            },
            _ => tls,
        }
    } else {
        proof {
            assert(server@.routes =~= old(server)@.routes + location_routes(old(child)@));
        }
        tls
    }
}

/// Finds what is wrong with a child block, if anything.
fn check_child(child: &ConfigContext) -> (fault: Option<BuildError>)
    ensures
        fault == child_fault(child@),
{
    if !trimmed_is(child.block_name.as_str(), "location") {
        None
    } else if child.block_args.len() == 0 {
        Some(BuildError::LocationWithoutPath)
    } else {
        match &child.current_ctx {
            Some(BlockContext::Location(location)) => {
                if location.is_consumed() {
                    Some(BuildError::LocationConsumed)
                } else {
                    None
                }
            },
            _ => None,
        }
    }
}

/// Finds the fault of the first faulty child, if any.
fn check_children(children: &Vec<ConfigContext>) -> (fault: Option<BuildError>)
    ensures
        fault == first_fault(nodes_view(children@)),
{
    let ghost all = nodes_view(children@);
    let mut i: usize = 0;
    proof {
        assert(all.skip(0) =~= all);
        lemma_nodes_view(children@);
    }
    while i < children.len()
        invariant
            i <= children@.len(),
            all == nodes_view(children@),
            all.len() == children@.len(),
            forall|k: int| 0 <= k < all.len() ==> (#[trigger] all[k]) == children@[k]@,
            first_fault(all) == first_fault(all.skip(i as int)),
        decreases children.len() - i,
    {
        proof {
            assert(all.skip(i as int)[0] == children@[i as int]@);
            assert(all.skip(i as int).drop_first() =~= all.skip(i + 1));
        }
        match check_child(&children[i]) {
            Some(fault) => {
                return Some(fault);
            },
            None => {},
        }
        i = i + 1;
    }
    None
}

/// Where no child is the first faulty one, no child is faulty.
pub proof fn lemma_no_fault(children: Seq<ConfigContextView>, i: int)
    requires
        first_fault(children) is None,
        0 <= i < children.len(),
    ensures
        child_fault(children[i]) is None,
    decreases children.len(),
{
    if i > 0 {
        lemma_no_fault(children.drop_first(), i - 1);
    }
}

impl HttpServer {
    /// Builds a server from the node of a `server` block.
    ///
    /// The node must hold a server context, each `location` child a path and
    /// a context that no build has consumed; otherwise the build fails and
    /// the tree stays as it was. The handlers of the `location` children are
    /// taken and registered under the children's paths, in the children's
    /// order, after the routes the server context held; the context's route
    /// table is left empty. TLS is enabled only where an `ssl` child holds a
    /// certificate and a key that decode; whether the TLS library accepts
    /// them decides the rest, and the last accepted child wins.
    pub fn new(server_config: &mut ConfigContext) -> (built: Result<HttpServer, BuildError>)
        ensures
            match build_fault(old(server_config)@) {
                Some(fault) => {
                    &&& built == Err::<HttpServer, BuildError>(fault)
                    &&& final(server_config)@ == old(server_config)@
                },
                None => {
                    &&& built matches Ok(server)
                    &&& server@ == built_server(old(server_config)@, server@.tls)
                    &&& server@.tls ==> tls_offered(old(server_config)@.children)
                    &&& final(server_config)@ == built_node(old(server_config)@)
                },
            },
    {
        let ghost before = server_config@;
        let ghost nodes = server_config.children@;
        proof {
            lemma_nodes_view(nodes);
        }
        let mut server_ctx = match server_config.current_ctx.take() {
            Some(BlockContext::Server(ctx)) => ctx,
            other => {
                server_config.current_ctx = other;
                return Err(BuildError::NotAServerBlock);
            },
        };
        match check_children(&server_config.children) {
            Some(fault) => {
                server_config.current_ctx = Some(BlockContext::Server(server_ctx));
                return Err(fault);
            },
            None => {},
        }
        let ghost context = server_ctx@;
        let listen = server_ctx.listen();
        let http_version = server_ctx.get_http_version();
        let mut ssl: Option<Arc<ServerConfig>> = None;
        let n: usize = server_config.children.len();
        let mut i: usize = 0;
        proof {
            assert(before.children.take(0) =~= Seq::<ConfigContextView>::empty());
            assert(context.routes + merged_routes(before.children.take(0)) =~= context.routes);
        }
        while i < n
            invariant
                i <= n,
                n == nodes.len(),
                server_config.children@.len() == n,
                before.children.len() == n,
                forall|k: int| 0 <= k < n ==> (#[trigger] before.children[k]) == nodes[k]@,
                first_fault(before.children) is None,
                forall|k: int| 0 <= k < i ==> server_config.children@[k]@ == consumed_child(nodes[k]@),
                forall|k: int| i <= k < n ==> server_config.children@[k] == nodes[k],
                server_ctx@ == (HttpServerContextView {
                    routes: context.routes + merged_routes(before.children.take(i as int)),
                    ..context
                }),
                ssl is Some ==> tls_offered(before.children),
                server_config.block_name == old(server_config).block_name,
                server_config.block_args == old(server_config).block_args,
                server_config.current_cmd_args == old(server_config).current_cmd_args,
                server_config.current_ctx is None,
            decreases n - i,
        {
            proof {
                lemma_no_fault(before.children, i as int);
                assert(before.children.take(i + 1).drop_last() =~= before.children.take(i as int));
                assert(before.children.take(i + 1).last() == nodes[i as int]@);
                let routes = context.routes;
                let done = merged_routes(before.children.take(i as int));
                let more = location_routes(nodes[i as int]@);
                assert((routes + done) + more =~= routes + (done + more));
            }
            ssl = merge_child(&mut server_config.children[i], &mut server_ctx, ssl);
            proof {
                if ssl is Some && !tls_offered(before.children) {
                    assert(offers_tls(before.children[i as int]));
                }
            }
            i = i + 1;
        }
        let processor = server_ctx.take_processor();
        server_config.current_ctx = Some(BlockContext::Server(server_ctx));
        proof {
            assert(before.children.take(n as int) =~= before.children);
            lemma_nodes_view(server_config.children@);
            assert(server_config@.children =~= built_node(before).children);
        }
        Ok(HttpServer { listen, http_version, processor: Arc::new(processor), ssl, running: true })
    }

    /// Begins the accept loop and says whether it is to run. A server
    /// without routes, or one that was stopped, does not run: the loop is
    /// left before any attempt to accept.
    pub fn start(&mut self) -> (run: bool)
        ensures
            final(self)@ == started(old(self)@),
            run == final(self)@.running,
    {
        if self.processor.is_empty() {
            self.running = false;
        }
        self.running
    }

    /// Asks the accept loop to end. The loop sees the request when it next
    /// asks `is_running`; connections already dispatched are not touched.
    pub fn stop(&mut self)
        ensures
            final(self)@ == stopped(old(self)@),
    {
        self.running = false;
    }

    /// Decides what the accept loop does with the outcome of an attempt.
    pub fn on_accept(&mut self, outcome: AcceptOutcome) -> (action: AcceptAction)
        ensures
            action == accept_action(outcome),
            final(self)@ == after_accept(old(self)@, outcome),
    {
        match outcome {
            AcceptOutcome::Connection => AcceptAction::Dispatch,
            AcceptOutcome::WouldBlock => AcceptAction::Sleep(POLL_INTERVAL_MS),
            AcceptOutcome::Failed => AcceptAction::Report,
            AcceptOutcome::Closed => {
                self.running = false;
                AcceptAction::Exit
            },
        }
    }

    /// The address to bind.
    pub fn listen(&self) -> (addr: String)
        ensures
            addr@ == self@.listen,
    {
        self.listen.clone()
    }

    /// The protocol version.
    pub fn http_version(&self) -> (version: HttpVersion)
        ensures
            version == self@.http_version,
    {
        self.http_version
    }

    /// The frozen route table.
    pub fn processor(&self) -> (table: &Arc<HttpProcessor>)
        ensures
            (**table)@ == self@.routes,
    {
        &self.processor
    }

    /// The TLS configuration, where TLS is enabled.
    pub fn tls_config(&self) -> (config: Option<&Arc<ServerConfig>>)
        ensures
            config is Some == self@.tls,
    {
        self.ssl.as_ref()
    }

    /// Whether the shutdown flag still reads "running".
    pub fn is_running(&self) -> (running: bool)
        ensures
            running == self@.running,
    {
        self.running
    }
}

/// Each directive of the server block, dispatched in the kind of block it is
/// valid in, runs its own handler: `server` in an `http` block creates the
/// server context, `listen` and `server_name` in a `server` block set the
/// address and append a name. In any other kind of block they are refused.
pub proof fn lemma_server_directives_dispatch(
    table: Map<Seq<char>, DirectiveView>,
    block_type: BlockType,
    node: ConfigContextView,
)
    ensures
        dispatch_spec(with_server_directives(table), "server"@, block_type, node) == if block_type
            == BlockType::Http {
            Ok::<ConfigContextView, DirectiveError>(create_server_effect(node))
        } else {
            Err::<ConfigContextView, DirectiveError>(DirectiveError::NotValidHere)
        },
        dispatch_spec(with_server_directives(table), "listen"@, block_type, node) == if block_type
            == BlockType::Server {
            set_listen_effect(node)
        } else {
            Err::<ConfigContextView, DirectiveError>(DirectiveError::NotValidHere)
        },
        dispatch_spec(with_server_directives(table), "server_name"@, block_type, node)
            == if block_type == BlockType::Server {
            set_server_name_effect(node)
        } else {
            Err::<ConfigContextView, DirectiveError>(DirectiveError::NotValidHere)
        },
{
    reveal_strlit("server");
    reveal_strlit("listen");
    reveal_strlit("server_name");
    assert("server"@ != "listen"@) by {
        assert("server"@[0] != "listen"@[0]);
    }
    assert("server"@.len() != "server_name"@.len());
    assert("listen"@.len() != "server_name"@.len());
}

/// A handler changes nothing of a node but the node's context: the block's
/// name and arguments, the directive's arguments and the children stay.
pub proof fn lemma_handler_changes_context_only(handler: DirectiveHandler, node: ConfigContextView)
    ensures
        handler_effect(handler, node) matches Ok(after) ==> after == (ConfigContextView {
            current_ctx: after.current_ctx,
            ..node
        }),
{
}

/// The routes that the server context of a node holds; none where the node
/// has no server context.
pub open spec fn context_routes(node: ConfigContextView) -> Seq<RouteView> {
    match node.current_ctx {
        Some(BlockContextView::Server(server)) => server.routes,
        _ => Seq::empty(),
    }
}

/// Outside a build a server context holds no routes: the `server` directive
/// makes a context without routes, no directive adds one, and a build, failed
/// or not, leaves none behind.
pub proof fn lemma_contexts_hold_no_routes(handler: DirectiveHandler, node: ConfigContextView)
    ensures
        context_routes(create_server_effect(node)).len() == 0,
        context_routes(node).len() == 0 && handler_effect(handler, node) is Ok ==> context_routes(
            handler_effect(handler, node)->Ok_0,
        ).len() == 0,
        context_routes(built_node(node)).len() == 0,
{
}

/// The order in which two directives of different names are registered does
/// not matter.
pub proof fn lemma_registration_order(
    table: Map<Seq<char>, DirectiveView>,
    first: Seq<char>,
    first_entry: DirectiveView,
    second: Seq<char>,
    second_entry: DirectiveView,
)
    requires
        first != second,
    ensures
        table.insert(first, first_entry).insert(second, second_entry) == table.insert(
            second,
            second_entry,
        ).insert(first, first_entry),
{
    assert(table.insert(first, first_entry).insert(second, second_entry) =~= table.insert(
        second,
        second_entry,
    ).insert(first, first_entry));
}

/// The routes of a list of children are those of its front part followed by
/// those of its back part: the children's order is the routes' order.
pub proof fn lemma_merged_routes_concat(
    front: Seq<ConfigContextView>,
    back: Seq<ConfigContextView>,
)
    ensures
        merged_routes(front + back) == merged_routes(front) + merged_routes(back),
    decreases back.len(),
{
    if back.len() == 0 {
        assert(front + back =~= front);
        assert(merged_routes(front) + merged_routes(back) =~= merged_routes(front));
    } else {
        lemma_merged_routes_concat(front, back.drop_last());
        assert((front + back).drop_last() =~= front + back.drop_last());
        assert((front + back).last() == back.last());
        assert((merged_routes(front) + merged_routes(back.drop_last())) + location_routes(
            back.last(),
        ) =~= merged_routes(front) + (merged_routes(back.drop_last()) + location_routes(
            back.last(),
        )));
    }
}

/// The routes of every child are among the merged routes.
pub proof fn lemma_merged_routes_hold(children: Seq<ConfigContextView>, i: int, k: int)
    requires
        0 <= i < children.len(),
        0 <= k < location_routes(children[i]).len(),
    ensures
        exists|m: int|
            0 <= m < merged_routes(children).len() && (#[trigger] merged_routes(children)[m])
                == location_routes(children[i])[k],
    decreases children.len(),
{
    let head = merged_routes(children.drop_last());
    if i == children.len() - 1 {
        assert(merged_routes(children)[head.len() + k] == location_routes(children[i])[k]);
    } else {
        lemma_merged_routes_hold(children.drop_last(), i, k);
        let m = choose|m: int|
            0 <= m < head.len() && (#[trigger] head[m]) == location_routes(children[i])[k];
        assert(merged_routes(children)[m] == head[m]);
    }
}

/// After a build, the server has a route for every handler of every
/// `location` child, under the child's path and the handler's status code,
/// and so its route table is not empty.
pub proof fn lemma_build_registers_every_handler(
    node: ConfigContextView,
    tls: bool,
    i: int,
    handlers: Seq<(u16, Seq<u8>)>,
    j: int,
)
    requires
        build_fault(node) is None,
        0 <= i < node.children.len(),
        is_location(node.children[i]),
        node.children[i].current_ctx == Some(BlockContextView::Location(Some(handlers))),
        0 <= j < handlers.len(),
    ensures
        has_route(built_server(node, tls).routes, node.children[i].block_args[0], handlers[j].0),
        built_server(node, tls).routes.len() > 0,
{
    let child = node.children[i];
    lemma_no_fault(node.children, i);
    assert(location_routes(child) == routes_for(child.block_args[0], handlers));
    lemma_merged_routes_hold(node.children, i, j);
    let merged = merged_routes(node.children);
    let m = choose|m: int|
        0 <= m < merged.len() && (#[trigger] merged[m]) == location_routes(child)[j];
    let routes = built_server(node, tls).routes;
    let before = node.current_ctx->0->Server_0.routes;
    assert(routes[before.len() + m] == merged[m]);
    assert(routes[before.len() + m].path == child.block_args[0] && routes[before.len()
        + m].status_code == handlers[j].0);
}

/// Children that are no `location` blocks contribute no routes.
pub proof fn lemma_no_locations_no_routes(children: Seq<ConfigContextView>)
    requires
        forall|i: int| 0 <= i < children.len() ==> !is_location(#[trigger] children[i]),
    ensures
        merged_routes(children).len() == 0,
    decreases children.len(),
{
    if children.len() > 0 {
        lemma_no_locations_no_routes(children.drop_last());
        assert(!is_location(children[children.len() - 1]));
    }
}

/// A `server` block without `location` children, whose context holds no
/// routes as every context does outside a build, builds a server with an
/// empty route table, and `start` on that server says that the accept loop is
/// not to run.
pub proof fn lemma_build_without_locations(node: ConfigContextView, tls: bool)
    requires
        node.current_ctx is Some && node.current_ctx->0 is Server,
        context_routes(node).len() == 0,
        forall|i: int| 0 <= i < node.children.len() ==> !is_location(#[trigger] node.children[i]),
    ensures
        build_fault(node) is None,
        built_server(node, tls).routes.len() == 0,
        !started(built_server(node, tls)).running,
{
    lemma_no_locations_no_routes(node.children);
    lemma_no_locations_no_fault(node.children);
}

/// Children that are no `location` blocks have no fault.
pub proof fn lemma_no_locations_no_fault(children: Seq<ConfigContextView>)
    requires
        forall|i: int| 0 <= i < children.len() ==> !is_location(#[trigger] children[i]),
    ensures
        first_fault(children) is None,
    decreases children.len(),
{
    if children.len() > 0 {
        assert(!is_location(children[0]));
        assert forall|i: int| 0 <= i < children.drop_first().len() implies !is_location(
            #[trigger] children.drop_first()[i],
        ) by {
            assert(children.drop_first()[i] == children[i + 1]);
        }
        lemma_no_locations_no_fault(children.drop_first());
    }
}

/// A `location` child without a path makes the build fail: it is never
/// skipped.
pub proof fn lemma_location_without_path_fails(node: ConfigContextView, i: int)
    requires
        0 <= i < node.children.len(),
        is_location(node.children[i]),
        node.children[i].block_args.len() == 0,
    ensures
        build_fault(node) is Some,
{
    if first_fault(node.children) is None {
        lemma_no_fault(node.children, i);
    }
}

/// After a build, the first faulty child of the tree is a consumed location,
/// if the tree has a `location` child with a location context at all.
pub proof fn lemma_consumed_children_fault(children: Seq<ConfigContextView>, i: int)
    requires
        first_fault(children) is None,
        0 <= i < children.len(),
        is_location(children[i]),
        children[i].current_ctx matches Some(BlockContextView::Location(_)),
    ensures
        first_fault(Seq::new(children.len(), |k: int| consumed_child(children[k]))) == Some(
            BuildError::LocationConsumed,
        ),
    decreases children.len(),
{
    let after = Seq::new(children.len(), |k: int| consumed_child(children[k]));
    lemma_no_fault(children, 0);
    if child_fault(after[0]) is None {
        let rest = children.drop_first();
        assert(i > 0);
        assert(rest[i - 1] == children[i]);
        lemma_consumed_children_fault(rest, i - 1);
        assert(after.drop_first() =~= Seq::new(rest.len(), |k: int| consumed_child(rest[k])));
    }
}

/// A tree is built once: a second build of a tree with a `location` child
/// that held a location context fails, because that context is consumed.
pub proof fn lemma_second_build_fails(node: ConfigContextView, i: int)
    requires
        build_fault(node) is None,
        0 <= i < node.children.len(),
        is_location(node.children[i]),
        node.children[i].current_ctx matches Some(BlockContextView::Location(_)),
    ensures
        build_fault(built_node(node)) == Some(BuildError::LocationConsumed),
{
    lemma_consumed_children_fault(node.children, i);
}

/// A server that does not run never runs again: neither `start` nor the
/// outcome of an attempt to accept brings it back. In particular the loop of
/// a stopped server ends at its next check.
pub proof fn lemma_stop_is_final(server: HttpServerView, outcome: AcceptOutcome)
    ensures
        !stopped(server).running,
        !server.running ==> !started(server).running,
        !server.running ==> !after_accept(server, outcome).running,
        accept_action(outcome) is Dispatch <==> outcome is Connection,
{
}

} // verus!
