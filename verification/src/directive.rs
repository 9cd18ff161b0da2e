//! The directive registry: a table from directive names to the block kinds a
//! directive is valid in and the handler it runs.

use crate::config::{BlockType, ConfigContext, ConfigContextView};
use crate::http_server::{
    create_server_effect, handle_create_server, handle_set_listen, handle_set_server_name,
    set_listen_effect, set_server_name_effect,
};
use vstd::prelude::*;
use vstd::string::*;

verus! {

/// Why a directive was not carried out.
#[derive(Clone, Copy, Debug, PartialEq, Eq, Structural)]
pub enum DirectiveError {
    /// No directive of that name is registered.
    UnknownDirective,
    /// The directive is not valid in the kind of block it was used in.
    NotValidHere,
    /// The directive needs an argument and got none.
    MissingArgument,
}

/// The handlers a directive can run.
#[derive(Clone, Copy, Debug, PartialEq, Eq, Structural)]
pub enum DirectiveHandler {
    CreateServer,
    SetListen,
    SetServerName,
}

/// A configuration directive.
pub struct Directive {
    pub name: String,
    pub allowed_block_types: Vec<BlockType>,
    pub handler: DirectiveHandler,
}

/// What the registry keeps of a directive, under the directive's name.
pub ghost struct DirectiveView {
    pub allowed: Set<BlockType>,
    pub handler: DirectiveHandler,
}

impl Directive {
    /// The block kinds this directive is valid in, and its handler.
    pub open spec fn entry(&self) -> DirectiveView {
        DirectiveView { allowed: self.allowed_block_types@.to_set(), handler: self.handler }
    }

    /// A directive named `name`, valid in the blocks of `allowed_block_types`.
    pub fn new(name: &str, allowed_block_types: Vec<BlockType>, handler: DirectiveHandler) -> (d:
        Directive)
        ensures
            d.name@ == name@,
            d.allowed_block_types@ == allowed_block_types@,
            d.handler == handler,
    {
        Directive { name: name.to_owned(), allowed_block_types, handler }
    }

    /// Whether the directive is valid in a block of kind `block_type`.
    pub fn allows(&self, block_type: BlockType) -> (allowed: bool)
        ensures
            allowed == self.entry().allowed.contains(block_type),
    {
        let mut i: usize = 0;
        while i < self.allowed_block_types.len()
            invariant
                i <= self.allowed_block_types@.len(),
                forall|k: int| 0 <= k < i ==> self.allowed_block_types@[k] != block_type,
            decreases self.allowed_block_types.len() - i,
        {
            if self.allowed_block_types[i] == block_type {
                proof {
                    assert(self.allowed_block_types@.contains(block_type));
                }
                return true;
            }
            i = i + 1;
        }
        proof {
            assert(!self.allowed_block_types@.contains(block_type));
        }
        false
    }
}

/// The table a sequence of registrations amounts to: a later registration of
/// a name replaces an earlier one.
pub open spec fn table_of(directives: Seq<Directive>) -> Map<Seq<char>, DirectiveView>
    decreases directives.len(),
{
    if directives.len() == 0 {
        Map::empty()
    } else {
        table_of(directives.drop_last()).insert(directives.last().name@, directives.last().entry())
    }
}

/// What running a handler makes of a node.
pub open spec fn handler_effect(handler: DirectiveHandler, node: ConfigContextView) -> Result<
    ConfigContextView,
    DirectiveError,
> {
    match handler {
        DirectiveHandler::CreateServer => Ok(create_server_effect(node)),
        DirectiveHandler::SetListen => set_listen_effect(node),
        DirectiveHandler::SetServerName => set_server_name_effect(node),
    }
}

/// What dispatching the directive `name` in a block of kind `block_type`
/// makes of a node.
pub open spec fn dispatch_spec(
    table: Map<Seq<char>, DirectiveView>,
    name: Seq<char>,
    block_type: BlockType,
    node: ConfigContextView,
) -> Result<ConfigContextView, DirectiveError> {
    if !table.contains_key(name) {
        Err(DirectiveError::UnknownDirective)
    } else if !table[name].allowed.contains(block_type) {
        Err(DirectiveError::NotValidHere)
    } else {
        handler_effect(table[name].handler, node)
    }
}

/// A directive that is not registered, or not valid in the kind of block it
/// is used in, is refused: no handler runs.
pub proof fn lemma_dispatch_refusals(
    table: Map<Seq<char>, DirectiveView>,
    name: Seq<char>,
    block_type: BlockType,
    node: ConfigContextView,
)
    ensures
        !table.contains_key(name) ==> dispatch_spec(table, name, block_type, node) == Err::<
            ConfigContextView,
            DirectiveError,
        >(DirectiveError::UnknownDirective),
        table.contains_key(name) && !table[name].allowed.contains(block_type) ==> dispatch_spec(
            table,
            name,
            block_type,
            node,
        ) == Err::<ConfigContextView, DirectiveError>(DirectiveError::NotValidHere),
        dispatch_spec(table, name, block_type, node) is Ok ==> table.contains_key(name)
            && table[name].allowed.contains(block_type) && dispatch_spec(
            table,
            name,
            block_type,
            node,
        ) == handler_effect(table[name].handler, node),
{
}

/// Runs a handler on a node.
pub fn run_handler(handler: DirectiveHandler, ctx: &mut ConfigContext) -> (done: Result<
    (),
    DirectiveError,
>)
    ensures
        match handler_effect(handler, old(ctx)@) {
            Ok(after) => done is Ok && final(ctx)@ == after,
            Err(e) => done == Err::<(), DirectiveError>(e) && final(ctx)@ == old(ctx)@,
        },
{
    match handler {
        DirectiveHandler::CreateServer => {
            handle_create_server(ctx);
            Ok(())
        },
        DirectiveHandler::SetListen => handle_set_listen(ctx),
        DirectiveHandler::SetServerName => handle_set_server_name(ctx),
    }
}

/// The registry of directives, built once before any configuration is read.
pub struct DirectiveRegistry {
    directives: Vec<Directive>,
}

impl View for DirectiveRegistry {
    type V = Map<Seq<char>, DirectiveView>;

    closed spec fn view(&self) -> Map<Seq<char>, DirectiveView> {
        table_of(self.directives@)
    }
}

impl DirectiveRegistry {
    /// A registry without directives.
    pub fn new() -> (registry: DirectiveRegistry)
        ensures
            registry@ == Map::<Seq<char>, DirectiveView>::empty(),
    {
        DirectiveRegistry { directives: Vec::new() }
    }

    /// Registers a directive under its name, in place of any directive
    /// registered under that name before.
    pub fn register(&mut self, directive: Directive)
        ensures
            final(self)@ == old(self)@.insert(directive.name@, directive.entry()),
    {
        self.directives.push(directive);
        proof {
            assert(self.directives@.drop_last() =~= old(self).directives@);
        }
    }

    /// The directive registered under `name`.
    pub fn lookup(&self, name: &str) -> (found: Option<&Directive>)
        ensures
            match found {
                Some(directive) => {
                    &&& directive.name@ == name@
                    &&& self@.contains_key(name@)
                    &&& self@[name@] == directive.entry()
                },
                None => !self@.contains_key(name@),
            },
    {
        let wanted: String = name.to_owned();
        let mut i: usize = self.directives.len();
        proof {
            assert(self.directives@.take(i as int) =~= self.directives@);
        }
        while i > 0
            invariant
                i <= self.directives@.len(),
                wanted@ == name@,
                self@.contains_key(name@) == table_of(self.directives@.take(i as int)).contains_key(
                    name@,
                ),
                self@.contains_key(name@) ==> self@[name@] == table_of(
                    self.directives@.take(i as int),
                )[name@],
            decreases i,
        {
            proof {
                let head = self.directives@.take(i as int);
                assert(head.drop_last() =~= self.directives@.take(i - 1));
                assert(head.last() == self.directives@[i - 1]);
            }
            i = i - 1;
            if self.directives[i].name == wanted {
                return Some(&self.directives[i]);
            }
        }
        None
    }

    /// Carries out the directive `name` on `ctx`, the node of the block that
    /// is being built, where `block_type` is the kind of block the directive
    /// was used in.
    pub fn dispatch(&self, name: &str, block_type: BlockType, ctx: &mut ConfigContext) -> (done:
        Result<(), DirectiveError>)
        ensures
            match dispatch_spec(self@, name@, block_type, old(ctx)@) {
                Ok(after) => done is Ok && final(ctx)@ == after,
                Err(e) => done == Err::<(), DirectiveError>(e) && final(ctx)@ == old(ctx)@,
            },
    {
        match self.lookup(name) {
            None => Err(DirectiveError::UnknownDirective),
            Some(directive) => {
                if !directive.allows(block_type) {
                    Err(DirectiveError::NotValidHere)
                } else {
                    run_handler(directive.handler, ctx)
                }
            },
        }
    }
}

} // verus!
