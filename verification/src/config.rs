//! The configuration tree: one node for each block, carrying the block's
//! name and arguments, the arguments of the directive being executed, the
//! block's context, and the nodes of the blocks nested in it.

use crate::http_location::HttpLocationContext;
use crate::http_server::{HttpServerContext, HttpServerContextView};
use crate::http_ssl::{HttpSslContext, HttpSslContextView};
use crate::text::strings_view;
use vstd::prelude::*;

verus! {

/// The kinds of block a directive can be valid in.
#[derive(Clone, Copy, Debug, PartialEq, Eq, Structural)]
pub enum BlockType {
    Http,
    Server,
    Location,
    Ssl,
}

/// The context object of a block, tagged with the kind of the block.
pub enum BlockContext {
    Http,
    Server(HttpServerContext),
    Location(HttpLocationContext),
    Ssl(HttpSslContext),
}

/// A block context as contracts see it.
pub ghost enum BlockContextView {
    Http,
    Server(HttpServerContextView),
    Location(Option<Seq<(u16, Seq<u8>)>>),
    Ssl(HttpSslContextView),
}

impl BlockContextView {
    /// The kind of block this context belongs to.
    pub open spec fn block_type(self) -> BlockType {
        match self {
            BlockContextView::Http => BlockType::Http,
            BlockContextView::Server(_) => BlockType::Server,
            BlockContextView::Location(_) => BlockType::Location,
            BlockContextView::Ssl(_) => BlockType::Ssl,
        }
    }
}

impl View for BlockContext {
    type V = BlockContextView;

    open spec fn view(&self) -> BlockContextView {
        match self {
            BlockContext::Http => BlockContextView::Http,
            BlockContext::Server(ctx) => BlockContextView::Server(ctx@),
            BlockContext::Location(ctx) => BlockContextView::Location(ctx@),
            BlockContext::Ssl(ctx) => BlockContextView::Ssl(ctx@),
        }
    }
}

impl BlockContext {
    /// The kind of block this context belongs to.
    pub fn block_type(&self) -> (tag: BlockType)
        ensures
            tag == self@.block_type(),
    {
        match self {
            BlockContext::Http => BlockType::Http,
            BlockContext::Server(_) => BlockType::Server,
            BlockContext::Location(_) => BlockType::Location,
            BlockContext::Ssl(_) => BlockType::Ssl,
        }
    }
}

/// One node of the configuration tree.
pub struct ConfigContext {
    pub block_name: String,
    pub block_args: Vec<String>,
    pub current_cmd_args: Vec<String>,
    pub current_ctx: Option<BlockContext>,
    pub children: Vec<ConfigContext>,
}

/// A node of the configuration tree as contracts see it.
pub ghost struct ConfigContextView {
    pub block_name: Seq<char>,
    pub block_args: Seq<Seq<char>>,
    pub current_cmd_args: Seq<Seq<char>>,
    pub current_ctx: Option<BlockContextView>,
    pub children: Seq<ConfigContextView>,
}

/// A node as contracts see it.
pub open spec fn node_view(node: ConfigContext) -> ConfigContextView
    decreases node,
{
    ConfigContextView {
        block_name: node.block_name@,
        block_args: strings_view(node.block_args@),
        current_cmd_args: strings_view(node.current_cmd_args@),
        current_ctx: match node.current_ctx {
            Some(ctx) => Some(ctx@),
            None => None,
        },
        children: nodes_view(node.children@),
    }
}

/// The nodes of a list, each as contracts see it.
pub open spec fn nodes_view(nodes: Seq<ConfigContext>) -> Seq<ConfigContextView>
    decreases nodes,
{
    if nodes.len() == 0 {
        Seq::empty()
    } else {
        nodes_view(nodes.drop_last()).push(node_view(nodes.last()))
    }
}

impl View for ConfigContext {
    type V = ConfigContextView;

    open spec fn view(&self) -> ConfigContextView {
        node_view(*self)
    }
}

/// The view of a list of nodes holds the view of each node, in order.
pub proof fn lemma_nodes_view(nodes: Seq<ConfigContext>)
    ensures
        nodes_view(nodes).len() == nodes.len(),
        forall|i: int| 0 <= i < nodes.len() ==> (#[trigger] nodes_view(nodes)[i]) == nodes[i]@,
    decreases nodes.len(),
{
    if nodes.len() > 0 {
        lemma_nodes_view(nodes.drop_last());
    }
}

impl ConfigContext {
    /// A node for a block, without context and children.
    pub fn new(block_name: String, block_args: Vec<String>) -> (node: ConfigContext)
        ensures
            node@ == (ConfigContextView {
                block_name: block_name@,
                block_args: strings_view(block_args@),
                current_cmd_args: Seq::empty(),
                current_ctx: None,
                children: Seq::empty(),
            }),
    {
        let node = ConfigContext {
            block_name,
            block_args,
            current_cmd_args: Vec::new(),
            current_ctx: None,
            children: Vec::new(),
        };
        proof {
            assert(node@.current_cmd_args =~= Seq::<Seq<char>>::empty());
        }
        node
    }

    /// The kind of this node's block, known once the block has a context.
    pub fn current_block_type_id(&self) -> (tag: Option<BlockType>)
        ensures
            tag == match self@.current_ctx {
                Some(ctx) => Some(ctx.block_type()),
                None => None,
            },
    {
        match &self.current_ctx {
            Some(ctx) => Some(ctx.block_type()),
            None => None,
        }
    }
}

} // verus!
