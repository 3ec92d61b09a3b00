//! The kinds of node that the host is told about.

use vstd::prelude::*;
use vstd::std_specs::convert::FromSpecImpl;

verus! {

/// What a graph node computes, as far as its kind goes.
#[derive(Debug, Clone, Copy, PartialEq, Eq, Structural)]
pub enum OpKind {
    GrayScale,
    Input,
    Output,
    CustomShader,
}

/// The kind of a node as the host names it.
#[derive(Debug, Clone, Copy, PartialEq, Eq, Structural)]
pub enum NodeTypes {
    Input,
    Output,
    GrayScale,
    Shader,
}

/// The node type that stands for an operation.
pub open spec fn node_type_of(op: OpKind) -> NodeTypes {
    match op {
        OpKind::GrayScale => NodeTypes::GrayScale,
        OpKind::Input => NodeTypes::Input,
        OpKind::Output => NodeTypes::Output,
        OpKind::CustomShader => NodeTypes::Shader,
    }
}

impl From<OpKind> for NodeTypes {
    fn from(value: OpKind) -> (ty: NodeTypes) {
        match value {
            OpKind::GrayScale => NodeTypes::GrayScale,
            OpKind::Input => NodeTypes::Input,
            OpKind::Output => NodeTypes::Output,
            OpKind::CustomShader => NodeTypes::Shader,
        }
    }
}

impl FromSpecImpl<OpKind> for NodeTypes {
    open spec fn obeys_from_spec() -> bool {
        true
    }

    open spec fn from_spec(value: OpKind) -> NodeTypes {
        node_type_of(value)
    }
}

impl NodeTypes {
    /// The name that `name` gives.
    pub open spec fn name_text(self) -> Seq<char> {
        match self {
            NodeTypes::Input => "Input"@,
            NodeTypes::Output => "Output"@,
            NodeTypes::GrayScale => "GrayScale"@,
            NodeTypes::Shader => "Shader"@,
        }
    }

    /// The name under which the host knows this type.
    pub fn name(&self) -> (name: &'static str)
        ensures
            name@ == self.name_text(),
    {
        match self {
            NodeTypes::Input => "Input",
            NodeTypes::Output => "Output",
            NodeTypes::GrayScale => "GrayScale",
            NodeTypes::Shader => "Shader",
        }
    }
}

/// Different node types have different names.
pub proof fn lemma_names_are_distinct(a: NodeTypes, b: NodeTypes)
    requires
        a != b,
    ensures
        a.name_text() != b.name_text(),
{
    reveal_strlit("Input");
    reveal_strlit("Output");
    reveal_strlit("GrayScale");
    reveal_strlit("Shader");
    assert(a.name_text().len() != b.name_text().len() || a.name_text()[0] != b.name_text()[0]);
}

} // verus!
