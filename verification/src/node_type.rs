use vstd::prelude::*;

verus! {

/// The kind of a tree participant. The variants follow the DOM's node kinds;
/// [`NodeType::code`] yields the DOM's numeric code for each kind.
#[derive(Clone, Copy, Debug, PartialEq, Eq, Structural)]
pub enum NodeType {
    ElementNode,
    AttributeNode,
    TextNode,
    CDataSectionNode,
    ProcessingInstructionNode,
    CommentNode,
    DocumentNode,
    DocumentTypeNode,
    DocumentFragmentNode,
}

impl NodeType {
    /// The DOM numeric code of this node kind.
    pub open spec fn spec_code(self) -> u8 {
        match self {
            NodeType::ElementNode => 1,
            NodeType::AttributeNode => 2,
            NodeType::TextNode => 3,
            NodeType::CDataSectionNode => 4,
            NodeType::ProcessingInstructionNode => 7,
            NodeType::CommentNode => 8,
            NodeType::DocumentNode => 9,
            NodeType::DocumentTypeNode => 10,
            NodeType::DocumentFragmentNode => 11,
        }
    }

    /// Returns the DOM numeric code of this node kind.
    pub fn code(&self) -> (code: u8)
        ensures
            code == self.spec_code(),
    {
        match self {
            NodeType::ElementNode => 1,
            NodeType::AttributeNode => 2,
            NodeType::TextNode => 3,
            NodeType::CDataSectionNode => 4,
            NodeType::ProcessingInstructionNode => 7,
            NodeType::CommentNode => 8,
            NodeType::DocumentNode => 9,
            NodeType::DocumentTypeNode => 10,
            NodeType::DocumentFragmentNode => 11,
        }
    }
}

} // verus!
