use vstd::prelude::*;
use vstd::string::StringExecFns;

verus! {

/// Relation types between issues.
#[derive(Debug, Clone, Copy, PartialEq, Eq, Structural)]
pub enum IssueRelationType {
    /// This issue blocks the related issue
    Blocks,
    /// This issue duplicates the related issue
    Duplicate,
    /// General relationship between issues
    Related,
}

impl IssueRelationType {
    /// The name of the relation seen from its source, as the service spells it.
    pub open spec fn forward(self) -> Seq<char> {
        match self {
            IssueRelationType::Blocks => "blocks"@,
            IssueRelationType::Duplicate => "duplicate"@,
            IssueRelationType::Related => "related"@,
        }
    }

    /// The name of the relation seen from its target.
    pub open spec fn inverse(self) -> Seq<char> {
        match self {
            IssueRelationType::Blocks => "blocked by"@,
            IssueRelationType::Duplicate => "duplicate of"@,
            IssueRelationType::Related => "related to"@,
        }
    }

    /// The relation's name seen from its source.
    pub fn label(self) -> (r: &'static str)
        ensures
            r@ == self.forward(),
    {
        match self {
            IssueRelationType::Blocks => "blocks",
            IssueRelationType::Duplicate => "duplicate",
            IssueRelationType::Related => "related",
        }
    }

    /// Get the inverse relation type label (for display from the other side).
    pub fn inverse_label(self) -> (r: &'static str)
        ensures
            r@ == self.inverse(),
    {
        match self {
            IssueRelationType::Blocks => "blocked by",
            IssueRelationType::Duplicate => "duplicate of",
            IssueRelationType::Related => "related to",
        }
    }

    /// The relation's forward name as an owned string.
    pub fn to_string(&self) -> (r: String)
        ensures
            r@ == self.forward(),
    {
        String::from_str(self.label())
    }
}

/// For every relation type the name seen from the target differs from the
/// name seen from the source.
pub proof fn lemma_inverse_differs(t: IssueRelationType)
    ensures
        t.inverse() != t.forward(),
{
    reveal_strlit("blocks");
    reveal_strlit("duplicate");
    reveal_strlit("related");
    reveal_strlit("blocked by");
    reveal_strlit("duplicate of");
    reveal_strlit("related to");
    assert(t.inverse().len() != t.forward().len());
}

/// A relation between two issues.
#[derive(Debug, Clone)]
pub struct IssueRelation {
    pub id: String,
    pub relation_type: IssueRelationType,
    /// The source of the relation.
    pub issue: RelatedIssueRef,
    /// The target of the relation.
    pub related_issue: RelatedIssueRef,
    pub created_at: String,
}

/// Minimal issue reference for relations.
#[derive(Debug, Clone)]
pub struct RelatedIssueRef {
    pub id: String,
    pub identifier: String,
    pub title: String,
}

} // verus!
