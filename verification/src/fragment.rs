//! The abstract UI-tree node that the factories produce.
//!
//! A fragment has a semantic role out of a closed set, optional text
//! content, an optional interactive identifier, and nested children.
//! Fragments nest by parent/child composition only: the tree is built in
//! one pass and handed to the host rendering system as a value.

use vstd::prelude::*;

verus! {

/// The semantic role of a fragment. The set is closed: the host rendering
/// system turns each role into its concrete container or leaf element.
#[derive(Clone, Copy, Debug, PartialEq, Eq, Structural)]
pub enum Role {
    /// Top-level vertical container filled with the background color.
    Container,
    /// The header row of a container: a title and an open-source link.
    HeaderRow,
    /// A section of a story, ended by a divider.
    Section,
    /// The heading text style of a section.
    SectionTitle,
    /// A grouping container on the background color.
    Group,
    /// A vertical stack with a small gap.
    VStack,
    /// A thin horizontal rule.
    Divider,
    /// Title text in the primary color.
    Title,
    /// Label text in the primary color.
    Label,
    /// Description text in the secondary color.
    Description,
    /// Fixed-width code display on an inverted background.
    CodeBlock,
    /// A clickable text fragment with a fresh interactive identifier.
    Link,
    /// A clickable fragment whose activation asks the host to open an
    /// external editor at the path held in its text.
    OpenSourceLink,
    /// The two-column row a story item renders to.
    ItemRow,
    /// The bordered card that frames a story item's content.
    Card,
}

/// An abstract UI-tree node: a role, optional text, an optional interactive
/// identifier, and the children in their insertion order.
#[derive(Debug, PartialEq)]
pub struct StoryFragment {
    pub role: Role,
    pub text: Option<String>,
    pub id: Option<String>,
    pub children: Vec<StoryFragment>,
}

/// A childless fragment of the given role with no text and no identifier.
pub open spec fn is_plain(f: StoryFragment, role: Role) -> bool {
    &&& f.role == role
    &&& f.text is None
    &&& f.id is None
    &&& f.children@.len() == 0
}

/// A childless fragment of the given role holding exactly the given text.
pub open spec fn is_text_fragment(f: StoryFragment, role: Role, text: Seq<char>) -> bool {
    &&& f.role == role
    &&& f.text matches Some(t) && t@ == text
    &&& f.id is None
    &&& f.children@.len() == 0
}

impl StoryFragment {
    /// Appends one child; everything else about the fragment is unchanged.
    pub fn child(self, c: StoryFragment) -> (f: StoryFragment)
        ensures
            f.role == self.role,
            f.text == self.text,
            f.id == self.id,
            f.children@ == self.children@.push(c),
    {
        let mut f = self;
        f.children.push(c);
        f
    }
}

/// Law: plain factories are deterministic. Two fragments that fit the same
/// plain description are structurally equal: same role, no text, no
/// identifier, no children.
pub proof fn lemma_plain_fragments_equal(a: StoryFragment, b: StoryFragment, role: Role)
    requires
        is_plain(a, role),
        is_plain(b, role),
    ensures
        a.role == b.role,
        a.text == b.text,
        a.id == b.id,
        a.children@ =~= b.children@,
{
}

/// Law: text factories are deterministic. Two fragments that fit the same
/// text description are structurally equal: same role, the same text
/// characters, no identifier, no children.
pub proof fn lemma_text_fragments_equal(
    a: StoryFragment,
    b: StoryFragment,
    role: Role,
    text: Seq<char>,
)
    requires
        is_text_fragment(a, role, text),
        is_text_fragment(b, role, text),
    ensures
        a.role == b.role,
        a.text matches Some(ta) && b.text matches Some(tb) && ta@ == tb@,
        a.id == b.id,
        a.children@ =~= b.children@,
{
}

} // verus!
