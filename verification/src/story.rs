//! The story composition factories.
//!
//! Stateless functions that assemble abstract UI-tree fragments for demo
//! layouts, plus the two builders: a `StoryItem` renders to a two-column
//! row, a `StorySection` renders its children in insertion order between an
//! optional description and a trailing divider. Clickable fragments draw a
//! fresh identifier from the `IdGenerator` handed to them.

use vstd::prelude::*;
use vstd::string::StringExecFns;
use crate::fragment::{Role, StoryFragment, is_plain, is_text_fragment};
use crate::id::{IdError, IdGenerator, counter_of, id_chars};

verus! {

/// A clickable text fragment: its text is the visible label, its identifier
/// embeds the counter value it was drawn with.
pub open spec fn is_link_fragment(f: StoryFragment, text: Seq<char>, counter: nat) -> bool {
    &&& f.role == Role::Link
    &&& f.text matches Some(t) && t@ == text
    &&& f.id matches Some(i) && counter_of(i@) == counter && (exists|ts: nat|
        i@ == id_chars(ts, counter))
    &&& f.children@.len() == 0
}

/// The clickable open-source fragment: its text holds the path the click
/// opens, its identifier is the path prefixed with "id_", and its one child
/// is a link showing the path.
pub open spec fn is_open_source_link(f: StoryFragment, path: Seq<char>, counter: nat) -> bool {
    &&& f.role == Role::OpenSourceLink
    &&& f.text matches Some(p) && p@ == path
    &&& f.id matches Some(i) && i@ == "id_"@ + path
    &&& f.children@.len() == 1
    &&& is_link_fragment(f.children@[0], path, counter)
}

fn plain_fragment(role: Role) -> (f: StoryFragment)
    ensures
        is_plain(f, role),
{
    StoryFragment { role, text: None, id: None, children: Vec::new() }
}

fn text_fragment(role: Role, text: String) -> (f: StoryFragment)
    ensures
        is_text_fragment(f, role, text@),
{
    StoryFragment { role, text: Some(text), id: None, children: Vec::new() }
}

/// The factory functions. None of them can fail except those that draw an
/// identifier, which fail exactly when the generator does.
pub struct Story {}

impl Story {
    /// The top-level vertical container of a story.
    pub fn container() -> (f: StoryFragment)
        ensures
            is_plain(f, Role::Container),
    {
        plain_fragment(Role::Container)
    }

    /// A top-level container with a header row: the given title on the left
    /// and a clickable open-source link for the given path on the right.
    pub fn container2(title_text: String, path: String, ids: &mut IdGenerator) -> (r: Result<
        StoryFragment,
        IdError,
    >)
        requires
            old(ids).counter() < u64::MAX,
        ensures
            (match r {
                Ok(f) => {
                    &&& final(ids).counter() == old(ids).counter() + 1
                    &&& f.role == Role::Container
                    &&& f.text is None
                    &&& f.id is None
                    &&& f.children@.len() == 1
                    &&& ({
                        let header = f.children@[0];
                        &&& header.role == Role::HeaderRow
                        &&& header.text is None
                        &&& header.id is None
                        &&& header.children@.len() == 2
                        &&& is_text_fragment(header.children@[0], Role::Title, title_text@)
                        &&& is_open_source_link(header.children@[1], path@, old(ids).counter())
                    })
                },
                Err(e) => {
                    &&& *final(ids) == *old(ids)
                    &&& e == IdError::ClockUnavailable
                },
            }),
    {
        let source_link = match Self::open_story_link(path, ids) {
            Ok(l) => l,
            Err(e) => {
                return Err(e);
            },
        };
        let header = plain_fragment(Role::HeaderRow).child(Self::title(title_text)).child(
            source_link,
        );
        Ok(plain_fragment(Role::Container).child(header))
    }

    /// The clickable fragment that asks the host environment to open an
    /// external editor at the given path. Its identifier is the path
    /// prefixed with "id_"; its child is a link showing the path.
    pub fn open_story_link(path: String, ids: &mut IdGenerator) -> (r: Result<
        StoryFragment,
        IdError,
    >)
        requires
            old(ids).counter() < u64::MAX,
        ensures
            (match r {
                Ok(f) => {
                    &&& final(ids).counter() == old(ids).counter() + 1
                    &&& is_open_source_link(f, path@, old(ids).counter())
                },
                Err(e) => {
                    &&& *final(ids) == *old(ids)
                    &&& e == IdError::ClockUnavailable
                },
            }),
    {
        let inner = match Self::link(path.clone(), ids) {
            Ok(l) => l,
            Err(e) => {
                return Err(e);
            },
        };
        let mut id_string = String::from_str("id_");
        id_string.append(path.as_str());
        let mut f = plain_fragment(Role::OpenSourceLink);
        f.text = Some(path);
        f.id = Some(id_string);
        Ok(f.child(inner))
    }

    /// Title text in the primary color.
    pub fn title(text: String) -> (f: StoryFragment)
        ensures
            is_text_fragment(f, Role::Title, text@),
    {
        text_fragment(Role::Title, text)
    }

    /// A section container; its content is stacked by `StorySection`.
    pub fn section() -> (f: StoryFragment)
        ensures
            is_plain(f, Role::Section),
    {
        plain_fragment(Role::Section)
    }

    /// The heading text style of a section.
    pub fn section_title() -> (f: StoryFragment)
        ensures
            is_plain(f, Role::SectionTitle),
    {
        plain_fragment(Role::SectionTitle)
    }

    /// A grouping container on the background color.
    pub fn group() -> (f: StoryFragment)
        ensures
            is_plain(f, Role::Group),
    {
        plain_fragment(Role::Group)
    }

    /// A fixed-width code display holding exactly the given code text.
    pub fn code_block(code: String) -> (f: StoryFragment)
        ensures
            is_text_fragment(f, Role::CodeBlock, code@),
    {
        text_fragment(Role::CodeBlock, code)
    }

    /// A thin horizontal rule.
    pub fn divider() -> (f: StoryFragment)
        ensures
            is_plain(f, Role::Divider),
    {
        plain_fragment(Role::Divider)
    }

    /// A clickable text fragment. Every call draws a fresh identifier, so
    /// two links carry distinct identifiers even when their text is equal.
    pub fn link(text: String, ids: &mut IdGenerator) -> (r: Result<StoryFragment, IdError>)
        requires
            old(ids).counter() < u64::MAX,
        ensures
            (match r {
                Ok(f) => {
                    &&& final(ids).counter() == old(ids).counter() + 1
                    &&& is_link_fragment(f, text@, old(ids).counter())
                },
                Err(e) => {
                    &&& *final(ids) == *old(ids)
                    &&& e == IdError::ClockUnavailable
                },
            }),
    {
        let id = match ids.next_id() {
            Ok(id) => id,
            Err(e) => {
                return Err(e);
            },
        };
        let mut f = text_fragment(Role::Link, text);
        f.id = Some(id);
        Ok(f)
    }

    /// Description text in the secondary color.
    pub fn description(text: String) -> (f: StoryFragment)
        ensures
            is_text_fragment(f, Role::Description, text@),
    {
        text_fragment(Role::Description, text)
    }

    /// Label text in the primary color.
    pub fn label(text: String) -> (f: StoryFragment)
        ensures
            is_text_fragment(f, Role::Label, text@),
    {
        text_fragment(Role::Label, text)
    }

    /// A vertical stack with a small gap.
    pub fn v_stack() -> (f: StoryFragment)
        ensures
            is_plain(f, Role::VStack),
    {
        plain_fragment(Role::VStack)
    }
}

/// The argument handed to the external editor when an open-source link is
/// activated: the path with line and column both defaulting to the start.
pub fn editor_argument(path: &str) -> (arg: String)
    ensures
        arg@ == path@ + ":0:0"@,
{
    let mut arg = String::from_str(path);
    arg.append(":0:0");
    arg
}

/// A story item: a label, a content fragment, and optionally a description
/// and a usage code sample. Configure it with the with-style methods, then
/// render it once; rendering consumes the builder.
#[derive(Debug)]
pub struct StoryItem {
    pub label: String,
    pub item: StoryFragment,
    pub description: Option<String>,
    pub usage: Option<String>,
}

/// The left column of a rendered item: the label, the content framed in a
/// card, and the description exactly when one was supplied.
pub open spec fn is_item_left_column(col: StoryFragment, item: StoryItem) -> bool {
    &&& col.role == Role::VStack
    &&& col.text is None
    &&& col.id is None
    &&& col.children@.len() == (if item.description is Some {
        3int
    } else {
        2int
    })
    &&& is_text_fragment(col.children@[0], Role::Label, item.label@)
    &&& ({
        let card = col.children@[1];
        &&& card.role == Role::Card
        &&& card.text is None
        &&& card.id is None
        &&& card.children@.len() == 1
        &&& card.children@[0] == item.item
    })
    &&& (item.description matches Some(d) ==> is_text_fragment(
        col.children@[2],
        Role::Description,
        d@,
    ))
}

/// The right column of a rendered item: a "Usage" label and a code block
/// exactly when a usage sample was supplied, otherwise empty.
pub open spec fn is_item_right_column(col: StoryFragment, item: StoryItem) -> bool {
    &&& col.role == Role::VStack
    &&& col.text is None
    &&& col.id is None
    &&& (item.usage is None ==> col.children@.len() == 0)
    &&& (item.usage matches Some(u) ==> {
        &&& col.children@.len() == 2
        &&& is_text_fragment(col.children@[0], Role::Label, "Usage"@)
        &&& is_text_fragment(col.children@[1], Role::CodeBlock, u@)
    })
}

/// The two-column row a story item renders to.
pub open spec fn is_item_row(f: StoryFragment, item: StoryItem) -> bool {
    &&& f.role == Role::ItemRow
    &&& f.text is None
    &&& f.id is None
    &&& f.children@.len() == 2
    &&& is_item_left_column(f.children@[0], item)
    &&& is_item_right_column(f.children@[1], item)
}

impl StoryItem {
    pub fn new(label: String, item: StoryFragment) -> (s: Self)
        ensures
            s.label == label,
            s.item == item,
            s.description is None,
            s.usage is None,
    {
        StoryItem { label, item, description: None, usage: None }
    }

    /// Supplies the description; everything else is unchanged.
    pub fn description(self, description: String) -> (s: Self)
        ensures
            s.label == self.label,
            s.item == self.item,
            s.description == Some(description),
            s.usage == self.usage,
    {
        let mut s = self;
        s.description = Some(description);
        s
    }

    /// Supplies the usage code sample; everything else is unchanged.
    pub fn usage(self, code: String) -> (s: Self)
        ensures
            s.label == self.label,
            s.item == self.item,
            s.description == self.description,
            s.usage == Some(code),
    {
        let mut s = self;
        s.usage = Some(code);
        s
    }

    /// Composes the item into its two-column row. An omitted description or
    /// usage omits that sub-fragment entirely: nothing stands in its place.
    pub fn render(self) -> (f: StoryFragment)
        ensures
            is_item_row(f, self),
    {
        let StoryItem { label, item, description, usage } = self;
        let mut left = plain_fragment(Role::VStack);
        left.children.push(text_fragment(Role::Label, label));
        let mut card = plain_fragment(Role::Card);
        card.children.push(item);
        left.children.push(card);
        match description {
            Some(d) => {
                left.children.push(text_fragment(Role::Description, d));
            },
            None => {},
        }
        let mut right = plain_fragment(Role::VStack);
        match usage {
            Some(u) => {
                right.children.push(text_fragment(Role::Label, String::from_str("Usage")));
                right.children.push(text_fragment(Role::CodeBlock, u));
            },
            None => {},
        }
        let mut f = plain_fragment(Role::ItemRow);
        f.children.push(left);
        f.children.push(right);
        f
    }
}

/// A story section: an optional description and an ordered sequence of
/// child fragments. Insertion order is preserved and significant: it is the
/// vertical stacking order of the rendered section.
#[derive(Debug)]
pub struct StorySection {
    pub description: Option<String>,
    pub children: Vec<StoryFragment>,
}

/// The rendered section: the description exactly when one was supplied,
/// then the children in insertion order in a vertical stack, then a
/// trailing divider.
pub open spec fn is_section_fragment(f: StoryFragment, section: StorySection) -> bool {
    &&& f.role == Role::Section
    &&& f.text is None
    &&& f.id is None
    &&& ({
        let n: int = if section.description is Some {
            1int
        } else {
            0int
        };
        &&& f.children@.len() == n + 2
        &&& (section.description matches Some(d) ==> is_text_fragment(
            f.children@[0],
            Role::Description,
            d@,
        ))
        &&& ({
            let stack = f.children@[n];
            &&& stack.role == Role::VStack
            &&& stack.text is None
            &&& stack.id is None
            &&& stack.children@ == section.children@
        })
        &&& is_plain(f.children@[n + 1], Role::Divider)
    })
}

impl StorySection {
    pub fn new() -> (s: Self)
        ensures
            s.description is None,
            s.children@.len() == 0,
    {
        StorySection { description: None, children: Vec::new() }
    }

    /// Supplies the description; the children are unchanged.
    pub fn description(self, description: String) -> (s: Self)
        ensures
            s.description == Some(description),
            s.children@ == self.children@,
    {
        let mut s = self;
        s.description = Some(description);
        s
    }

    /// Appends one child fragment; insertion order is preserved.
    pub fn child(self, c: StoryFragment) -> (s: Self)
        ensures
            s.description == self.description,
            s.children@ == self.children@.push(c),
    {
        let mut s = self;
        s.children.push(c);
        s
    }

    /// Composes the section: the description if one was supplied, the
    /// children in exactly their insertion order, and a trailing divider.
    pub fn render(self) -> (f: StoryFragment)
        ensures
            is_section_fragment(f, self),
    {
        let StorySection { description, children } = self;
        let mut f = plain_fragment(Role::Section);
        match description {
            Some(d) => {
                f.children.push(text_fragment(Role::Description, d));
            },
            None => {},
        }
        let mut stack = plain_fragment(Role::VStack);
        stack.children = children;
        f.children.push(stack);
        f.children.push(plain_fragment(Role::Divider));
        f
    }
}

} // verus!
