//! The example story: a demo of a text-wrapping widget, assembled entirely
//! from the composition factories.

use vstd::prelude::*;
use vstd::string::StringExecFns;
use crate::fragment::{Role, StoryFragment, is_plain, is_text_fragment};
use crate::id::{IdError, IdGenerator};
use crate::story::{Story, StoryItem, StorySection, is_open_source_link};

verus! {

/// The text story: one section holding one item that shows text wrapping
/// under a maximum width.
pub struct TextStory {}

impl TextStory {
    /// Composes the story: a container whose header names the story and
    /// links to its source, and one section with the single item. The item
    /// carries the label "Default Text", a description, and a usage code
    /// sample. One identifier is drawn, for the header's source link.
    pub fn render(ids: &mut IdGenerator) -> (r: Result<StoryFragment, IdError>)
        requires
            old(ids).counter() < u64::MAX,
        ensures
            (match r {
                Ok(f) => {
                    &&& final(ids).counter() == old(ids).counter() + 1
                    &&& f.role == Role::Container
                    &&& f.text is None
                    &&& f.id is None
                    &&& f.children@.len() == 2
                    &&& ({
                        let header = f.children@[0];
                        &&& header.role == Role::HeaderRow
                        &&& header.text is None
                        &&& header.id is None
                        &&& header.children@.len() == 2
                        &&& is_text_fragment(header.children@[0], Role::Title, "TextStory"@)
                        &&& is_open_source_link(
                            header.children@[1],
                            "crates/storybook2/src/stories/text.rs"@,
                            old(ids).counter(),
                        )
                    })
                    &&& ({
                        let sec = f.children@[1];
                        &&& sec.role == Role::Section
                        &&& sec.children@.len() == 2
                        &&& ({
                            let stack = sec.children@[0];
                            &&& stack.role == Role::VStack
                            &&& stack.children@.len() == 1
                            &&& ({
                                let row = stack.children@[0];
                                &&& row.role == Role::ItemRow
                                &&& row.children@.len() == 2
                                &&& row.children@[0].children@.len() == 3
                                &&& is_text_fragment(
                                    row.children@[0].children@[0],
                                    Role::Label,
                                    "Default Text"@,
                                )
                                &&& is_text_fragment(
                                    row.children@[0].children@[2],
                                    Role::Description,
                                    "Text with a max-width. Wraps based on set max-width."@,
                                )
                                &&& ({
                                    let card = row.children@[0].children@[1];
                                    &&& card.role == Role::Card
                                    &&& card.text is None
                                    &&& card.id is None
                                    &&& card.children@.len() == 1
                                    &&& ({
                                        let content = card.children@[0];
                                        &&& content.role == Role::Group
                                        &&& content.text is None
                                        &&& content.id is None
                                        &&& content.children@.len() == 1
                                        &&& is_text_fragment(
                                            content.children@[0],
                                            Role::Label,
                                            "foo"@,
                                        )
                                    })
                                })
                                &&& row.children@[1].children@.len() == 2
                                &&& is_text_fragment(
                                    row.children@[1].children@[0],
                                    Role::Label,
                                    "Usage"@,
                                )
                                &&& is_text_fragment(
                                    row.children@[1].children@[1],
                                    Role::CodeBlock,
                                    "div().max_w_96()\n    .child(\"Some text that you want to wrap.\")\n"@,
                                )
                            })
                        })
                        &&& is_plain(sec.children@[1], Role::Divider)
                    })
                },
                Err(e) => {
                    &&& *final(ids) == *old(ids)
                    &&& e == IdError::ClockUnavailable
                },
            }),
    {
        let container = match Story::container2(
            String::from_str("TextStory"),
            String::from_str("crates/storybook2/src/stories/text.rs"),
            ids,
        ) {
            Ok(c) => c,
            Err(e) => {
                return Err(e);
            },
        };
        let content = Story::group().child(Story::label(String::from_str("foo")));
        let item = StoryItem::new(String::from_str("Default Text"), content).description(
            String::from_str("Text with a max-width. Wraps based on set max-width."),
        ).usage(
            String::from_str("div().max_w_96()\n    .child(\"Some text that you want to wrap.\")\n"),
        );
        let section = StorySection::new().child(item.render());
        Ok(container.child(section.render()))
    }
}

} // verus!
