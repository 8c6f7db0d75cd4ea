use story::color::{story_color, Hsl, StoryColor};
use story::fragment::{Role, StoryFragment};
use story::id::IdGenerator;
use story::story::{editor_argument, Story, StoryItem, StorySection};
use story::text::TextStory;

fn text_of(f: &StoryFragment) -> &str {
    f.text.as_deref().unwrap()
}

#[test]
fn palette_has_the_fixed_values() {
    let c = story_color();
    assert_eq!(
        c.primary,
        Hsl {
            hue_degrees: 216,
            saturation_percent: 11,
            lightness_percent: 0,
            alpha_percent: 100
        }
    );
    assert_eq!(
        c.secondary,
        Hsl {
            hue_degrees: 216,
            saturation_percent: 11,
            lightness_percent: 16,
            alpha_percent: 100
        }
    );
    assert_eq!(c.border, c.divider);
    assert_eq!(c.background.lightness_percent, 100);
    assert_eq!(c.card_background.lightness_percent, 96);
    assert_eq!(
        c.link,
        Hsl {
            hue_degrees: 206,
            saturation_percent: 100,
            lightness_percent: 50,
            alpha_percent: 100
        }
    );
    assert_eq!(c, StoryColor::new());
}

#[test]
fn plain_factories_are_idempotent() {
    assert_eq!(Story::container(), Story::container());
    assert_eq!(Story::section(), Story::section());
    assert_eq!(Story::section_title(), Story::section_title());
    assert_eq!(Story::group(), Story::group());
    assert_eq!(Story::divider(), Story::divider());
    assert_eq!(Story::v_stack(), Story::v_stack());
}

#[test]
fn text_factories_are_idempotent() {
    assert_eq!(
        Story::label("hello".to_string()),
        Story::label("hello".to_string())
    );
    assert_eq!(
        Story::title("hello".to_string()),
        Story::title("hello".to_string())
    );
    assert_eq!(
        Story::description("hello".to_string()),
        Story::description("hello".to_string())
    );
    assert_eq!(
        Story::code_block("let x = 1;".to_string()),
        Story::code_block("let x = 1;".to_string())
    );
}

#[test]
fn divider_is_a_plain_leaf() {
    let f = Story::divider();
    assert_eq!(f.role, Role::Divider);
    assert!(f.text.is_none());
    assert!(f.id.is_none());
    assert!(f.children.is_empty());
}

#[test]
fn label_holds_its_text() {
    let f = Story::label("Default Text".to_string());
    assert_eq!(f.role, Role::Label);
    assert_eq!(text_of(&f), "Default Text");
    assert!(f.id.is_none());
    assert!(f.children.is_empty());
}

#[test]
fn section_preserves_child_insertion_order() {
    let section = StorySection::new()
        .child(Story::label("A".to_string()))
        .child(Story::label("B".to_string()))
        .child(Story::label("C".to_string()));
    let f = section.render();
    assert_eq!(f.role, Role::Section);
    // No description: the stack comes first, the divider last.
    assert_eq!(f.children.len(), 2);
    let stack = &f.children[0];
    assert_eq!(stack.role, Role::VStack);
    let texts: Vec<&str> = stack.children.iter().map(text_of).collect();
    assert_eq!(texts, vec!["A", "B", "C"]);
    assert_eq!(f.children[1].role, Role::Divider);
}

#[test]
fn section_with_description_puts_it_first() {
    let section = StorySection::new()
        .description("about".to_string())
        .child(Story::label("A".to_string()));
    let f = section.render();
    assert_eq!(f.children.len(), 3);
    assert_eq!(f.children[0].role, Role::Description);
    assert_eq!(text_of(&f.children[0]), "about");
    assert_eq!(f.children[1].role, Role::VStack);
    assert_eq!(f.children[1].children.len(), 1);
    assert_eq!(f.children[2].role, Role::Divider);
}

#[test]
fn item_omits_absent_description_and_usage() {
    let f = StoryItem::new("L".to_string(), Story::group()).render();
    assert_eq!(f.children.len(), 2);
    let left = &f.children[0];
    let right = &f.children[1];
    // No description: only the label and the card stand in the left column.
    assert_eq!(left.children.len(), 2);
    // No usage: the right column is empty, not a placeholder.
    assert!(right.children.is_empty());
}

#[test]
fn item_with_description_only() {
    let f = StoryItem::new("L".to_string(), Story::group())
        .description("about".to_string())
        .render();
    assert_eq!(f.children[0].children.len(), 3);
    assert!(f.children[1].children.is_empty());
}

#[test]
fn item_with_usage_only() {
    let f = StoryItem::new("L".to_string(), Story::group())
        .usage("code".to_string())
        .render();
    assert_eq!(f.children[0].children.len(), 2);
    assert_eq!(f.children[1].children.len(), 2);
}

#[test]
fn item_renders_two_columns() {
    let content = Story::group().child(Story::label("wrapped".to_string()));
    let f = StoryItem::new("Default Text".to_string(), content)
        .description("wraps text".to_string())
        .usage("div().max_w_96()".to_string())
        .render();
    assert_eq!(f.role, Role::ItemRow);
    assert_eq!(f.children.len(), 2);

    let left = &f.children[0];
    assert_eq!(left.role, Role::VStack);
    assert_eq!(left.children.len(), 3);
    assert_eq!(left.children[0].role, Role::Label);
    assert_eq!(text_of(&left.children[0]), "Default Text");
    let card = &left.children[1];
    assert_eq!(card.role, Role::Card);
    assert_eq!(card.children.len(), 1);
    assert_eq!(card.children[0].role, Role::Group);
    assert_eq!(left.children[2].role, Role::Description);
    assert_eq!(text_of(&left.children[2]), "wraps text");

    let right = &f.children[1];
    assert_eq!(right.role, Role::VStack);
    assert_eq!(right.children.len(), 2);
    assert_eq!(right.children[0].role, Role::Label);
    assert_eq!(text_of(&right.children[0]), "Usage");
    assert_eq!(right.children[1].role, Role::CodeBlock);
    assert_eq!(text_of(&right.children[1]), "div().max_w_96()");
}

#[test]
fn links_with_equal_text_get_distinct_ids() {
    let mut ids = IdGenerator::new();
    let a = Story::link("Home".to_string(), &mut ids).unwrap();
    let b = Story::link("Home".to_string(), &mut ids).unwrap();
    assert_eq!(a.role, Role::Link);
    assert_eq!(text_of(&a), "Home");
    assert_eq!(text_of(&b), "Home");
    assert_ne!(a.id.as_ref().unwrap(), b.id.as_ref().unwrap());
}

#[test]
fn open_story_link_wraps_the_path() {
    let mut ids = IdGenerator::new();
    let f = Story::open_story_link("crates/story/src/story.rs".to_string(), &mut ids).unwrap();
    assert_eq!(f.role, Role::OpenSourceLink);
    assert_eq!(text_of(&f), "crates/story/src/story.rs");
    assert_eq!(f.id.as_deref().unwrap(), "id_crates/story/src/story.rs");
    assert_eq!(f.children.len(), 1);
    let link = &f.children[0];
    assert_eq!(link.role, Role::Link);
    assert_eq!(text_of(link), "crates/story/src/story.rs");
    assert!(link.id.is_some());
}

#[test]
fn editor_argument_defaults_to_the_start() {
    assert_eq!(editor_argument("a/b.rs"), "a/b.rs:0:0");
    assert_eq!(editor_argument(""), ":0:0");
}

#[test]
fn container2_builds_the_header_row() {
    let mut ids = IdGenerator::new();
    let f = Story::container2("MyStory".to_string(), "a/b.rs".to_string(), &mut ids).unwrap();
    assert_eq!(f.role, Role::Container);
    assert_eq!(f.children.len(), 1);
    let header = &f.children[0];
    assert_eq!(header.role, Role::HeaderRow);
    assert_eq!(header.children.len(), 2);
    assert_eq!(header.children[0].role, Role::Title);
    assert_eq!(text_of(&header.children[0]), "MyStory");
    assert_eq!(header.children[1].role, Role::OpenSourceLink);
    assert_eq!(ids.counter_value(), 1);
}

#[test]
fn text_story_renders_the_demo_tree() {
    let mut ids = IdGenerator::new();
    let f = TextStory::render(&mut ids).unwrap();
    assert_eq!(f.role, Role::Container);
    assert_eq!(f.children.len(), 2);
    let header = &f.children[0];
    assert_eq!(header.role, Role::HeaderRow);
    assert_eq!(header.children.len(), 2);
    assert_eq!(header.children[0].role, Role::Title);
    assert_eq!(text_of(&header.children[0]), "TextStory");
    let source_link = &header.children[1];
    assert_eq!(source_link.role, Role::OpenSourceLink);
    assert_eq!(text_of(source_link), "crates/storybook2/src/stories/text.rs");
    assert_eq!(
        source_link.id.as_deref().unwrap(),
        "id_crates/storybook2/src/stories/text.rs"
    );

    let section = &f.children[1];
    assert_eq!(section.role, Role::Section);
    assert_eq!(section.children.len(), 2);
    let stack = &section.children[0];
    assert_eq!(stack.role, Role::VStack);
    assert_eq!(stack.children.len(), 1);

    let row = &stack.children[0];
    assert_eq!(row.role, Role::ItemRow);
    assert_eq!(text_of(&row.children[0].children[0]), "Default Text");
    let card = &row.children[0].children[1];
    assert_eq!(card.role, Role::Card);
    assert_eq!(card.children.len(), 1);
    assert_eq!(card.children[0].role, Role::Group);
    assert_eq!(card.children[0].children.len(), 1);
    assert_eq!(text_of(&card.children[0].children[0]), "foo");
    assert_eq!(
        text_of(&row.children[0].children[2]),
        "Text with a max-width. Wraps based on set max-width."
    );
    assert_eq!(text_of(&row.children[1].children[0]), "Usage");
    assert_eq!(
        text_of(&row.children[1].children[1]),
        "div().max_w_96()\n    .child(\"Some text that you want to wrap.\")\n"
    );
    assert_eq!(ids.counter_value(), 1);
}
