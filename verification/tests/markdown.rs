use tealr_doc_gen::markdown::{
    transform_events, MarkdownAlignment, MarkdownAttribute, MarkdownBlockQuoteKind,
    MarkdownCodeBlockKind, MarkdownEvent, MarkdownHeadingLevel, MarkdownLinkType,
    MarkdownMetadataBlockKind, MarkdownTag, MarkdownTagEnd, MarkdownTransformation,
};

fn text(content: &str) -> MarkdownEvent {
    MarkdownEvent::Text(content.to_string())
}

#[test]
fn events_that_are_handed_back_stay_as_they_are() {
    let events = vec![
        MarkdownEvent::Start(MarkdownTag::Paragraph),
        text("hello"),
        MarkdownEvent::End(MarkdownTagEnd::Paragraph),
    ];
    let same: Result<Vec<MarkdownEvent>, String> = transform_events(events, |event| Ok(vec![event]));
    assert_eq!(
        same,
        Ok(vec![
            MarkdownEvent::Start(MarkdownTag::Paragraph),
            text("hello"),
            MarkdownEvent::End(MarkdownTagEnd::Paragraph),
        ])
    );
}

#[test]
fn an_event_is_replaced_by_what_is_made_of_it() {
    let events = vec![text("a"), MarkdownEvent::SoftBreak, text("b"), MarkdownEvent::Rule];
    let changed: Result<Vec<MarkdownEvent>, String> = transform_events(events, |event| match event {
        MarkdownEvent::SoftBreak => Ok(Vec::new()),
        MarkdownEvent::Text(content) => {
            Ok(vec![MarkdownEvent::Code(content.clone()), MarkdownEvent::Text(content)])
        }
        other => Ok(vec![other]),
    });
    assert_eq!(
        changed,
        Ok(vec![
            MarkdownEvent::Code("a".to_string()),
            text("a"),
            MarkdownEvent::Code("b".to_string()),
            text("b"),
            MarkdownEvent::Rule,
        ])
    );
}

#[test]
fn the_first_failure_ends_the_work() {
    let events = vec![text("a"), MarkdownEvent::Rule, text("b"), MarkdownEvent::HardBreak];
    let seen = std::cell::RefCell::new(Vec::new());
    let failed = transform_events(events, |event| {
        seen.borrow_mut().push(format!("{:?}", event));
        match event {
            MarkdownEvent::Rule => Err("no rules"),
            MarkdownEvent::HardBreak => Err("no breaks"),
            other => Ok(vec![other]),
        }
    });
    assert_eq!(failed, Err("no rules"));
    assert_eq!(seen.borrow().len(), 2);
}

#[test]
fn no_events_give_no_events() {
    let nothing: Result<Vec<MarkdownEvent>, String> =
        transform_events(Vec::new(), |_| Err("never asked".to_string()));
    assert_eq!(nothing, Ok(Vec::new()));
}

#[test]
fn a_transformation_is_a_list_or_at_most_one_event() {
    let list = MarkdownTransformation::MarkdownEventTable(vec![text("a"), text("b")]);
    assert_eq!(list.into_events(), vec![text("a"), text("b")]);
    let one = MarkdownTransformation::OptionalMarkdownEvent(Some(MarkdownEvent::Rule));
    assert_eq!(one.into_events(), vec![MarkdownEvent::Rule]);
    let none = MarkdownTransformation::OptionalMarkdownEvent(None);
    assert_eq!(none.into_events(), Vec::new());
}

#[test]
fn heading_levels_count_from_one() {
    let levels = [
        MarkdownHeadingLevel::H1,
        MarkdownHeadingLevel::H2,
        MarkdownHeadingLevel::H3,
        MarkdownHeadingLevel::H4,
        MarkdownHeadingLevel::H5,
        MarkdownHeadingLevel::H6,
    ];
    let numbers: Vec<u8> = levels.iter().map(|level| level.number()).collect();
    assert_eq!(numbers, vec![1, 2, 3, 4, 5, 6]);
    assert!(MarkdownHeadingLevel::H1 < MarkdownHeadingLevel::H2);
}

#[test]
fn an_attribute_is_a_key_and_a_value() {
    let attribute = MarkdownAttribute::from(("class".to_string(), Some("wide".to_string())));
    assert_eq!(attribute.key, "class");
    assert_eq!(attribute.value.as_deref(), Some("wide"));
    let pair: (String, Option<String>) = attribute.into();
    assert_eq!(pair, ("class".to_string(), Some("wide".to_string())));
    let bare = MarkdownAttribute::from(("hidden".to_string(), None));
    let pair: (String, Option<String>) = bare.into();
    assert_eq!(pair, ("hidden".to_string(), None));
}

#[test]
fn tags_carry_what_they_were_written_with() {
    let heading = MarkdownTag::Heading(
        MarkdownHeadingLevel::H2,
        Some("intro".to_string()),
        vec!["wide".to_string()],
        vec![MarkdownAttribute { key: "k".to_string(), value: None }],
    );
    let events = vec![
        MarkdownEvent::Start(heading),
        MarkdownEvent::End(MarkdownTagEnd::Heading(MarkdownHeadingLevel::H2)),
        MarkdownEvent::Start(MarkdownTag::CodeBlock(MarkdownCodeBlockKind::Fenced(
            "teal".to_string(),
        ))),
        MarkdownEvent::Start(MarkdownTag::Table(vec![
            MarkdownAlignment::Unaligned,
            MarkdownAlignment::Center,
        ])),
        MarkdownEvent::Start(MarkdownTag::Link(
            MarkdownLinkType::Inline,
            "index#top".to_string(),
            String::new(),
            String::new(),
        )),
        MarkdownEvent::Start(MarkdownTag::BlockQuote(Some(MarkdownBlockQuoteKind::Tip))),
        MarkdownEvent::End(MarkdownTagEnd::MetadataBlock(MarkdownMetadataBlockKind::YamlStyle)),
        MarkdownEvent::TaskListMarker(true),
    ];
    let kept: Result<Vec<MarkdownEvent>, ()> =
        transform_events(events, |event| Ok(vec![event]));
    let kept = kept.expect("nothing fails");
    assert_eq!(kept.len(), 8);
    assert_eq!(kept[1], MarkdownEvent::End(MarkdownTagEnd::Heading(MarkdownHeadingLevel::H2)));
    assert_eq!(kept[7], MarkdownEvent::TaskListMarker(true));
}
