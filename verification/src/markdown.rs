//! Markdown as a list of events, and how a page reshapes that list before it
//! is rendered.

use vstd::prelude::*;

verus! {

/// What kind of code block it is.
#[derive(Clone, Debug, PartialEq, Eq)]
pub enum MarkdownCodeBlockKind {
    Indented,
    /// The language of the code, which may be empty.
    Fenced(String),
}

/// The level of a heading.
#[derive(Clone, Copy, Debug, PartialEq, Eq, PartialOrd, Ord, Hash, Structural)]
pub enum MarkdownHeadingLevel {
    H1,
    H2,
    H3,
    H4,
    H5,
    H6,
}

impl MarkdownHeadingLevel {
    /// The level as a number, from 1 for the topmost heading to 6.
    pub open spec fn spec_number(self) -> u8 {
        match self {
            MarkdownHeadingLevel::H1 => 1,
            MarkdownHeadingLevel::H2 => 2,
            MarkdownHeadingLevel::H3 => 3,
            MarkdownHeadingLevel::H4 => 4,
            MarkdownHeadingLevel::H5 => 5,
            MarkdownHeadingLevel::H6 => 6,
        }
    }

    /// The level as a number, from 1 for the topmost heading to 6.
    #[verifier::when_used_as_spec(spec_number)]
    pub fn number(self) -> (n: u8)
        ensures
            n == self.spec_number(),
            1 <= n <= 6,
    {
        match self {
            MarkdownHeadingLevel::H1 => 1,
            MarkdownHeadingLevel::H2 => 2,
            MarkdownHeadingLevel::H3 => 3,
            MarkdownHeadingLevel::H4 => 4,
            MarkdownHeadingLevel::H5 => 5,
            MarkdownHeadingLevel::H6 => 6,
        }
    }
}

/// Text alignment in tables.
#[derive(Clone, Copy, Debug, PartialEq, Eq, Structural)]
pub enum MarkdownAlignment {
    /// Default text alignment.
    Unaligned,
    Left,
    Center,
    Right,
}

/// How a link was written.
#[derive(Clone, Copy, Debug, PartialEq, Eq, Structural)]
pub enum MarkdownLinkType {
    /// Inline link like `[foo](bar)`
    Inline,
    /// Reference link like `[foo][bar]`
    Reference,
    /// Reference without destination in the document
    ReferenceUnknown,
    /// Collapsed link like `[foo][]`
    Collapsed,
    /// Collapsed link without destination in the document
    CollapsedUnknown,
    /// Shortcut link like `[foo]`
    Shortcut,
    /// Shortcut without destination in the document
    ShortcutUnknown,
    /// Autolink like `<http://foo.bar/baz>`
    Autolink,
    /// Email address in autolink like `<john@example.org>`
    Email,
}

/// The kind of an alert that a block quote is written as.
#[derive(Clone, Copy, Debug, PartialEq, Eq, PartialOrd, Ord, Hash, Structural)]
pub enum MarkdownBlockQuoteKind {
    Note,
    Tip,
    Important,
    Warning,
    Caution,
}

/// How a block of metadata is fenced.
#[derive(Clone, Copy, Debug, PartialEq, Eq, PartialOrd, Ord, Hash, Structural)]
pub enum MarkdownMetadataBlockKind {
    YamlStyle,
    PlusesStyle,
}

/// An attribute of a heading: a key, and a value where it has one.
#[derive(Clone, Debug, PartialEq, Eq)]
pub struct MarkdownAttribute {
    pub key: String,
    pub value: Option<String>,
}

impl From<(String, Option<String>)> for MarkdownAttribute {
    /// The attribute made of a key and its value.
    fn from(pair: (String, Option<String>)) -> (attribute: Self) {
        MarkdownAttribute { key: pair.0, value: pair.1 }
    }
}

impl vstd::std_specs::convert::FromSpecImpl<(String, Option<String>)> for MarkdownAttribute {
    open spec fn obeys_from_spec() -> bool {
        true
    }

    open spec fn from_spec(pair: (String, Option<String>)) -> Self {
        MarkdownAttribute { key: pair.0, value: pair.1 }
    }
}

impl From<MarkdownAttribute> for (String, Option<String>) {
    /// The key and the value of the attribute.
    fn from(attribute: MarkdownAttribute) -> (pair: Self) {
        (attribute.key, attribute.value)
    }
}

impl vstd::std_specs::convert::FromSpecImpl<MarkdownAttribute> for (String, Option<String>) {
    open spec fn obeys_from_spec() -> bool {
        true
    }

    open spec fn from_spec(attribute: MarkdownAttribute) -> Self {
        (attribute.key, attribute.value)
    }
}

/// Tags containing other elements.
#[derive(Clone, Debug, PartialEq, Eq)]
pub enum MarkdownTag {
    /// A paragraph of text and other inline elements.
    Paragraph,
    /// A heading: its level, its fragment identifier, its classes and its
    /// attributes.
    Heading(MarkdownHeadingLevel, Option<String>, Vec<String>, Vec<MarkdownAttribute>),
    BlockQuote(Option<MarkdownBlockQuoteKind>),
    /// A code block.
    CodeBlock(MarkdownCodeBlockKind),
    /// A list. If the list is ordered the field holds the number of the first
    /// item.
    List(Option<u64>),
    /// A list item.
    Item,
    /// A footnote definition, with the label by which it is referred to.
    FootnoteDefinition(String),
    /// A table, with the text alignment of each of its columns.
    Table(Vec<MarkdownAlignment>),
    /// A table header.
    TableHead,
    /// A table row.
    TableRow,
    TableCell,
    Emphasis,
    Strong,
    Strikethrough,
    /// A link: its type, the destination URL, a title and an identifier.
    Link(MarkdownLinkType, String, String, String),
    /// An image: its type, the destination URL, a title and an identifier.
    Image(MarkdownLinkType, String, String, String),
    HtmlBlock,
    DefinitionList,
    DefinitionListTitle,
    DefinitionListDefinition,
    MetadataBlock(MarkdownMetadataBlockKind),
}

/// The end of a tag.
#[derive(Clone, Copy, Debug, PartialEq, Eq, Structural, PartialOrd, Ord, Hash)]
pub enum MarkdownTagEnd {
    Paragraph,
    Heading(MarkdownHeadingLevel),
    BlockQuote(Option<MarkdownBlockQuoteKind>),
    CodeBlock,
    HtmlBlock,
    /// A list, `true` for ordered lists.
    List(bool),
    Item,
    FootnoteDefinition,
    DefinitionList,
    DefinitionListTitle,
    DefinitionListDefinition,
    Table,
    TableHead,
    TableRow,
    TableCell,
    Emphasis,
    Strong,
    Strikethrough,
    Link,
    Image,
    MetadataBlock(MarkdownMetadataBlockKind),
}

/// The events a document is made of, in the order of a walk through it: a tag
/// starts, what it holds follows, the tag ends.
#[derive(Clone, Debug, PartialEq, Eq)]
pub enum MarkdownEvent {
    Start(MarkdownTag),
    End(MarkdownTagEnd),
    Text(String),
    Code(String),
    Html(String),
    FootnoteReference(String),
    SoftBreak,
    HardBreak,
    Rule,
    TaskListMarker(bool),
    InlineMath(String),
    DisplayMath(String),
    InlineHtml(String),
}

/// What a page makes of one event: a list of events, or at most one.
#[derive(Clone, Debug, PartialEq, Eq)]
pub enum MarkdownTransformation {
    MarkdownEventTable(Vec<MarkdownEvent>),
    OptionalMarkdownEvent(Option<MarkdownEvent>),
}

impl MarkdownTransformation {
    /// The events that take the place of the one that was transformed.
    pub open spec fn events(self) -> Seq<MarkdownEvent> {
        match self {
            MarkdownTransformation::MarkdownEventTable(events) => events@,
            MarkdownTransformation::OptionalMarkdownEvent(Some(event)) => seq![event],
            MarkdownTransformation::OptionalMarkdownEvent(None) => Seq::empty(),
        }
    }

    /// The events that take the place of the one that was transformed.
    pub fn into_events(self) -> (events: Vec<MarkdownEvent>)
        ensures
            events@ == self.events(),
    {
        match self {
            MarkdownTransformation::MarkdownEventTable(events) => events,
            MarkdownTransformation::OptionalMarkdownEvent(Some(event)) => {
                let mut events = Vec::new();
                events.push(event);
                events
            },
            MarkdownTransformation::OptionalMarkdownEvent(None) => Vec::new(),
        }
    }
}

/// The lists of `parts[..n]` put together, in their order.
pub open spec fn flattened<T>(parts: Seq<Vec<T>>, n: nat) -> Seq<T>
    decreases n,
{
    if 0 < n <= parts.len() {
        flattened(parts, (n - 1) as nat) + parts[n - 1]@
    } else {
        Seq::empty()
    }
}

/// Hands every event of `events` to `func`, in their order, and puts
/// together what `func` makes of them. The first event that `func` fails on
/// ends the work, with the error of `func`.
///
/// The events may be of any type: a page may keep them in a form of its own.
pub fn transform_events<T, E, F: Fn(T) -> Result<Vec<T>, E>>(
    events: Vec<T>,
    func: F,
) -> (transformed: Result<Vec<T>, E>)
    requires
        forall|event: T| func.requires((event,)),
    ensures
        match transformed {
            Ok(out) => exists|parts: Seq<Vec<T>>|
                {
                    &&& parts.len() == events.len()
                    &&& forall|i: int|
                        0 <= i < events.len() ==> func.ensures(
                            (events[i],),
                            Ok(#[trigger] parts[i]),
                        )
                    &&& out@ == flattened(parts, parts.len())
                },
            Err(error) => exists|at: int, parts: Seq<Vec<T>>|
                {
                    &&& 0 <= at < events.len()
                    &&& parts.len() == at
                    &&& forall|i: int|
                        0 <= i < at ==> func.ensures((events[i],), Ok(#[trigger] parts[i]))
                    &&& func.ensures((events[at],), Err(error))
                },
        },
{
    let mut out: Vec<T> = Vec::new();
    let ghost all = events@;
    let ghost mut parts: Seq<Vec<T>> = Seq::empty();
    for event in it: events
        invariant
            it.seq() == all,
            parts.len() == it.index(),
            forall|i: int|
                0 <= i < parts.len() ==> func.ensures((all[i],), Ok(#[trigger] parts[i])),
            out@ == flattened(parts, parts.len()),
            forall|event: T| func.requires((event,)),
    {
        match func(event) {
            Ok(mut part) => {
                proof {
                    let before = parts;
                    parts = parts.push(part);
                    assert(flattened(parts, (parts.len() - 1) as nat) == flattened(
                        before,
                        before.len(),
                    )) by {
                        lemma_flattened_of_prefix(before, parts, before.len());
                    }
                }
                out.append(&mut part);
            },
            Err(error) => {
                return Err(error);
            },
        }
    }
    Ok(out)
}

proof fn lemma_flattened_of_prefix<T>(a: Seq<Vec<T>>, b: Seq<Vec<T>>, n: nat)
    requires
        n <= a.len() <= b.len(),
        forall|i: int| 0 <= i < n ==> a[i] == b[i],
    ensures
        flattened(a, n) == flattened(b, n),
    decreases n,
{
    if n > 0 {
        lemma_flattened_of_prefix(a, b, (n - 1) as nat);
    }
}

} // verus!
