//! Receipt layout: which sections of a ticket are printed and how each is styled.

use vstd::prelude::*;
use vstd::string::StringExecFns;
use crate::errors::{CommandError, CommandErrorView};

verus! {

/// Text magnification of a receipt section.
#[derive(Clone, Copy, Debug, PartialEq, Eq, Structural)]
pub enum FontSize {
    Small,
    Normal,
    Large,
}

/// Horizontal alignment of a receipt section.
#[derive(Clone, Copy, Debug, PartialEq, Eq, Structural)]
pub enum Justify {
    Left,
    Center,
    Right,
}

impl FontSize {
    /// Width and height factors the printer applies for this size.
    pub open spec fn magnification_spec(self) -> (u8, u8) {
        match self {
            FontSize::Small => (1u8, 1u8),
            FontSize::Normal => (2u8, 2u8),
            FontSize::Large => (3u8, 3u8),
        }
    }

    /// Width and height factors the printer applies for this size.
    pub fn magnification(self) -> (factors: (u8, u8))
        ensures
            factors == self.magnification_spec(),
    {
        match self {
            FontSize::Small => (1, 1),
            FontSize::Normal => (2, 2),
            FontSize::Large => (3, 3),
        }
    }

    /// The size a printer has after a reset: factors of one.
    pub open spec fn printer_default() -> FontSize {
        FontSize::Small
    }
}

/// Styling of the body or the footer of a ticket.
#[derive(Clone, Copy, Debug, PartialEq, Eq, Structural)]
pub struct SectionLayout {
    pub enabled: bool,
    pub font_size: FontSize,
    pub justify: Justify,
}

/// Styling and fixed text of the header of a ticket.
#[derive(Debug, PartialEq, Eq)]
pub struct HeaderLayout {
    pub enabled: bool,
    pub font_size: FontSize,
    pub justify: Justify,
    pub content: String,
}

/// Model of a [`HeaderLayout`].
pub struct HeaderLayoutView {
    pub enabled: bool,
    pub font_size: FontSize,
    pub justify: Justify,
    pub content: Seq<char>,
}

impl View for HeaderLayout {
    type V = HeaderLayoutView;

    open spec fn view(&self) -> HeaderLayoutView {
        HeaderLayoutView {
            enabled: self.enabled,
            font_size: self.font_size,
            justify: self.justify,
            content: self.content@,
        }
    }
}

impl Clone for HeaderLayout {
    fn clone(&self) -> (copy: Self)
        ensures
            copy@ == self@,
    {
        HeaderLayout {
            enabled: self.enabled,
            font_size: self.font_size,
            justify: self.justify,
            content: self.content.clone(),
        }
    }
}

impl HeaderLayoutView {
    /// The styling of the header without its text.
    pub open spec fn section(self) -> SectionLayout {
        SectionLayout { enabled: self.enabled, font_size: self.font_size, justify: self.justify }
    }
}

impl From<HeaderLayout> for SectionLayout {
    /// The styling of a header, without its text.
    fn from(value: HeaderLayout) -> (section: SectionLayout) {
        SectionLayout {
            enabled: value.enabled,
            font_size: value.font_size,
            justify: value.justify,
        }
    }
}

impl vstd::std_specs::convert::FromSpecImpl<HeaderLayout> for SectionLayout {
    open spec fn obeys_from_spec() -> bool {
        true
    }

    open spec fn from_spec(value: HeaderLayout) -> SectionLayout {
        value@.section()
    }
}

/// The complete layout of a ticket.
#[derive(Debug, PartialEq, Eq)]
pub struct PrintingLayout {
    pub group_tickets_by_category: bool,
    pub header: HeaderLayout,
    pub body: SectionLayout,
    pub footer: SectionLayout,
}

/// Model of a [`PrintingLayout`].
pub struct PrintingLayoutView {
    pub group_tickets_by_category: bool,
    pub header: HeaderLayoutView,
    pub body: SectionLayout,
    pub footer: SectionLayout,
}

impl View for PrintingLayout {
    type V = PrintingLayoutView;

    open spec fn view(&self) -> PrintingLayoutView {
        PrintingLayoutView {
            group_tickets_by_category: self.group_tickets_by_category,
            header: self.header@,
            body: self.body,
            footer: self.footer,
        }
    }
}

impl Clone for PrintingLayout {
    fn clone(&self) -> (copy: Self)
        ensures
            copy@ == self@,
    {
        PrintingLayout {
            group_tickets_by_category: self.group_tickets_by_category,
            header: self.header.clone(),
            body: self.body,
            footer: self.footer,
        }
    }
}

/// The layout used when none was ever saved: one ticket per unit, only the
/// body printed, everything of normal size and centred, no header text.
pub open spec fn default_layout() -> PrintingLayoutView {
    PrintingLayoutView {
        group_tickets_by_category: false,
        header: HeaderLayoutView {
            enabled: false,
            font_size: FontSize::Normal,
            justify: Justify::Center,
            content: Seq::empty(),
        },
        body: SectionLayout {
            enabled: true,
            font_size: FontSize::Normal,
            justify: Justify::Center,
        },
        footer: SectionLayout {
            enabled: false,
            font_size: FontSize::Normal,
            justify: Justify::Center,
        },
    }
}

impl Default for PrintingLayout {
    fn default() -> (layout: Self)
        ensures
            layout@ == default_layout(),
    {
        PrintingLayout {
            group_tickets_by_category: false,
            header: HeaderLayout {
                enabled: false,
                content: String::new(),
                font_size: FontSize::Normal,
                justify: Justify::Center,
            },
            body: SectionLayout {
                enabled: true,
                font_size: FontSize::Normal,
                justify: Justify::Center,
            },
            footer: SectionLayout {
                enabled: false,
                font_size: FontSize::Normal,
                justify: Justify::Center,
            },
        }
    }
}

impl FontSize {
    /// The name under which the size is stored.
    pub open spec fn name_spec(self) -> Seq<char> {
        match self {
            FontSize::Small => "Small"@,
            FontSize::Normal => "Normal"@,
            FontSize::Large => "Large"@,
        }
    }

    /// The name under which the size is stored.
    pub fn name(self) -> (name: String)
        ensures
            name@ == self.name_spec(),
    {
        match self {
            FontSize::Small => String::from_str("Small"),
            FontSize::Normal => String::from_str("Normal"),
            FontSize::Large => String::from_str("Large"),
        }
    }

    /// The size stored under `name`, if there is one.
    pub open spec fn named(name: Seq<char>) -> Option<FontSize> {
        if name == "Small"@ {
            Some(FontSize::Small)
        } else if name == "Normal"@ {
            Some(FontSize::Normal)
        } else if name == "Large"@ {
            Some(FontSize::Large)
        } else {
            None
        }
    }

    /// The size stored under `name`, if there is one.
    pub fn parse(name: &String) -> (size: Option<FontSize>)
        ensures
            size == FontSize::named(name@),
    {
        if *name == String::from_str("Small") {
            Some(FontSize::Small)
        } else if *name == String::from_str("Normal") {
            Some(FontSize::Normal)
        } else if *name == String::from_str("Large") {
            Some(FontSize::Large)
        } else {
            None
        }
    }

    /// Every size is found again under its name.
    pub proof fn lemma_name_round_trip(self)
        ensures
            FontSize::named(self.name_spec()) == Some(self),
    {
        reveal_strlit("Small");
        reveal_strlit("Normal");
        reveal_strlit("Large");
        assert("Small"@[0] == 'S' && "Large"@[0] == 'L');
    }
}

impl Justify {
    /// The name under which the alignment is stored.
    pub open spec fn name_spec(self) -> Seq<char> {
        match self {
            Justify::Left => "Left"@,
            Justify::Center => "Center"@,
            Justify::Right => "Right"@,
        }
    }

    /// The name under which the alignment is stored.
    pub fn name(self) -> (name: String)
        ensures
            name@ == self.name_spec(),
    {
        match self {
            Justify::Left => String::from_str("Left"),
            Justify::Center => String::from_str("Center"),
            Justify::Right => String::from_str("Right"),
        }
    }

    /// The alignment stored under `name`, if there is one.
    pub open spec fn named(name: Seq<char>) -> Option<Justify> {
        if name == "Left"@ {
            Some(Justify::Left)
        } else if name == "Center"@ {
            Some(Justify::Center)
        } else if name == "Right"@ {
            Some(Justify::Right)
        } else {
            None
        }
    }

    /// The alignment stored under `name`, if there is one.
    pub fn parse(name: &String) -> (mode: Option<Justify>)
        ensures
            mode == Justify::named(name@),
    {
        if *name == String::from_str("Left") {
            Some(Justify::Left)
        } else if *name == String::from_str("Center") {
            Some(Justify::Center)
        } else if *name == String::from_str("Right") {
            Some(Justify::Right)
        } else {
            None
        }
    }

    /// Every alignment is found again under its name.
    pub proof fn lemma_name_round_trip(self)
        ensures
            Justify::named(self.name_spec()) == Some(self),
    {
        reveal_strlit("Left");
        reveal_strlit("Center");
        reveal_strlit("Right");
        assert("Left"@.len() == 4 && "Center"@.len() == 6 && "Right"@.len() == 5);
    }
}

/// A section's styling as the settings hold it: enumerations by name.
#[derive(Debug, PartialEq, Eq)]
pub struct SectionDocument {
    pub enabled: bool,
    pub font_size: String,
    pub justify: String,
}

/// Model of a [`SectionDocument`].
pub struct SectionDocumentView {
    pub enabled: bool,
    pub font_size: Seq<char>,
    pub justify: Seq<char>,
}

impl View for SectionDocument {
    type V = SectionDocumentView;

    open spec fn view(&self) -> SectionDocumentView {
        SectionDocumentView {
            enabled: self.enabled,
            font_size: self.font_size@,
            justify: self.justify@,
        }
    }
}

impl Clone for SectionDocument {
    fn clone(&self) -> (copy: Self)
        ensures
            copy@ == self@,
    {
        SectionDocument {
            enabled: self.enabled,
            font_size: self.font_size.clone(),
            justify: self.justify.clone(),
        }
    }
}

/// The header's styling and text as the settings hold them.
#[derive(Debug, PartialEq, Eq)]
pub struct HeaderDocument {
    pub enabled: bool,
    pub font_size: String,
    pub justify: String,
    pub content: String,
}

/// Model of a [`HeaderDocument`].
pub struct HeaderDocumentView {
    pub enabled: bool,
    pub font_size: Seq<char>,
    pub justify: Seq<char>,
    pub content: Seq<char>,
}

impl View for HeaderDocument {
    type V = HeaderDocumentView;

    open spec fn view(&self) -> HeaderDocumentView {
        HeaderDocumentView {
            enabled: self.enabled,
            font_size: self.font_size@,
            justify: self.justify@,
            content: self.content@,
        }
    }
}

impl Clone for HeaderDocument {
    fn clone(&self) -> (copy: Self)
        ensures
            copy@ == self@,
    {
        HeaderDocument {
            enabled: self.enabled,
            font_size: self.font_size.clone(),
            justify: self.justify.clone(),
            content: self.content.clone(),
        }
    }
}

/// A layout as the settings hold it.
#[derive(Debug, PartialEq, Eq)]
pub struct LayoutDocument {
    pub group_tickets_by_category: bool,
    pub header: HeaderDocument,
    pub body: SectionDocument,
    pub footer: SectionDocument,
}

/// Model of a [`LayoutDocument`].
pub struct LayoutDocumentView {
    pub group_tickets_by_category: bool,
    pub header: HeaderDocumentView,
    pub body: SectionDocumentView,
    pub footer: SectionDocumentView,
}

impl View for LayoutDocument {
    type V = LayoutDocumentView;

    open spec fn view(&self) -> LayoutDocumentView {
        LayoutDocumentView {
            group_tickets_by_category: self.group_tickets_by_category,
            header: self.header@,
            body: self.body@,
            footer: self.footer@,
        }
    }
}

impl Clone for LayoutDocument {
    fn clone(&self) -> (copy: Self)
        ensures
            copy@ == self@,
    {
        LayoutDocument {
            group_tickets_by_category: self.group_tickets_by_category,
            header: self.header.clone(),
            body: self.body.clone(),
            footer: self.footer.clone(),
        }
    }
}

/// The document that stores a section's styling.
pub open spec fn encoded_section(section: SectionLayout) -> SectionDocumentView {
    SectionDocumentView {
        enabled: section.enabled,
        font_size: section.font_size.name_spec(),
        justify: section.justify.name_spec(),
    }
}

/// The document that stores a layout.
pub open spec fn encoded_layout(layout: PrintingLayoutView) -> LayoutDocumentView {
    LayoutDocumentView {
        group_tickets_by_category: layout.group_tickets_by_category,
        header: HeaderDocumentView {
            enabled: layout.header.enabled,
            font_size: layout.header.font_size.name_spec(),
            justify: layout.header.justify.name_spec(),
            content: layout.header.content,
        },
        body: encoded_section(layout.body),
        footer: encoded_section(layout.footer),
    }
}

/// The message of the error for a size that has no such name.
pub open spec fn unknown_font_size() -> Seq<char> {
    "unknown font size"@
}

/// The message of the error for an alignment that has no such name.
pub open spec fn unknown_justification() -> Seq<char> {
    "unknown justification"@
}

/// The styling that a pair of stored names stands for; the size is looked
/// at before the alignment.
pub open spec fn decoded_style(font_size: Seq<char>, justify: Seq<char>) -> Result<
    (FontSize, Justify),
    CommandErrorView,
> {
    match FontSize::named(font_size) {
        None => Err(CommandErrorView::Serde(unknown_font_size())),
        Some(size) => match Justify::named(justify) {
            None => Err(CommandErrorView::Serde(unknown_justification())),
            Some(mode) => Ok((size, mode)),
        },
    }
}

/// The layout that a document stands for, or the error of the first name
/// that is not known: header, then body, then footer.
pub open spec fn decoded_layout(document: LayoutDocumentView) -> Result<
    PrintingLayoutView,
    CommandErrorView,
> {
    match decoded_style(document.header.font_size, document.header.justify) {
        Err(error) => Err(error),
        Ok(header) => match decoded_style(document.body.font_size, document.body.justify) {
            Err(error) => Err(error),
            Ok(body) => match decoded_style(document.footer.font_size, document.footer.justify) {
                Err(error) => Err(error),
                Ok(footer) => Ok(
                    PrintingLayoutView {
                        group_tickets_by_category: document.group_tickets_by_category,
                        header: HeaderLayoutView {
                            enabled: document.header.enabled,
                            font_size: header.0,
                            justify: header.1,
                            content: document.header.content,
                        },
                        body: SectionLayout {
                            enabled: document.body.enabled,
                            font_size: body.0,
                            justify: body.1,
                        },
                        footer: SectionLayout {
                            enabled: document.footer.enabled,
                            font_size: footer.0,
                            justify: footer.1,
                        },
                    },
                ),
            },
        },
    }
}

/// The layout in force for what the settings hold: the stored layout, or
/// the default where none is stored.
pub open spec fn stored_layout(document: Option<LayoutDocumentView>) -> Result<
    PrintingLayoutView,
    CommandErrorView,
> {
    match document {
        Some(document) => decoded_layout(document),
        None => Ok(default_layout()),
    }
}

/// The view of a decoding result.
pub open spec fn layout_result_view(result: Result<PrintingLayout, CommandError>) -> Result<
    PrintingLayoutView,
    CommandErrorView,
> {
    match result {
        Ok(layout) => Ok(layout@),
        Err(error) => Err(error@),
    }
}

/// The view of the result of decoding a style.
pub open spec fn style_result_view(result: Result<(FontSize, Justify), CommandError>) -> Result<
    (FontSize, Justify),
    CommandErrorView,
> {
    match result {
        Ok(style) => Ok(style),
        Err(error) => Err(error@),
    }
}

/// A layout that is stored and read again is the same layout.
pub proof fn lemma_layout_round_trip(layout: PrintingLayoutView)
    ensures
        decoded_layout(encoded_layout(layout)) == Ok::<PrintingLayoutView, CommandErrorView>(
            layout,
        ),
        stored_layout(Some(encoded_layout(layout))) == Ok::<PrintingLayoutView, CommandErrorView>(
            layout,
        ),
{
    layout.header.font_size.lemma_name_round_trip();
    layout.header.justify.lemma_name_round_trip();
    layout.body.font_size.lemma_name_round_trip();
    layout.body.justify.lemma_name_round_trip();
    layout.footer.font_size.lemma_name_round_trip();
    layout.footer.justify.lemma_name_round_trip();
}

/// Where the settings hold no layout, the default layout is in force.
pub proof fn lemma_absent_layout_is_default()
    ensures
        stored_layout(None) == Ok::<PrintingLayoutView, CommandErrorView>(default_layout()),
{
}

fn decode_style(font_size: &String, justify: &String) -> (style: Result<
    (FontSize, Justify),
    CommandError,
>)
    ensures
        style_result_view(style) == decoded_style(font_size@, justify@),
{
    match FontSize::parse(font_size) {
        None => Err(CommandError::Serde(String::from_str("unknown font size"))),
        Some(size) => match Justify::parse(justify) {
            None => Err(CommandError::Serde(String::from_str("unknown justification"))),
            Some(mode) => Ok((size, mode)),
        },
    }
}

impl PrintingLayout {
    /// The document that stores this layout.
    pub fn to_document(&self) -> (document: LayoutDocument)
        ensures
            document@ == encoded_layout(self@),
    {
        LayoutDocument {
            group_tickets_by_category: self.group_tickets_by_category,
            header: HeaderDocument {
                enabled: self.header.enabled,
                font_size: self.header.font_size.name(),
                justify: self.header.justify.name(),
                content: self.header.content.clone(),
            },
            body: SectionDocument {
                enabled: self.body.enabled,
                font_size: self.body.font_size.name(),
                justify: self.body.justify.name(),
            },
            footer: SectionDocument {
                enabled: self.footer.enabled,
                font_size: self.footer.font_size.name(),
                justify: self.footer.justify.name(),
            },
        }
    }

    /// The layout that a stored document stands for.
    pub fn from_document(document: &LayoutDocument) -> (layout: Result<
        PrintingLayout,
        CommandError,
    >)
        ensures
            layout_result_view(layout) == decoded_layout(document@),
    {
        let header = match decode_style(&document.header.font_size, &document.header.justify) {
            Ok(style) => style,
            Err(error) => {
                return Err(error);
            },
        };
        let body = match decode_style(&document.body.font_size, &document.body.justify) {
            Ok(style) => style,
            Err(error) => {
                return Err(error);
            },
        };
        let footer = match decode_style(&document.footer.font_size, &document.footer.justify) {
            Ok(style) => style,
            Err(error) => {
                return Err(error);
            },
        };
        Ok(
            PrintingLayout {
                group_tickets_by_category: document.group_tickets_by_category,
                header: HeaderLayout {
                    enabled: document.header.enabled,
                    font_size: header.0,
                    justify: header.1,
                    content: document.header.content.clone(),
                },
                body: SectionLayout {
                    enabled: document.body.enabled,
                    font_size: body.0,
                    justify: body.1,
                },
                footer: SectionLayout {
                    enabled: document.footer.enabled,
                    font_size: footer.0,
                    justify: footer.1,
                },
            },
        )
    }

    /// The layout in force for what the settings hold: the stored layout,
    /// or the default where none is stored.
    pub fn from_stored(document: Option<&LayoutDocument>) -> (layout: Result<
        PrintingLayout,
        CommandError,
    >)
        ensures
            layout_result_view(layout) == stored_layout(
                match document {
                    Some(document) => Some(document@),
                    None => None,
                },
            ),
    {
        match document {
            Some(document) => PrintingLayout::from_document(document),
            None => Ok(PrintingLayout::default()),
        }
    }
}

} // verus!
