//! Classification of the user's selection (nothing, text, or an image) at the
//! moment a transcript is post-processed.

use vstd::prelude::*;

use crate::text::{is_blank, is_blank_str};

verus! {

/// The kind of selection the user made.
#[derive(Debug, Clone, Copy, PartialEq, Eq, Structural)]
pub enum SelectionType {
    /// No selection was made
    Empty,
    /// Text was selected
    Text,
    /// An image was selected
    Image,
}

impl Default for SelectionType {
    fn default() -> (r: Self)
        ensures
            r == SelectionType::Empty,
    {
        SelectionType::Empty
    }
}

/// The selection context: its kind and its content.
#[derive(Debug, Clone)]
pub struct SelectionContext {
    /// The type of selection
    pub selection_type: SelectionType,
    /// Selected text content (when selection_type is Text)
    pub selected_text: Option<String>,
    /// Selected image as base64-encoded data URL (when selection_type is Image)
    pub selected_image: Option<String>,
    /// Raw selection string that can represent either text or image reference
    pub selection: Option<String>,
}

/// The view of an optional string: the characters it holds, if any.
pub open spec fn opt_view(o: Option<String>) -> Option<Seq<char>> {
    match o {
        Some(s) => Some(s@),
        None => None,
    }
}

/// A copy of an optional string.
pub fn clone_opt(o: &Option<String>) -> (r: Option<String>)
    ensures
        opt_view(r) == opt_view(*o),
{
    match o {
        Some(s) => Some(s.clone()),
        None => None,
    }
}

impl SelectionContext {
    /// The context is empty: no kind and no content.
    pub open spec fn is_empty_context(&self) -> bool {
        &&& self.selection_type == SelectionType::Empty
        &&& self.selected_text.is_none()
        &&& self.selected_image.is_none()
        &&& self.selection.is_none()
    }

    /// The context of a text selection holding `t`.
    pub open spec fn is_text_context(&self, t: Seq<char>) -> bool {
        &&& self.selection_type == SelectionType::Text
        &&& opt_view(self.selected_text) == Some(t)
        &&& self.selected_image.is_none()
        &&& opt_view(self.selection) == Some(t)
    }

    /// The context of an image selection holding `d`.
    pub open spec fn is_image_context(&self, d: Seq<char>) -> bool {
        &&& self.selection_type == SelectionType::Image
        &&& self.selected_text.is_none()
        &&& opt_view(self.selected_image) == Some(d)
        &&& opt_view(self.selection) == Some(d)
    }

    /// An image is selected: the kind is `Image` and the image is present.
    pub open spec fn spec_has_image(&self) -> bool {
        self.selection_type == SelectionType::Image && self.selected_image.is_some()
    }

    /// Text is selected: the kind is `Text` and the text is present.
    pub open spec fn spec_has_text(&self) -> bool {
        self.selection_type == SelectionType::Text && self.selected_text.is_some()
    }

    /// Something is selected.
    pub open spec fn spec_has_selection(&self) -> bool {
        self.selection_type != SelectionType::Empty
    }

    /// Creates a text selection context
    pub fn text(text: String) -> (r: Self)
        ensures
            r.is_text_context(text@),
    {
        SelectionContext {
            selection_type: SelectionType::Text,
            selected_text: Some(text.clone()),
            selected_image: None,
            selection: Some(text),
        }
    }

    /// Creates an image selection context
    pub fn image(image_data: String) -> (r: Self)
        ensures
            r.is_image_context(image_data@),
    {
        SelectionContext {
            selection_type: SelectionType::Image,
            selected_text: None,
            selected_image: Some(image_data.clone()),
            selection: Some(image_data),
        }
    }

    /// Creates an empty selection context
    pub fn none() -> (r: Self)
        ensures
            r.is_empty_context(),
    {
        Self::default()
    }

    /// Returns true if an image is selected
    pub fn has_image(&self) -> (b: bool)
        ensures
            b == self.spec_has_image(),
    {
        self.selection_type == SelectionType::Image && self.selected_image.is_some()
    }

    /// Returns true if text is selected
    pub fn has_text(&self) -> (b: bool)
        ensures
            b == self.spec_has_text(),
    {
        self.selection_type == SelectionType::Text && self.selected_text.is_some()
    }

    /// Returns true if anything is selected
    pub fn has_selection(&self) -> (b: bool)
        ensures
            b == self.spec_has_selection(),
    {
        self.selection_type != SelectionType::Empty
    }
}

impl Default for SelectionContext {
    fn default() -> (r: Self)
        ensures
            r.is_empty_context(),
    {
        SelectionContext {
            selection_type: SelectionType::Empty,
            selected_text: None,
            selected_image: None,
            selection: None,
        }
    }
}

/// A text selection has text and nothing else; an image selection has an
/// image and nothing else; the empty context has nothing.
pub proof fn law_context_flags(c: SelectionContext, t: Seq<char>)
    ensures
        c.is_text_context(t) ==> c.spec_has_text() && !c.spec_has_image()
            && c.spec_has_selection(),
        c.is_image_context(t) ==> !c.spec_has_text() && c.spec_has_image()
            && c.spec_has_selection(),
        c.is_empty_context() ==> !c.spec_has_text() && !c.spec_has_image()
            && !c.spec_has_selection(),
{
}

/// Resolves selection from various input sources
pub struct SelectionResolver;

/// What a captured text resolves to: a text selection when the text holds
/// more than whitespace, no selection otherwise.
pub open spec fn resolves_text(captured: Option<Seq<char>>, r: SelectionContext) -> bool {
    match captured {
        Some(t) if !is_blank(t) => r.is_text_context(t),
        _ => r.is_empty_context(),
    }
}

/// What captured image data resolves to: an image selection when the data is
/// not empty, no selection otherwise.
pub open spec fn resolves_image(captured: Option<Seq<char>>, r: SelectionContext) -> bool {
    match captured {
        Some(d) if d.len() > 0 => r.is_image_context(d),
        _ => r.is_empty_context(),
    }
}

/// Captured text is selected exactly when it holds more than whitespace;
/// captured image data exactly when it is not empty.
pub proof fn law_resolved_selection(captured: Option<Seq<char>>, r: SelectionContext)
    ensures
        resolves_text(captured, r) ==> (r.spec_has_selection() <==> (captured matches Some(t)
            && !is_blank(t))),
        resolves_image(captured, r) ==> (r.spec_has_selection() <==> (captured matches Some(d)
            && d.len() > 0)),
{
}

impl SelectionResolver {
    /// Capture text selection from clipboard
    ///
    /// Returns SelectionContext with selection_type = Text if text was captured,
    /// or SelectionContext with selection_type = None if no text was selected.
    pub fn resolve_text_selection(text: Option<String>) -> (r: SelectionContext)
        ensures
            resolves_text(opt_view(text), r),
    {
        match text {
            Some(t) => {
                if !is_blank_str(t.as_str()) {
                    SelectionContext::text(t)
                } else {
                    SelectionContext::none()
                }
            },
            None => SelectionContext::none(),
        }
    }

    /// Capture image selection
    ///
    /// Returns SelectionContext with selection_type = Image if an image was captured,
    /// or SelectionContext with selection_type = None if no image was selected.
    pub fn resolve_image_selection(image_data: Option<String>) -> (r: SelectionContext)
        ensures
            resolves_image(opt_view(image_data), r),
    {
        match image_data {
            Some(data) => {
                if !data.as_str().is_empty() {
                    SelectionContext::image(data)
                } else {
                    SelectionContext::none()
                }
            },
            None => SelectionContext::none(),
        }
    }

    /// Resolve selection based on captured content
    ///
    /// This method determines the selection type by examining the captured content.
    /// Image data is expected to be a base64-encoded data URL.
    pub fn resolve(captured: Option<String>, is_image: bool) -> (r: SelectionContext)
        ensures
            is_image ==> resolves_image(opt_view(captured), r),
            !is_image ==> resolves_text(opt_view(captured), r),
    {
        if is_image {
            Self::resolve_image_selection(captured)
        } else {
            Self::resolve_text_selection(captured)
        }
    }
}

} // verus!
