//! The pieces by which a message grows while it is being generated.
use vstd::prelude::*;

use crate::chat_completion::{ApiTextContent, ImageUrl, ImageUrlView, TextView};

verus! {

/// A piece of content added to a message: text or an image reference, with the
/// position of the part it extends.
#[derive(Debug, Clone, PartialEq, Eq)]
pub enum MessageDeltaContent {
    Text { index: i32, type_: String, text: ApiTextContent },
    ImageUrl { index: i32, type_: String, image_url: ImageUrl },
}

/// What a delta part holds, as mathematical values.
pub enum DeltaContentView {
    Text { index: i32, type_: Seq<char>, text: TextView },
    ImageUrl { index: i32, type_: Seq<char>, image_url: ImageUrlView },
}

impl View for MessageDeltaContent {
    type V = DeltaContentView;

    open spec fn view(&self) -> DeltaContentView {
        match self {
            MessageDeltaContent::Text { index, type_, text } => DeltaContentView::Text {
                index: *index,
                type_: type_@,
                text: text@,
            },
            MessageDeltaContent::ImageUrl { index, type_, image_url } => DeltaContentView::ImageUrl {
                index: *index,
                type_: type_@,
                image_url: image_url@,
            },
        }
    }
}

impl MessageDeltaContent {
    /// A text piece at position 0, of kind "text", holding `text` with no
    /// annotation.
    pub fn text(text: &str) -> (delta: Self)
        ensures
            delta@ == (DeltaContentView::Text {
                index: 0,
                type_: "text"@,
                text: TextView::Annotated { value: text@, annotations: Seq::empty() },
            }),
    {
        MessageDeltaContent::Text {
            index: 0,
            type_: String::from_str("text"),
            text: ApiTextContent::annotated(text),
        }
    }

    /// An image piece at position 0, of kind "image_url", referring to `url`
    /// with no level of detail.
    pub fn image_url(url: &str) -> (delta: Self)
        ensures
            delta@ == (DeltaContentView::ImageUrl {
                index: 0,
                type_: "image_url"@,
                image_url: ImageUrlView { url: url@, detail: None },
            }),
    {
        MessageDeltaContent::ImageUrl {
            index: 0,
            type_: String::from_str("image_url"),
            image_url: ImageUrl::url(url),
        }
    }
}

impl Default for MessageDeltaContent {
    /// An empty text piece at position 0.
    fn default() -> (delta: Self)
        ensures
            delta@ == (DeltaContentView::Text {
                index: 0,
                type_: "text"@,
                text: TextView::Annotated { value: Seq::empty(), annotations: Seq::empty() },
            }),
    {
        let text = ApiTextContent::annotated("");
        proof {
            reveal_strlit("");
            assert(""@ =~= Seq::<char>::empty());
        }
        MessageDeltaContent::Text { index: 0, type_: String::from_str("text"), text }
    }
}

/// What is added to a message: the role of its author and the new pieces.
#[derive(Debug, Clone, PartialEq, Eq)]
pub struct MessageDeltaDto {
    pub role: String,
    pub content: Vec<MessageDeltaContent>,
}

/// A delta of the message with the given id.
#[derive(Debug, Clone, PartialEq, Eq)]
pub struct ThreadMessageDeltaDto {
    pub id: String,
    pub delta: MessageDeltaDto,
}

/// What a message delta holds, as mathematical values.
pub struct MessageDeltaView {
    pub id: Seq<char>,
    pub role: Seq<char>,
    pub content: Seq<DeltaContentView>,
}

impl View for ThreadMessageDeltaDto {
    type V = MessageDeltaView;

    open spec fn view(&self) -> MessageDeltaView {
        MessageDeltaView {
            id: self.id@,
            role: self.delta.role@,
            content: self.delta.content@.map_values(|c: MessageDeltaContent| c@),
        }
    }
}

impl Default for MessageDeltaDto {
    /// No role and no piece.
    fn default() -> (delta: Self)
        ensures
            delta.role@.len() == 0,
            delta.content@.len() == 0,
    {
        MessageDeltaDto { role: String::new(), content: Vec::new() }
    }
}

impl Default for ThreadMessageDeltaDto {
    /// No id, no role and no piece.
    fn default() -> (delta: Self)
        ensures
            delta.id@.len() == 0,
            delta.delta.role@.len() == 0,
            delta.delta.content@.len() == 0,
    {
        ThreadMessageDeltaDto { id: String::new(), delta: MessageDeltaDto::default() }
    }
}

} // verus!
