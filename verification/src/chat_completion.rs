//! Message content as the chat-completion API exchanges it: text (plain or
//! annotated) and image references.
use vstd::prelude::*;

verus! {

/// An annotation attached to a span of a text content (a citation of a file,
/// a path to a file).
#[derive(Debug, PartialEq, Eq)]
pub struct MessageAnnotation {
    pub type_: String,
    pub text: String,
    pub start_index: u32,
    pub end_index: u32,
}

/// What an annotation holds, as mathematical values.
pub struct AnnotationView {
    pub type_: Seq<char>,
    pub text: Seq<char>,
    pub start_index: u32,
    pub end_index: u32,
}

impl View for MessageAnnotation {
    type V = AnnotationView;

    open spec fn view(&self) -> AnnotationView {
        AnnotationView {
            type_: self.type_@,
            text: self.text@,
            start_index: self.start_index,
            end_index: self.end_index,
        }
    }
}

impl Clone for MessageAnnotation {
    fn clone(&self) -> (copy: Self)
        ensures
            copy@ == self@,
    {
        MessageAnnotation {
            type_: self.type_.clone(),
            text: self.text.clone(),
            start_index: self.start_index,
            end_index: self.end_index,
        }
    }
}

/// Text content: either a bare string or a value with its annotations.
#[derive(Debug, PartialEq, Eq)]
pub enum ApiTextContent {
    String(String),
    Annotated { value: String, annotations: Vec<MessageAnnotation> },
}

/// What a text content holds, as mathematical values.
pub enum TextView {
    String(Seq<char>),
    Annotated { value: Seq<char>, annotations: Seq<AnnotationView> },
}

/// The views of a list of annotations, in order.
pub open spec fn annotations_view(annotations: Seq<MessageAnnotation>) -> Seq<AnnotationView> {
    annotations.map_values(|a: MessageAnnotation| a@)
}

impl View for ApiTextContent {
    type V = TextView;

    open spec fn view(&self) -> TextView {
        match self {
            ApiTextContent::String(s) => TextView::String(s@),
            ApiTextContent::Annotated { value, annotations } => TextView::Annotated {
                value: value@,
                annotations: annotations_view(annotations@),
            },
        }
    }
}

/// The characters a text content reads as.
pub open spec fn text_value(text: TextView) -> Seq<char> {
    match text {
        TextView::String(s) => s,
        TextView::Annotated { value, .. } => value,
    }
}

/// A copy of a list of annotations, equal to it item by item.
pub fn clone_annotations(annotations: &Vec<MessageAnnotation>) -> (copy: Vec<MessageAnnotation>)
    ensures
        annotations_view(copy@) == annotations_view(annotations@),
{
    let mut copy: Vec<MessageAnnotation> = Vec::new();
    let mut i: usize = 0;
    while i < annotations.len()
        invariant
            i <= annotations.len(),
            annotations_view(copy@) == annotations_view(annotations@.subrange(0, i as int)),
        decreases annotations.len() - i,
    {
        let a = annotations[i].clone();
        proof {
            assert(annotations@.subrange(0, i + 1) =~= annotations@.subrange(0, i as int).push(
                annotations@[i as int],
            ));
            assert(annotations_view(copy@.push(a)) =~= annotations_view(copy@).push(a@));
            assert(annotations_view(annotations@.subrange(0, i + 1)) =~= annotations_view(
                annotations@.subrange(0, i as int),
            ).push(annotations@[i as int]@));
        }
        copy.push(a);
        i = i + 1;
    }
    assert(annotations@.subrange(0, annotations@.len() as int) =~= annotations@);
    copy
}

impl Clone for ApiTextContent {
    fn clone(&self) -> (copy: Self)
        ensures
            copy@ == self@,
    {
        match self {
            ApiTextContent::String(s) => ApiTextContent::String(s.clone()),
            ApiTextContent::Annotated { value, annotations } => ApiTextContent::Annotated {
                value: value.clone(),
                annotations: clone_annotations(annotations),
            },
        }
    }
}

impl ApiTextContent {
    /// Annotated text with the given value and no annotation.
    pub fn annotated(text: &str) -> (content: Self)
        ensures
            content@ == (TextView::Annotated { value: text@, annotations: Seq::empty() }),
    {
        let annotations: Vec<MessageAnnotation> = Vec::new();
        assert(annotations_view(annotations@) =~= Seq::empty());
        ApiTextContent::Annotated { value: String::from_str(text), annotations }
    }

    /// The text as a string: the bare string, or the value of annotated text.
    pub fn to_string(&self) -> (s: String)
        ensures
            s@ == text_value(self@),
    {
        match self {
            ApiTextContent::String(s) => s.clone(),
            ApiTextContent::Annotated { value, .. } => value.clone(),
        }
    }
}

/// A reference to an image, with the level of detail asked for.
#[derive(Debug, PartialEq, Eq)]
pub struct ImageUrl {
    pub url: String,
    pub detail: Option<String>,
}

/// What an image reference holds, as mathematical values.
pub struct ImageUrlView {
    pub url: Seq<char>,
    pub detail: Option<Seq<char>>,
}

/// The view of an optional string.
pub open spec fn opt_view(s: Option<String>) -> Option<Seq<char>> {
    match s {
        Some(s) => Some(s@),
        None => None,
    }
}

/// A copy of an optional string.
pub fn clone_opt(s: &Option<String>) -> (copy: Option<String>)
    ensures
        opt_view(copy) == opt_view(*s),
{
    match s {
        Some(s) => Some(s.clone()),
        None => None,
    }
}

impl View for ImageUrl {
    type V = ImageUrlView;

    open spec fn view(&self) -> ImageUrlView {
        ImageUrlView { url: self.url@, detail: opt_view(self.detail) }
    }
}

impl Clone for ImageUrl {
    fn clone(&self) -> (copy: Self)
        ensures
            copy@ == self@,
    {
        ImageUrl { url: self.url.clone(), detail: clone_opt(&self.detail) }
    }
}

impl ImageUrl {
    /// A reference to the image at `url`, with no level of detail given.
    pub fn url(url: &str) -> (image: Self)
        ensures
            image@ == (ImageUrlView { url: url@, detail: None }),
    {
        ImageUrl { url: String::from_str(url), detail: None }
    }
}

/// One part of the content of a message.
#[derive(Debug, PartialEq, Eq)]
pub enum ApiMessageContent {
    Text { text: ApiTextContent },
    ImageUrl { image_url: ImageUrl },
}

/// What a content part holds, as mathematical values.
pub enum ContentView {
    Text(TextView),
    ImageUrl(ImageUrlView),
}

impl View for ApiMessageContent {
    type V = ContentView;

    open spec fn view(&self) -> ContentView {
        match self {
            ApiMessageContent::Text { text } => ContentView::Text(text@),
            ApiMessageContent::ImageUrl { image_url } => ContentView::ImageUrl(image_url@),
        }
    }
}

/// The views of a list of content parts, in order.
pub open spec fn contents_view(contents: Seq<ApiMessageContent>) -> Seq<ContentView> {
    contents.map_values(|c: ApiMessageContent| c@)
}

impl Clone for ApiMessageContent {
    fn clone(&self) -> (copy: Self)
        ensures
            copy@ == self@,
    {
        match self {
            ApiMessageContent::Text { text } => ApiMessageContent::Text { text: text.clone() },
            ApiMessageContent::ImageUrl { image_url } => ApiMessageContent::ImageUrl {
                image_url: image_url.clone(),
            },
        }
    }
}

/// A copy of a list of content parts, equal to it part by part.
pub fn clone_contents(contents: &Vec<ApiMessageContent>) -> (copy: Vec<ApiMessageContent>)
    ensures
        contents_view(copy@) == contents_view(contents@),
{
    let mut copy: Vec<ApiMessageContent> = Vec::new();
    let mut i: usize = 0;
    while i < contents.len()
        invariant
            i <= contents.len(),
            contents_view(copy@) == contents_view(contents@.subrange(0, i as int)),
        decreases contents.len() - i,
    {
        let c = contents[i].clone();
        proof {
            assert(contents@.subrange(0, i + 1) =~= contents@.subrange(0, i as int).push(
                contents@[i as int],
            ));
            assert(contents_view(copy@.push(c)) =~= contents_view(copy@).push(c@));
            assert(contents_view(contents@.subrange(0, i + 1)) =~= contents_view(
                contents@.subrange(0, i as int),
            ).push(contents@[i as int]@));
        }
        copy.push(c);
        i = i + 1;
    }
    assert(contents@.subrange(0, contents@.len() as int) =~= contents@);
    copy
}

/// A message as the chat-completion endpoint takes it.
#[derive(Debug, Clone, PartialEq, Eq)]
pub struct ChatCompletionMessageDto {
    pub content: Vec<ApiMessageContent>,
    pub role: String,
}

} // verus!
