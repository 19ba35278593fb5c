//! Thread messages as the assistant API receives and returns them, and as they
//! are handed to the store.
use vstd::prelude::*;

use crate::chat_completion::{
    annotations_view, clone_annotations, clone_contents, clone_opt, contents_view, opt_view,
    text_value, AnnotationView, ApiMessageContent, ChatCompletionMessageDto, ContentView,
    ImageUrl, ImageUrlView, MessageAnnotation, TextView,
};

verus! {

// ---------------------------------------------------------------------------
// Joining strings
// ---------------------------------------------------------------------------

/// The views of a list of strings, in order.
pub open spec fn strings_view(parts: Seq<String>) -> Seq<Seq<char>> {
    parts.map_values(|s: String| s@)
}

/// The parts one after the other, with `sep` between each two neighbours.
pub open spec fn join_with(parts: Seq<Seq<char>>, sep: Seq<char>) -> Seq<char>
    decreases parts.len(),
{
    if parts.len() == 0 {
        Seq::empty()
    } else if parts.len() == 1 {
        parts[0]
    } else {
        join_with(parts.drop_last(), sep) + sep + parts.last()
    }
}

/// The parts one after the other.
pub open spec fn concat_all(parts: Seq<Seq<char>>) -> Seq<char>
    decreases parts.len(),
{
    if parts.len() == 0 {
        Seq::empty()
    } else {
        concat_all(parts.drop_last()) + parts.last()
    }
}

/// Joining with the empty separator is plain concatenation.
pub proof fn lemma_join_empty_sep(parts: Seq<Seq<char>>)
    ensures
        join_with(parts, Seq::empty()) == concat_all(parts),
    decreases parts.len(),
{
    if parts.len() == 0 {
    } else if parts.len() == 1 {
        assert(parts.drop_last() =~= Seq::<Seq<char>>::empty());
        assert(concat_all(parts.drop_last()) == Seq::<char>::empty());
        assert(concat_all(parts) =~= parts[0]);
    } else {
        lemma_join_empty_sep(parts.drop_last());
        assert(join_with(parts, Seq::empty()) =~= concat_all(parts));
    }
}

/// The strings of `parts` one after the other, each as it is, with `sep`
/// between neighbours; no part gives the empty string.
fn join_strings(parts: &Vec<String>, sep: &str) -> (joined: String)
    ensures
        joined@ == join_with(strings_view(parts@), sep@),
{
    let mut joined = String::new();
    let mut i: usize = 0;
    while i < parts.len()
        invariant
            i <= parts.len(),
            joined@ == join_with(strings_view(parts@.subrange(0, i as int)), sep@),
        decreases parts.len() - i,
    {
        let ghost before = strings_view(parts@.subrange(0, i as int));
        let ghost after = strings_view(parts@.subrange(0, i + 1));
        assert(after.drop_last() =~= before);
        assert(after.last() == parts@[i as int]@);
        if i > 0 {
            joined.append(sep);
        } else {
            assert(before =~= Seq::<Seq<char>>::empty());
        }
        joined.append(parts[i].as_str());
        i = i + 1;
    }
    assert(parts@.subrange(0, parts@.len() as int) =~= parts@);
    joined
}

/// Joining keeps every part whole: the length of the result is the lengths
/// of the parts added up, with one separator between each two neighbours.
pub proof fn lemma_join_length(parts: Seq<Seq<char>>, sep: Seq<char>)
    ensures
        join_with(parts, sep).len() == total_len(parts) + (if parts.len() == 0 {
            0
        } else {
            (parts.len() - 1) * sep.len()
        }),
    decreases parts.len(),
{
    if parts.len() > 1 {
        lemma_join_length(parts.drop_last(), sep);
        assert(parts.drop_last().drop_last().len() + 1 == parts.drop_last().len());
        assert((parts.len() - 1) * sep.len() == (parts.len() - 2) * sep.len() + sep.len())
            by (nonlinear_arith);
        assert(join_with(parts, sep).len() == join_with(parts.drop_last(), sep).len() + sep.len()
            + parts.last().len());
    } else if parts.len() == 1 {
        assert(parts.drop_last().len() == 0);
        assert(total_len(parts.drop_last()) == 0);
        assert(parts.last() == parts[0]);
    }
}

/// The lengths of the parts added up.
pub open spec fn total_len(parts: Seq<Seq<char>>) -> int
    decreases parts.len(),
{
    if parts.len() == 0 {
        0
    } else {
        total_len(parts.drop_last()) + parts.last().len()
    }
}

/// Joining puts each part, unchanged, right after the separator that follows
/// the part before it: the result starts with what the first parts give, and
/// ends with the last part as it is.
pub proof fn lemma_join_keeps_parts(parts: Seq<Seq<char>>, sep: Seq<char>)
    requires
        parts.len() > 0,
    ensures
        join_with(parts, sep).subrange(
            join_with(parts, sep).len() - parts.last().len(),
            join_with(parts, sep).len() as int,
        ) == parts.last(),
        parts.len() == 1 ==> join_with(parts, sep) == parts[0],
        parts.len() > 1 ==> join_with(parts, sep).subrange(0, join_with(parts.drop_last(), sep).len() as int)
            == join_with(parts.drop_last(), sep),
{
    let j = join_with(parts, sep);
    if parts.len() > 1 {
        let p = join_with(parts.drop_last(), sep);
        assert(j == p + sep + parts.last());
        assert(j.subrange(j.len() - parts.last().len(), j.len() as int) =~= parts.last());
        assert(j.subrange(0, p.len() as int) =~= p);
    } else {
        assert(j =~= parts[0]);
        assert(j.subrange(0, j.len() as int) =~= j);
    }
}

// ---------------------------------------------------------------------------
// Text of a message
// ---------------------------------------------------------------------------

/// The text of each text part, in order; image parts give nothing.
pub open spec fn text_parts(content: Seq<ContentView>) -> Seq<Seq<char>>
    decreases content.len(),
{
    if content.len() == 0 {
        Seq::empty()
    } else {
        match content.last() {
            ContentView::Text(t) => text_parts(content.drop_last()).push(text_value(t)),
            ContentView::ImageUrl(_) => text_parts(content.drop_last()),
        }
    }
}

/// What one content part contributes to the text of a message.
pub open spec fn part_text(part: ContentView) -> Seq<char> {
    match part {
        ContentView::Text(t) => text_value(t),
        ContentView::ImageUrl(_) => Seq::empty(),
    }
}

/// The text of a message: the texts of its text parts, one after the other.
pub open spec fn content_text(content: Seq<ContentView>) -> Seq<char>
    decreases content.len(),
{
    if content.len() == 0 {
        Seq::empty()
    } else {
        content_text(content.drop_last()) + part_text(content.last())
    }
}

proof fn lemma_text_parts_concat(content: Seq<ContentView>)
    ensures
        concat_all(text_parts(content)) == content_text(content),
    decreases content.len(),
{
    if content.len() > 0 {
        lemma_text_parts_concat(content.drop_last());
        match content.last() {
            ContentView::Text(t) => {
                let p = text_parts(content.drop_last()).push(text_value(t));
                assert(p.drop_last() =~= text_parts(content.drop_last()));
            },
            ContentView::ImageUrl(_) => {
                assert(content_text(content) =~= content_text(content.drop_last()));
            },
        }
    }
}

/// The text of content put after other content is the two texts one after
/// the other.
pub proof fn lemma_content_text_append(a: Seq<ContentView>, b: Seq<ContentView>)
    ensures
        content_text(a + b) == content_text(a) + content_text(b),
    decreases b.len(),
{
    if b.len() == 0 {
        assert(a + b =~= a);
        assert(content_text(a) + content_text(b) =~= content_text(a));
    } else {
        lemma_content_text_append(a, b.drop_last());
        assert((a + b).drop_last() =~= a + b.drop_last());
        assert((a + b).last() == b.last());
        assert(content_text(a + b) =~= content_text(a) + content_text(b));
    }
}

/// Image parts add nothing to the text of a message.
pub proof fn lemma_image_adds_no_text(content: Seq<ContentView>, image: ImageUrlView)
    ensures
        content_text(content.push(ContentView::ImageUrl(image))) == content_text(content),
{
    let c = content.push(ContentView::ImageUrl(image));
    assert(c.drop_last() =~= content);
    assert(content_text(c) =~= content_text(content));
}

// ---------------------------------------------------------------------------
// Metadata
// ---------------------------------------------------------------------------

/// One key and its value.
#[derive(Debug, Clone, PartialEq, Eq)]
pub struct MetadataEntry {
    pub key: String,
    pub value: String,
}

/// Free-form key/value pairs attached to an object.
#[derive(Debug, PartialEq, Eq)]
pub struct Metadata {
    pub entries: Vec<MetadataEntry>,
}

impl View for Metadata {
    type V = Seq<(Seq<char>, Seq<char>)>;

    open spec fn view(&self) -> Seq<(Seq<char>, Seq<char>)> {
        self.entries@.map_values(|e: MetadataEntry| (e.key@, e.value@))
    }
}

/// The view of optional metadata.
pub open spec fn opt_metadata_view(m: Option<Metadata>) -> Option<Seq<(Seq<char>, Seq<char>)>> {
    match m {
        Some(m) => Some(m@),
        None => None,
    }
}

impl Clone for Metadata {
    /// A copy of the metadata, entry by entry.
    fn clone(&self) -> (copy: Metadata)
        ensures
            copy@ == self@,
    {
        let mut entries: Vec<MetadataEntry> = Vec::new();
        let mut i: usize = 0;
        while i < self.entries.len()
            invariant
                i <= self.entries.len(),
                (Metadata { entries })@ == (Metadata {
                    entries: self.entries,
                })@.subrange(0, i as int),
            decreases self.entries.len() - i,
        {
            let e = MetadataEntry {
                key: self.entries[i].key.clone(),
                value: self.entries[i].value.clone(),
            };
            proof {
                assert((Metadata { entries: self.entries })@.subrange(0, i + 1) =~= (Metadata {
                    entries: self.entries,
                })@.subrange(0, i as int).push((e.key@, e.value@)));
                assert(entries@.push(e).map_values(|e: MetadataEntry| (e.key@, e.value@))
                    =~= entries@.map_values(|e: MetadataEntry| (e.key@, e.value@)).push(
                    (e.key@, e.value@),
                ));
            }
            entries.push(e);
            i = i + 1;
        }
        let copy = Metadata { entries };
        assert(self@.subrange(0, self@.len() as int) =~= self@);
        copy
    }
}

/// A copy of optional metadata.
pub fn clone_opt_metadata(m: &Option<Metadata>) -> (copy: Option<Metadata>)
    ensures
        opt_metadata_view(copy) == opt_metadata_view(*m),
{
    match m {
        Some(m) => Some(m.clone()),
        None => None,
    }
}

// ---------------------------------------------------------------------------
// Messages
// ---------------------------------------------------------------------------

/// Text content as a stored message holds it.
#[derive(Debug, Clone, Default, PartialEq, Eq)]
pub struct TextContentDto {
    pub value: String,
    pub annotations: Vec<MessageAnnotation>,
}

/// A text part of a message together with its kind.
#[derive(Debug, Clone, Default, PartialEq, Eq)]
pub struct TextMessageContentDto {
    pub type_: String,
    pub text: TextContentDto,
}

/// A message of a thread.
#[derive(Debug, Default, PartialEq, Eq)]
pub struct ThreadMessageDto {
    pub id: String,
    pub created_at: i64,
    pub thread_id: Option<String>,
    pub status: String,
    pub role: String,
    pub content: Vec<ApiMessageContent>,
    pub assistant_id: Option<String>,
    pub run_id: Option<String>,
    pub metadata: Option<Metadata>,
}

/// What a thread message holds, as mathematical values.
pub struct ThreadMessageView {
    pub id: Seq<char>,
    pub created_at: i64,
    pub thread_id: Option<Seq<char>>,
    pub status: Seq<char>,
    pub role: Seq<char>,
    pub content: Seq<ContentView>,
    pub assistant_id: Option<Seq<char>>,
    pub run_id: Option<Seq<char>>,
    pub metadata: Option<Seq<(Seq<char>, Seq<char>)>>,
}

impl View for ThreadMessageDto {
    type V = ThreadMessageView;

    open spec fn view(&self) -> ThreadMessageView {
        ThreadMessageView {
            id: self.id@,
            created_at: self.created_at,
            thread_id: opt_view(self.thread_id),
            status: self.status@,
            role: self.role@,
            content: contents_view(self.content@),
            assistant_id: opt_view(self.assistant_id),
            run_id: opt_view(self.run_id),
            metadata: opt_metadata_view(self.metadata),
        }
    }
}

impl ThreadMessageDto {
    /// The text of the message: the texts of its text parts joined with
    /// nothing between them; image parts are left out.
    pub fn to_string_content(&self) -> (text: String)
        ensures
            text@ == content_text(self@.content),
    {
        let mut parts: Vec<String> = Vec::new();
        let mut i: usize = 0;
        while i < self.content.len()
            invariant
                i <= self.content.len(),
                strings_view(parts@) == text_parts(
                    contents_view(self.content@).subrange(0, i as int),
                ),
            decreases self.content.len() - i,
        {
            let ghost before = contents_view(self.content@).subrange(0, i as int);
            let ghost after = contents_view(self.content@).subrange(0, i + 1);
            assert(after.drop_last() =~= before);
            match &self.content[i] {
                ApiMessageContent::Text { text } => {
                    let s = text.to_string();
                    assert(strings_view(parts@.push(s)) =~= strings_view(parts@).push(s@));
                    parts.push(s);
                },
                ApiMessageContent::ImageUrl { .. } => {},
            }
            i = i + 1;
        }
        let text = join_strings(&parts, "");
        proof {
            reveal_strlit("");
            assert(""@ =~= Seq::<char>::empty());
            assert(contents_view(self.content@).subrange(0, self.content@.len() as int)
                =~= contents_view(self.content@));
            lemma_join_empty_sep(strings_view(parts@));
            lemma_text_parts_concat(contents_view(self.content@));
        }
        text
    }

}

impl Clone for ThreadMessageDto {
    /// A copy of the message, field by field.
    fn clone(&self) -> (copy: ThreadMessageDto)
        ensures
            copy@ == self@,
    {
        ThreadMessageDto {
            id: self.id.clone(),
            created_at: self.created_at,
            thread_id: clone_opt(&self.thread_id),
            status: self.status.clone(),
            role: self.role.clone(),
            content: clone_contents(&self.content),
            assistant_id: clone_opt(&self.assistant_id),
            run_id: clone_opt(&self.run_id),
            metadata: clone_opt_metadata(&self.metadata),
        }
    }
}

impl ChatCompletionMessageDto {
    /// The content and role of a thread message, as the chat-completion
    /// endpoint takes them.
    pub fn from_thread_message(dto: ThreadMessageDto) -> (message: ChatCompletionMessageDto)
        ensures
            contents_view(message.content@) == dto@.content,
            message.role@ == dto@.role,
    {
        ChatCompletionMessageDto { content: dto.content, role: dto.role }
    }
}

/// A change to a message: its id, and the content and metadata to replace
/// where they are given.
#[derive(Debug, Clone, Default, PartialEq, Eq)]
pub struct ApiUpdateThreadMessageDto {
    pub id: String,
    pub content: Option<Vec<ApiMessageContent>>,
    pub metadata: Option<Option<Metadata>>,
}

/// A message that a client asks to add to a thread.
#[derive(Clone)]
pub struct ApiCreateThreadMessageDto {
    pub content: Vec<ApiMessageContent>,
    pub role: String,
    pub attachments: Option<String>,
    pub metadata: Option<Metadata>,
}

impl ApiCreateThreadMessageDto {
    /// A message from the user with no content, attachments or metadata.
    pub fn user() -> (dto: Self)
        ensures
            dto.content@.len() == 0,
            dto.role@ == "user"@,
            dto.attachments is None,
            dto.metadata is None,
    {
        let default = Self::default();
        ApiCreateThreadMessageDto {
            role: String::from_str("user"),
            content: default.content,
            attachments: default.attachments,
            metadata: default.metadata,
        }
    }
}

impl Default for ApiCreateThreadMessageDto {
    /// A message from the user with no content, attachments or metadata.
    fn default() -> (dto: Self)
        ensures
            dto.content@.len() == 0,
            dto.role@ == "user"@,
            dto.attachments is None,
            dto.metadata is None,
    {
        ApiCreateThreadMessageDto {
            content: Vec::new(),
            role: String::from_str("user"),
            attachments: None,
            metadata: None,
        }
    }
}

// ---------------------------------------------------------------------------
// What is handed to the store
// ---------------------------------------------------------------------------

/// One part of the content of a message as the store keeps it.
#[derive(Debug, Clone, PartialEq, Eq)]
pub enum DbMessageContent {
    Text { text: TextContentDto },
    ImageUrl { image_url: ImageUrl },
}

/// What a stored content part holds, as mathematical values.
pub enum DbContentView {
    Text { value: Seq<char>, annotations: Seq<AnnotationView> },
    ImageUrl(ImageUrlView),
}

impl View for DbMessageContent {
    type V = DbContentView;

    open spec fn view(&self) -> DbContentView {
        match self {
            DbMessageContent::Text { text } => DbContentView::Text {
                value: text.value@,
                annotations: annotations_view(text.annotations@),
            },
            DbMessageContent::ImageUrl { image_url } => DbContentView::ImageUrl(image_url@),
        }
    }
}

/// The stored form of a content part: the text of a text part, with no
/// annotation, or the same image reference.
pub open spec fn stored_content(part: ContentView) -> DbContentView {
    match part {
        ContentView::Text(t) => DbContentView::Text { value: text_value(t), annotations: Seq::empty() },
        ContentView::ImageUrl(i) => DbContentView::ImageUrl(i),
    }
}

impl DbMessageContent {
    /// A text part with the given text and no annotation.
    pub fn text_annotated(text: &str) -> (content: Self)
        ensures
            content@ == (DbContentView::Text { value: text@, annotations: Seq::empty() }),
    {
        let annotations: Vec<MessageAnnotation> = Vec::new();
        assert(annotations_view(annotations@) =~= Seq::empty());
        DbMessageContent::Text { text: TextContentDto { value: String::from_str(text), annotations } }
    }

    /// The stored form of a content part received through the API.
    pub fn from_api(content: &ApiMessageContent) -> (stored: Self)
        ensures
            stored@ == stored_content(content@),
            content@ matches ContentView::ImageUrl(image) ==> stored@ == DbContentView::ImageUrl(
                image,
            ),
            content@ matches ContentView::Text(t) ==> stored@ == (DbContentView::Text {
                value: text_value(t),
                annotations: Seq::empty(),
            }),
    {
        match content {
            ApiMessageContent::Text { text } => {
                let text_content = text.to_string();
                DbMessageContent::text_annotated(text_content.as_str())
            },
            ApiMessageContent::ImageUrl { image_url } => DbMessageContent::ImageUrl {
                image_url: image_url.clone(),
            },
        }
    }
}

/// A message to be added to the store.
#[derive(Debug, Clone, PartialEq, Eq)]
pub struct DbCreateThreadMessageDto {
    pub role: String,
    pub content: Vec<DbMessageContent>,
    pub status: String,
    pub thread_id: Option<String>,
    pub run_id: Option<String>,
    pub attachments: Option<String>,
    pub metadata: Option<Metadata>,
}

/// The views of a list of stored content parts, in order.
pub open spec fn db_contents_view(contents: Seq<DbMessageContent>) -> Seq<DbContentView> {
    contents.map_values(|c: DbMessageContent| c@)
}

impl Default for DbCreateThreadMessageDto {
    /// A message with empty role and status, no content, and nothing else set.
    fn default() -> (dto: Self)
        ensures
            dto.role@.len() == 0,
            dto.content@.len() == 0,
            dto.status@.len() == 0,
            dto.thread_id is None,
            dto.run_id is None,
            dto.attachments is None,
            dto.metadata is None,
    {
        DbCreateThreadMessageDto {
            role: String::new(),
            content: Vec::new(),
            status: String::new(),
            thread_id: None,
            run_id: None,
            attachments: None,
            metadata: None,
        }
    }
}

impl DbCreateThreadMessageDto {
    /// What the store is asked to add for a message a client created: each
    /// content part in its stored form, the same role, attachments and
    /// metadata, status "completed", and no thread or run.
    pub fn from_api(dto: &ApiCreateThreadMessageDto) -> (stored: Self)
        ensures
            db_contents_view(stored.content@) == contents_view(dto.content@).map_values(
                |c: ContentView| stored_content(c),
            ),
            stored.role@ == dto.role@,
            opt_view(stored.attachments) == opt_view(dto.attachments),
            opt_metadata_view(stored.metadata) == opt_metadata_view(dto.metadata),
            stored.status@ == "completed"@,
            stored.thread_id is None,
            stored.run_id is None,
            stored.content@.len() == dto.content@.len(),
            forall|k: int|
                0 <= k < dto.content@.len() ==> ((#[trigger] dto.content@[k])@ matches ContentView::ImageUrl(image)
                    ==> stored.content@[k]@ == DbContentView::ImageUrl(image)),
            forall|k: int|
                0 <= k < dto.content@.len() ==> ((#[trigger] dto.content@[k])@ matches ContentView::Text(t)
                    ==> stored.content@[k]@ == (DbContentView::Text {
                    value: text_value(t),
                    annotations: Seq::empty(),
                })),
    {
        let mut content: Vec<DbMessageContent> = Vec::new();
        let mut i: usize = 0;
        while i < dto.content.len()
            invariant
                i <= dto.content.len(),
                db_contents_view(content@) == contents_view(dto.content@).subrange(
                    0,
                    i as int,
                ).map_values(|c: ContentView| stored_content(c)),
            decreases dto.content.len() - i,
        {
            let c = DbMessageContent::from_api(&dto.content[i]);
            proof {
                assert(contents_view(dto.content@).subrange(0, i + 1) =~= contents_view(
                    dto.content@,
                ).subrange(0, i as int).push(dto.content@[i as int]@));
                assert(db_contents_view(content@.push(c)) =~= db_contents_view(content@).push(c@));
                assert(contents_view(dto.content@).subrange(0, i + 1).map_values(
                    |c: ContentView| stored_content(c),
                ) =~= contents_view(dto.content@).subrange(0, i as int).map_values(
                    |c: ContentView| stored_content(c),
                ).push(stored_content(dto.content@[i as int]@)));
            }
            content.push(c);
            i = i + 1;
        }
        assert(contents_view(dto.content@).subrange(0, dto.content@.len() as int) =~= contents_view(
            dto.content@,
        ));
        proof {
            let mapped = contents_view(dto.content@).map_values(|c: ContentView| stored_content(c));
            assert(db_contents_view(content@).len() == content@.len());
            assert forall|k: int| 0 <= k < dto.content@.len() implies content@[k]@ == stored_content(
                (#[trigger] dto.content@[k])@,
            ) by {
                assert(db_contents_view(content@)[k] == content@[k]@);
                assert(mapped[k] == stored_content(contents_view(dto.content@)[k]));
            }
        }
        let default = DbCreateThreadMessageDto::default();
        DbCreateThreadMessageDto {
            content,
            role: dto.role.clone(),
            attachments: clone_opt(&dto.attachments),
            metadata: clone_opt_metadata(&dto.metadata),
            status: String::from_str("completed"),
            thread_id: default.thread_id,
            run_id: default.run_id,
        }
    }
}

} // verus!

verus! {

/// What one stored content part contributes to the text of a message.
pub open spec fn stored_part_text(part: DbContentView) -> Seq<char> {
    match part {
        DbContentView::Text { value, .. } => value,
        DbContentView::ImageUrl(_) => Seq::empty(),
    }
}

/// The text of a stored message: the values of its text parts, one after the
/// other.
pub open spec fn stored_text(content: Seq<DbContentView>) -> Seq<char>
    decreases content.len(),
{
    if content.len() == 0 {
        Seq::empty()
    } else {
        stored_text(content.drop_last()) + stored_part_text(content.last())
    }
}

/// A content part that is an image is stored as the same image, with the
/// same address and level of detail; a text part is stored as its text with
/// no annotation. Nothing else is made of a part.
pub proof fn lemma_storing_keeps_each_part(content: Seq<ContentView>, k: int)
    requires
        0 <= k < content.len(),
    ensures
        content.map_values(|c: ContentView| stored_content(c)).len() == content.len(),
        content[k] matches ContentView::ImageUrl(image) ==> content.map_values(
            |c: ContentView| stored_content(c),
        )[k] == DbContentView::ImageUrl(image),
        content[k] matches ContentView::Text(t) ==> content.map_values(
            |c: ContentView| stored_content(c),
        )[k] == (DbContentView::Text { value: text_value(t), annotations: Seq::empty() }),
{
}

/// A single text part reads as its text, whole: nothing is trimmed or added.
pub proof fn lemma_single_text_part(t: TextView)
    ensures
        content_text(seq![ContentView::Text(t)]) == text_value(t),
{
    let c = seq![ContentView::Text(t)];
    assert(c.drop_last() =~= Seq::<ContentView>::empty());
    assert(content_text(c.drop_last()) == Seq::<char>::empty());
    assert(c.last() == ContentView::Text(t));
    assert(part_text(c.last()) == text_value(t));
    assert(content_text(c) =~= text_value(t));
}

/// Handing a message to the store keeps its text: the stored parts read as
/// the same text as the parts the client sent.
pub proof fn lemma_store_keeps_text(content: Seq<ContentView>)
    ensures
        stored_text(content.map_values(|c: ContentView| stored_content(c))) == content_text(content),
    decreases content.len(),
{
    if content.len() > 0 {
        lemma_store_keeps_text(content.drop_last());
        let stored = content.map_values(|c: ContentView| stored_content(c));
        assert(stored.drop_last() =~= content.drop_last().map_values(
            |c: ContentView| stored_content(c),
        ));
    }
}

} // verus!
