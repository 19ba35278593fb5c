use assistant_core::api_message::{
    ApiCreateThreadMessageDto, DbCreateThreadMessageDto, DbMessageContent, Metadata,
    MetadataEntry, TextContentDto, ThreadMessageDto,
};
use assistant_core::chat_completion::{
    ApiMessageContent, ApiTextContent, ChatCompletionMessageDto, ImageUrl, MessageAnnotation,
};

fn text(s: &str) -> ApiMessageContent {
    ApiMessageContent::Text { text: ApiTextContent::String(s.to_string()) }
}

fn annotated(s: &str) -> ApiMessageContent {
    ApiMessageContent::Text {
        text: ApiTextContent::Annotated {
            value: s.to_string(),
            annotations: vec![MessageAnnotation {
                type_: "file_citation".to_string(),
                text: "[1]".to_string(),
                start_index: 0,
                end_index: 3,
            }],
        },
    }
}

fn image(url: &str) -> ApiMessageContent {
    ApiMessageContent::ImageUrl {
        image_url: ImageUrl { url: url.to_string(), detail: Some("high".to_string()) },
    }
}

fn message(content: Vec<ApiMessageContent>) -> ThreadMessageDto {
    ThreadMessageDto {
        id: "msg-1".to_string(),
        created_at: 1700000000,
        thread_id: Some("thread-1".to_string()),
        status: "completed".to_string(),
        role: "user".to_string(),
        content,
        assistant_id: None,
        run_id: Some("run-1".to_string()),
        metadata: Some(Metadata {
            entries: vec![MetadataEntry { key: "k".to_string(), value: "v".to_string() }],
        }),
    }
}

#[test]
fn to_string_content_joins_text_parts_in_order() {
    let m = message(vec![text("Hello"), image("http://x/a.png"), annotated(", world"), text("!")]);
    assert_eq!(m.to_string_content(), "Hello, world!");
}

#[test]
fn to_string_content_of_no_content_is_empty() {
    assert_eq!(message(vec![]).to_string_content(), "");
}

#[test]
fn to_string_content_of_images_only_is_empty() {
    let m = message(vec![image("a"), image("b")]);
    assert_eq!(m.to_string_content(), "");
}

#[test]
fn to_string_content_of_one_part_is_that_part() {
    assert_eq!(message(vec![annotated("only")]).to_string_content(), "only");
}

#[test]
fn text_of_appended_content_is_the_two_texts() {
    let a = vec![text("ab"), image("i")];
    let b = vec![annotated("cd"), text("e")];
    let mut both = a.clone();
    both.extend(b.clone());
    let whole = message(both).to_string_content();
    let parts = message(a).to_string_content() + &message(b).to_string_content();
    assert_eq!(whole, parts);
    assert_eq!(whole, "abcde");
}

#[test]
fn image_adds_no_text() {
    let before = message(vec![text("x")]).to_string_content();
    let after = message(vec![text("x"), image("y")]).to_string_content();
    assert_eq!(before, after);
}

#[test]
fn user_message_has_user_role_and_nothing_else() {
    let dto = ApiCreateThreadMessageDto::user();
    assert_eq!(dto.role, "user");
    assert!(dto.content.is_empty());
    assert!(dto.attachments.is_none());
    assert!(dto.metadata.is_none());
}

#[test]
fn default_create_message_is_a_user_message() {
    let dto = ApiCreateThreadMessageDto::default();
    let user = ApiCreateThreadMessageDto::user();
    assert_eq!(dto.role, user.role);
    assert_eq!(dto.content, user.content);
    assert_eq!(dto.attachments, user.attachments);
    assert_eq!(dto.metadata, user.metadata);
}

#[test]
fn stored_message_keeps_content_role_attachments_metadata() {
    let dto = ApiCreateThreadMessageDto {
        content: vec![annotated("hi"), image("http://img")],
        role: "assistant".to_string(),
        attachments: Some("file-1".to_string()),
        metadata: Some(Metadata {
            entries: vec![MetadataEntry { key: "a".to_string(), value: "b".to_string() }],
        }),
    };
    let stored = DbCreateThreadMessageDto::from_api(&dto);
    assert_eq!(
        stored.content,
        vec![
            DbMessageContent::Text {
                text: TextContentDto { value: "hi".to_string(), annotations: vec![] },
            },
            DbMessageContent::ImageUrl {
                image_url: ImageUrl {
                    url: "http://img".to_string(),
                    detail: Some("high".to_string()),
                },
            },
        ]
    );
    assert_eq!(stored.role, "assistant");
    assert_eq!(stored.attachments, Some("file-1".to_string()));
    assert_eq!(stored.metadata, dto.metadata);
    assert_eq!(stored.status, "completed");
    assert_eq!(stored.thread_id, None);
    assert_eq!(stored.run_id, None);
}

#[test]
fn stored_message_of_user_message() {
    let stored = DbCreateThreadMessageDto::from_api(&ApiCreateThreadMessageDto::user());
    assert!(stored.content.is_empty());
    assert_eq!(stored.role, "user");
    assert_eq!(stored.status, "completed");
    assert_eq!(stored.attachments, None);
    assert_eq!(stored.metadata, None);
}

#[test]
fn store_keeps_text() {
    let content = vec![text("a"), image("b"), annotated("c")];
    let dto = ApiCreateThreadMessageDto {
        content: content.clone(),
        role: "user".to_string(),
        attachments: None,
        metadata: None,
    };
    let stored = DbCreateThreadMessageDto::from_api(&dto);
    let stored_text: String = stored
        .content
        .iter()
        .map(|c| match c {
            DbMessageContent::Text { text } => text.value.clone(),
            DbMessageContent::ImageUrl { .. } => String::new(),
        })
        .collect();
    assert_eq!(stored_text, message(content).to_string_content());
}

#[test]
fn stored_text_part_drops_annotations() {
    let c = DbMessageContent::from_api(&annotated("v"));
    assert_eq!(
        c,
        DbMessageContent::Text { text: TextContentDto { value: "v".to_string(), annotations: vec![] } }
    );
    assert_eq!(
        DbMessageContent::text_annotated("w"),
        DbMessageContent::Text { text: TextContentDto { value: "w".to_string(), annotations: vec![] } }
    );
}

#[test]
fn default_stored_message_is_empty() {
    let d = DbCreateThreadMessageDto::default();
    assert_eq!(d.role, "");
    assert_eq!(d.status, "");
    assert!(d.content.is_empty());
    assert_eq!(d.thread_id, None);
    assert_eq!(d.run_id, None);
}

#[test]
fn chat_completion_message_takes_content_and_role() {
    let m = message(vec![text("q"), image("u")]);
    let chat = ChatCompletionMessageDto::from_thread_message(message(vec![text("q"), image("u")]));
    assert_eq!(chat.content, m.content);
    assert_eq!(chat.role, "user");
}

#[test]
fn cloned_message_is_equal() {
    let m = message(vec![annotated("x"), image("y")]);
    assert_eq!(m.clone(), m);
    let md = Metadata {
        entries: vec![
            MetadataEntry { key: "1".to_string(), value: "one".to_string() },
            MetadataEntry { key: "2".to_string(), value: "two".to_string() },
        ],
    };
    assert_eq!(md.clone(), md);
}

#[test]
fn text_content_reads_as_its_value() {
    assert_eq!(ApiTextContent::String("s".to_string()).to_string(), "s");
    assert_eq!(ApiTextContent::annotated("t").to_string(), "t");
    assert_eq!(
        ApiTextContent::annotated("t"),
        ApiTextContent::Annotated { value: "t".to_string(), annotations: vec![] }
    );
    assert_eq!(ImageUrl::url("u"), ImageUrl { url: "u".to_string(), detail: None });
}
