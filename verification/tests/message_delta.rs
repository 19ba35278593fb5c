use assistant_core::chat_completion::{ApiTextContent, ImageUrl};
use assistant_core::message_delta::{MessageDeltaContent, MessageDeltaDto, ThreadMessageDeltaDto};

#[test]
fn text_delta_is_annotated_text_at_index_zero() {
    assert_eq!(
        MessageDeltaContent::text("Hel"),
        MessageDeltaContent::Text {
            index: 0,
            type_: "text".to_string(),
            text: ApiTextContent::Annotated { value: "Hel".to_string(), annotations: vec![] },
        }
    );
}

#[test]
fn image_delta_refers_to_url_at_index_zero() {
    assert_eq!(
        MessageDeltaContent::image_url("http://img/1.png"),
        MessageDeltaContent::ImageUrl {
            index: 0,
            type_: "image_url".to_string(),
            image_url: ImageUrl { url: "http://img/1.png".to_string(), detail: None },
        }
    );
}

#[test]
fn default_delta_is_empty_text() {
    assert_eq!(MessageDeltaContent::default(), MessageDeltaContent::text(""));
}

#[test]
fn default_message_deltas_are_empty() {
    let d = ThreadMessageDeltaDto::default();
    assert_eq!(d.id, "");
    assert_eq!(d.delta.role, "");
    assert!(d.delta.content.is_empty());
    let m = MessageDeltaDto::default();
    assert_eq!(m.role, "");
    assert!(m.content.is_empty());
}
