//! What goes to the clipboard and to the agent.

use cairn_tui::llm::{ImageBlock, UserBlocks};
use cairn_tui::wire::{base64_encode, encode_user_json_cmd};

#[test]
fn clipboard_base64_encode_known_vectors() {
    assert_eq!(base64_encode(b""), "");
    assert_eq!(base64_encode(b"f"), "Zg==");
    assert_eq!(base64_encode(b"fo"), "Zm8=");
    assert_eq!(base64_encode(b"foo"), "Zm9v");
    assert_eq!(base64_encode(b"foobar"), "Zm9vYmFy");
}

#[test]
fn clipboard_encode_user_json_cmd_roundtrips_shape() {
    let cmd = encode_user_json_cmd(
        "see this",
        &[ImageBlock {
            media_type: "image/png".into(),
            data_base64: "Zm9v".into(),
        }],
    );
    assert!(cmd.starts_with("__user_json__:"));
    let json = cmd.trim_start_matches("__user_json__:");
    let v: serde_json::Value = serde_json::from_str(json).unwrap();
    assert_eq!(v["text"], "see this");
    assert_eq!(v["images"][0]["media_type"], "image/png");
    assert_eq!(v["images"][0]["data"], "Zm9v");
}

#[test]
fn mod_display_label_covers_text_and_images() {
    assert_eq!(UserBlocks::text_only("hi").display_label(), "hi");
    assert_eq!(
        UserBlocks {
            text: String::new(),
            images: vec![ImageBlock {
                media_type: "image/png".into(),
                data_base64: "x".into(),
            }],
        }
        .display_label(),
        "[image]"
    );
    assert_eq!(
        UserBlocks {
            text: "look".into(),
            images: vec![
                ImageBlock {
                    media_type: "image/png".into(),
                    data_base64: "a".into(),
                },
                ImageBlock {
                    media_type: "image/jpeg".into(),
                    data_base64: "b".into(),
                },
            ],
        }
        .display_label(),
        "look\n[2 images]"
    );
}
