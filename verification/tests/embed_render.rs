use starboard::embed::{
    attachment_link, create_starboard_embed, footer_text, message_link, update_starboard_embed,
    Attachment, Embed, EmbedAuthor, EmbedField, OriginalMessage,
};

fn plain_message() -> OriginalMessage {
    OriginalMessage {
        id: 3,
        channel_id: 2,
        author_name: "ada".to_string(),
        author_icon_url: "https://cdn.example/ada.png".to_string(),
        content: "hello world".to_string(),
        timestamp: 1_700_000_000,
        attachments: Vec::new(),
    }
}

#[test]
fn footer_shows_emoji_and_count() {
    assert_eq!(footer_text("\u{2B50}", 3), "\u{2B50} 3");
    assert_eq!(footer_text("\u{2B50}", 0), "\u{2B50} 0");
}

#[test]
fn link_points_at_the_original() {
    assert_eq!(
        message_link(1, 2, 3),
        "https://discord.com/channels/1/2/3"
    );
    assert_eq!(
        message_link(u64::MAX, 0, 7),
        "https://discord.com/channels/18446744073709551615/0/7"
    );
}

#[test]
fn attachment_links_are_markdown() {
    assert_eq!(
        attachment_link("notes.txt", "https://cdn.example/notes.txt"),
        "[notes.txt](https://cdn.example/notes.txt)"
    );
}

#[test]
fn fresh_embed_carries_the_original() {
    let e = create_starboard_embed(&plain_message(), 1, 3, "\u{2B50}");
    assert_eq!(e.title, None);
    assert_eq!(e.description.as_deref(), Some("hello world"));
    let author = e.author.as_ref().unwrap();
    assert_eq!(author.name, "ada");
    assert_eq!(author.icon_url.as_deref(), Some("https://cdn.example/ada.png"));
    assert_eq!(e.fields.len(), 1);
    assert_eq!(e.fields[0].name, "Original");
    assert_eq!(e.fields[0].value, "https://discord.com/channels/1/2/3");
    assert!(!e.fields[0].inline);
    assert_eq!(e.footer_text.as_deref(), Some("\u{2B50} 3"));
    assert_eq!(e.timestamp, Some(1_700_000_000));
    assert_eq!(e.image_url, None);
    assert_eq!(e.thumbnail_url, None);
    assert_eq!(e.color, None);
}

#[test]
fn image_attachment_becomes_the_card_image() {
    let mut msg = plain_message();
    msg.attachments.push(Attachment {
        url: "https://cdn.example/cat.png".to_string(),
        filename: "cat.png".to_string(),
        width: Some(640),
        height: Some(480),
    });
    let e = create_starboard_embed(&msg, 1, 2, "\u{2B50}");
    assert_eq!(e.image_url.as_deref(), Some("https://cdn.example/cat.png"));
    assert_eq!(e.fields.len(), 1);
}

#[test]
fn plain_attachment_becomes_a_link_field() {
    let mut msg = plain_message();
    msg.attachments.push(Attachment {
        url: "https://cdn.example/notes.txt".to_string(),
        filename: "notes.txt".to_string(),
        width: None,
        height: None,
    });
    let e = create_starboard_embed(&msg, 1, 2, "\u{2B50}");
    assert_eq!(e.image_url, None);
    assert_eq!(e.fields.len(), 2);
    assert_eq!(e.fields[1].name, "Attachment");
    assert_eq!(
        e.fields[1].value,
        "[notes.txt](https://cdn.example/notes.txt)"
    );
}

#[test]
fn only_the_first_attachment_counts() {
    let mut msg = plain_message();
    msg.attachments.push(Attachment {
        url: "https://cdn.example/a.bin".to_string(),
        filename: "a.bin".to_string(),
        width: None,
        height: None,
    });
    msg.attachments.push(Attachment {
        url: "https://cdn.example/b.png".to_string(),
        filename: "b.png".to_string(),
        width: Some(10),
        height: Some(10),
    });
    let e = create_starboard_embed(&msg, 1, 2, "\u{2B50}");
    assert_eq!(e.image_url, None);
    assert_eq!(e.fields.len(), 2);
    assert_eq!(e.fields[1].value, "[a.bin](https://cdn.example/a.bin)");
}

#[test]
fn half_sized_attachment_is_not_an_image() {
    let mut msg = plain_message();
    msg.attachments.push(Attachment {
        url: "https://cdn.example/c.bin".to_string(),
        filename: "c.bin".to_string(),
        width: Some(10),
        height: None,
    });
    let e = create_starboard_embed(&msg, 1, 2, "\u{2B50}");
    assert_eq!(e.image_url, None);
    assert_eq!(e.fields.len(), 2);
}

#[test]
fn updating_preserves_everything_but_the_footer() {
    let existing = Embed {
        title: Some("a title".to_string()),
        description: Some("a description".to_string()),
        author: Some(EmbedAuthor {
            name: "ada".to_string(),
            icon_url: Some("https://cdn.example/ada.png".to_string()),
        }),
        fields: vec![
            EmbedField {
                name: "Original".to_string(),
                value: "https://discord.com/channels/1/2/3".to_string(),
                inline: false,
            },
            EmbedField {
                name: "Attachment".to_string(),
                value: "[a](https://cdn.example/a)".to_string(),
                inline: true,
            },
        ],
        footer_text: Some("\u{2B50} 4".to_string()),
        image_url: Some("https://cdn.example/cat.png".to_string()),
        thumbnail_url: Some("https://cdn.example/thumb.png".to_string()),
        timestamp: Some(123),
        color: Some(0x5865F2),
    };
    let updated = update_starboard_embed(&existing, "\u{2B50}", 2);
    assert_eq!(updated.title, existing.title);
    assert_eq!(updated.description, existing.description);
    assert_eq!(
        updated.author.as_ref().unwrap().name,
        existing.author.as_ref().unwrap().name
    );
    assert_eq!(
        updated.author.as_ref().unwrap().icon_url,
        existing.author.as_ref().unwrap().icon_url
    );
    assert_eq!(updated.fields.len(), existing.fields.len());
    for (u, e) in updated.fields.iter().zip(existing.fields.iter()) {
        assert_eq!(u.name, e.name);
        assert_eq!(u.value, e.value);
        assert_eq!(u.inline, e.inline);
    }
    assert_eq!(updated.image_url, existing.image_url);
    assert_eq!(updated.thumbnail_url, existing.thumbnail_url);
    assert_eq!(updated.timestamp, existing.timestamp);
    assert_eq!(updated.color, existing.color);
    assert_eq!(updated.footer_text.as_deref(), Some("\u{2B50} 2"));
}
