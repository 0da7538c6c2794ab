use message_links::{
    find_first_image, from_message, grants_view, link_targets, parse_id,
    targets_from_captures, to_embed, Attachment, Channel, ChannelKind, Embed, Message, Reply,
    Request, ResolveError, Resolver, ACCENT_COLOUR, READ_MESSAGE_HISTORY, VIEW_CHANNEL,
};

const FULL: u64 = VIEW_CHANNEL | READ_MESSAGE_HISTORY;

fn message(id: u64, content: &str, guild_id: Option<u64>, channel_id: u64) -> Message {
    let link = match guild_id {
        Some(g) => format!("https://discord.com/channels/{g}/{channel_id}/{id}"),
        None => format!("https://discord.com/channels/@me/{channel_id}/{id}"),
    };
    Message {
        id,
        content: content.to_string(),
        author_id: 7,
        author_tag: "alice#0001".to_string(),
        author_avatar: None,
        default_avatar: "https://cdn.example/embed/avatars/1.png".to_string(),
        timestamp: 1_700_000_000_123,
        channel_id,
        guild_id,
        webhook_id: None,
        attachments: Vec::new(),
        link,
    }
}

fn channel(id: u64, kind: ChannelKind, parent_id: Option<u64>, name: &str) -> Channel {
    Channel { id, kind, parent_id, guild_id: 100, name: name.to_string() }
}

fn attachment(filename: &str, content_type: Option<&str>) -> Attachment {
    Attachment {
        filename: filename.to_string(),
        url: format!("https://cdn.example/{filename}"),
        content_type: content_type.map(|c| c.to_string()),
    }
}

/// Feeds the member lookup of a message without a webhook.
fn past_member(r: &mut Resolver) {
    assert_eq!(r.request(), Request::Member { guild_id: 100, user_id: 7 });
    r.feed(Reply::Member { found: true });
}

/// Answers the requests for one visible text-channel link.
fn resolve_visible(r: &mut Resolver, channel_id: u64, target: Message, name: &str) {
    assert_eq!(r.request(), Request::Channel { channel_id });
    r.feed(Reply::Channel { channel: Some(channel(channel_id, ChannelKind::Text, None, name)) });
    assert_eq!(r.request(), Request::Permissions { channel_id });
    r.feed(Reply::Permissions { bits: FULL });
    assert_eq!(r.request(), Request::Message { channel_id, message_id: target.id });
    r.feed(Reply::Message { message: Some(target) });
    assert_eq!(r.request(), Request::ChannelName { channel_id });
    r.feed(Reply::ChannelName { name: Some(name.to_string()) });
}

#[test]
fn same_server_link_becomes_one_embed() {
    let msg = message(1, "check this out https://discord.com/channels/100/200/300", Some(100), 10);
    let mut r = from_message(&msg);
    past_member(&mut r);
    resolve_visible(&mut r, 200, message(300, "hello", Some(100), 200), "general");
    assert_eq!(r.request(), Request::Finished);
    let embeds = r.embeds();
    assert_eq!(embeds.len(), 1);
    let e = &embeds[0];
    assert_eq!(
        e.description,
        "hello\n\n[Jump to original message](https://discord.com/channels/100/200/300)"
    );
    assert_eq!(e.footer, "#general");
    assert_eq!(e.image, None);
    assert!(e.fields.is_empty());
    assert_eq!(e.colour, ACCENT_COLOUR);
    assert_eq!(e.author_name, "alice#0001");
}

#[test]
fn other_server_link_asks_for_nothing() {
    let msg = message(1, "check this out https://discord.com/channels/999/200/300", Some(100), 10);
    let mut r = from_message(&msg);
    past_member(&mut r);
    assert_eq!(r.request(), Request::Finished);
    assert!(r.embeds().is_empty());
}

#[test]
fn thread_denied_on_parent_is_skipped() {
    let msg = message(1, "see https://discord.com/channels/100/200/300", Some(100), 10);
    let mut r = from_message(&msg);
    past_member(&mut r);
    assert_eq!(r.request(), Request::Channel { channel_id: 200 });
    r.feed(Reply::Channel {
        channel: Some(channel(200, ChannelKind::PublicThread, Some(50), "thread")),
    });
    assert_eq!(r.request(), Request::Channel { channel_id: 50 });
    r.feed(Reply::Channel { channel: Some(channel(50, ChannelKind::Text, None, "parent")) });
    assert_eq!(r.request(), Request::Permissions { channel_id: 50 });
    r.feed(Reply::Permissions { bits: VIEW_CHANNEL });
    assert_eq!(r.request(), Request::Finished);
    assert!(r.embeds().is_empty());
}

#[test]
fn direct_message_asks_for_nothing() {
    let msg = message(1, "https://discord.com/channels/100/200/300", None, 10);
    let mut r = from_message(&msg);
    assert_eq!(r.request(), Request::Finished);
    r.feed(Reply::Member { found: true });
    assert_eq!(r.request(), Request::Finished);
    assert!(r.embeds().is_empty());
}

#[test]
fn denied_link_does_not_stop_the_next() {
    let msg = message(
        1,
        "https://discord.com/channels/100/200/300 and https://discord.com/channels/100/201/301",
        Some(100),
        10,
    );
    let mut r = from_message(&msg);
    past_member(&mut r);
    assert_eq!(r.request(), Request::Channel { channel_id: 200 });
    r.feed(Reply::Channel { channel: Some(channel(200, ChannelKind::Text, None, "secret")) });
    r.feed(Reply::Permissions { bits: READ_MESSAGE_HISTORY });
    resolve_visible(&mut r, 201, message(301, "second", Some(100), 201), "open");
    assert_eq!(r.request(), Request::Finished);
    assert_eq!(r.embeds().len(), 1);
    assert!(r.embeds()[0].description.starts_with("second\n\n"));
}

#[test]
fn links_keep_their_order() {
    let msg = message(
        1,
        "https://discord.com/channels/100/201/301 https://ptb.discord.com/channels/999/5/6 https://discord.com/channels/100/200/300",
        Some(100),
        10,
    );
    let mut r = from_message(&msg);
    past_member(&mut r);
    resolve_visible(&mut r, 201, message(301, "first", Some(100), 201), "a");
    resolve_visible(&mut r, 200, message(300, "second", Some(100), 200), "b");
    assert_eq!(r.request(), Request::Finished);
    let e = r.embeds();
    assert_eq!(e.len(), 2);
    assert_eq!(e[0].footer, "#a");
    assert_eq!(e[1].footer, "#b");
}

#[test]
fn other_channel_kinds_are_denied() {
    let msg = message(1, "https://discord.com/channels/100/200/300", Some(100), 10);
    let mut r = from_message(&msg);
    past_member(&mut r);
    r.feed(Reply::Channel { channel: Some(channel(200, ChannelKind::Other, None, "voice")) });
    assert_eq!(r.request(), Request::Finished);
    assert!(r.embeds().is_empty());
}

#[test]
fn webhook_message_uses_proxy_sender() {
    let mut msg = message(5, "https://discord.com/channels/100/200/300", Some(100), 10);
    msg.webhook_id = Some(77);
    let mut r = from_message(&msg);
    assert_eq!(r.request(), Request::ProxySender { message_id: 5 });
    r.feed(Reply::ProxySender { user_id: Some(42) });
    assert_eq!(r.request(), Request::Member { guild_id: 100, user_id: 42 });

    let mut r = from_message(&msg);
    r.feed(Reply::ProxySender { user_id: None });
    assert_eq!(r.request(), Request::Member { guild_id: 100, user_id: 7 });
}

#[test]
fn resolution_is_repeatable() {
    let msg = message(1, "https://discord.com/channels/100/200/300", Some(100), 10);
    let run = || {
        let mut r = from_message(&msg);
        past_member(&mut r);
        resolve_visible(&mut r, 200, message(300, "hello", Some(100), 200), "general");
        r.embeds().clone()
    };
    let a: Vec<Embed> = run();
    let b: Vec<Embed> = run();
    assert_eq!(a.len(), b.len());
    for (x, y) in a.iter().zip(b.iter()) {
        assert_eq!(x.description, y.description);
        assert_eq!(x.footer, y.footer);
        assert_eq!(x.author_icon, y.author_icon);
        assert_eq!(x.timestamp, y.timestamp);
        assert_eq!(x.image, y.image);
        assert_eq!(x.fields.len(), y.fields.len());
    }
}

fn failed_with(r: &Resolver) -> Option<ResolveError> {
    match r.request() {
        Request::Failed { error } => Some(error),
        _ => None,
    }
}

#[test]
fn member_not_found_fails() {
    let msg = message(1, "https://discord.com/channels/100/200/300", Some(100), 10);
    let mut r = from_message(&msg);
    r.feed(Reply::Member { found: false });
    assert_eq!(failed_with(&r), Some(ResolveError::MemberNotFound { user_id: 7 }));
}

#[test]
fn malformed_channel_id_fails() {
    let msg = message(1, "https://discord.com/channels/100/0/300", Some(100), 10);
    let mut r = from_message(&msg);
    past_member(&mut r);
    assert_eq!(failed_with(&r), Some(ResolveError::MalformedChannelId));
}

#[test]
fn malformed_message_id_fails_only_when_visible() {
    let msg = message(1, "https://discord.com/channels/100/200/0", Some(100), 10);
    let mut r = from_message(&msg);
    past_member(&mut r);
    r.feed(Reply::Channel { channel: Some(channel(200, ChannelKind::Text, None, "g")) });
    r.feed(Reply::Permissions { bits: FULL });
    assert_eq!(failed_with(&r), Some(ResolveError::MalformedMessageId));

    let mut r = from_message(&msg);
    past_member(&mut r);
    r.feed(Reply::Channel { channel: Some(channel(200, ChannelKind::Text, None, "g")) });
    r.feed(Reply::Permissions { bits: 0 });
    assert_eq!(r.request(), Request::Finished);
}

#[test]
fn missing_channel_fails() {
    let msg = message(1, "https://discord.com/channels/100/200/300", Some(100), 10);
    let mut r = from_message(&msg);
    past_member(&mut r);
    r.feed(Reply::Channel { channel: None });
    assert_eq!(failed_with(&r), Some(ResolveError::ChannelNotFound { channel_id: 200 }));
}

#[test]
fn missing_parent_fails() {
    let msg = message(1, "https://discord.com/channels/100/200/300", Some(100), 10);
    let mut r = from_message(&msg);
    past_member(&mut r);
    r.feed(Reply::Channel { channel: Some(channel(200, ChannelKind::PublicThread, None, "t")) });
    assert_eq!(failed_with(&r), Some(ResolveError::ThreadWithoutParent { channel_id: 200 }));

    let mut r = from_message(&msg);
    past_member(&mut r);
    r.feed(Reply::Channel { channel: Some(channel(200, ChannelKind::PublicThread, Some(50), "t")) });
    r.feed(Reply::Channel { channel: None });
    assert_eq!(failed_with(&r), Some(ResolveError::ChannelNotFound { channel_id: 50 }));
}

#[test]
fn missing_message_fails() {
    let msg = message(1, "https://discord.com/channels/100/200/300", Some(100), 10);
    let mut r = from_message(&msg);
    past_member(&mut r);
    r.feed(Reply::Channel { channel: Some(channel(200, ChannelKind::News, None, "news")) });
    r.feed(Reply::Permissions { bits: FULL });
    r.feed(Reply::Message { message: None });
    assert_eq!(failed_with(&r), Some(ResolveError::MessageNotFound { message_id: 300 }));
}

#[test]
fn unexpected_reply_fails() {
    let msg = message(1, "https://discord.com/channels/100/200/300", Some(100), 10);
    let mut r = from_message(&msg);
    r.feed(Reply::Permissions { bits: FULL });
    assert_eq!(failed_with(&r), Some(ResolveError::UnexpectedReply));
    r.feed(Reply::Member { found: true });
    assert_eq!(failed_with(&r), Some(ResolveError::UnexpectedReply));
}

#[test]
fn both_permission_bits_needed() {
    assert!(grants_view(FULL));
    assert!(grants_view(u64::MAX));
    assert!(!grants_view(VIEW_CHANNEL));
    assert!(!grants_view(READ_MESSAGE_HISTORY));
    assert!(!grants_view(0));
    assert!(grants_view(1u64 << 10 | 1u64 << 16 | 1));
}

#[test]
fn first_image_in_attachment_order() {
    let mut msg = message(1, "", Some(100), 10);
    msg.attachments = vec![
        attachment("notes.txt", Some("text/plain")),
        attachment("a.png", Some("image/png")),
        attachment("untyped.jpg", None),
        attachment("b.jpeg", Some("image/jpeg")),
    ];
    assert_eq!(find_first_image(&msg), Some("https://cdn.example/a.png".to_string()));
    msg.attachments = vec![attachment("img", Some("imag/png")), attachment("x", None)];
    assert_eq!(find_first_image(&msg), None);
    msg.attachments = Vec::new();
    assert_eq!(find_first_image(&msg), None);
}

#[test]
fn embed_lists_attachments() {
    let mut msg = message(300, "look", Some(100), 200);
    msg.author_avatar = Some("https://cdn.example/avatars/alice.png".to_string());
    msg.attachments = vec![
        attachment("doc.pdf", Some("application/pdf")),
        attachment("pic.png", Some("image/png")),
    ];
    let e = to_embed(&msg, None);
    assert_eq!(e.footer, "#");
    assert_eq!(e.author_icon, "https://cdn.example/avatars/alice.png");
    assert_eq!(e.timestamp, 1_700_000_000_123);
    assert_eq!(e.image, Some("https://cdn.example/pic.png".to_string()));
    assert_eq!(e.fields.len(), 2);
    assert_eq!(e.fields[0].name, "Attachments");
    assert_eq!(e.fields[0].value, "[doc.pdf](https://cdn.example/doc.pdf)");
    assert!(!e.fields[0].inline);
    assert_eq!(e.fields[1].value, "[pic.png](https://cdn.example/pic.png)");
}

#[test]
fn embed_uses_default_avatar() {
    let msg = message(300, "", Some(100), 200);
    let e = to_embed(&msg, Some("general".to_string()));
    assert_eq!(e.author_icon, "https://cdn.example/embed/avatars/1.png");
    assert_eq!(e.footer, "#general");
    assert_eq!(
        e.description,
        "\n\n[Jump to original message](https://discord.com/channels/100/200/300)"
    );
}

#[test]
fn ids_parse_as_nonzero_decimal() {
    assert_eq!(parse_id("300"), Some(300));
    assert_eq!(parse_id("007"), Some(7));
    assert_eq!(parse_id("18446744073709551615"), Some(u64::MAX));
    assert_eq!(parse_id("18446744073709551616"), None);
    assert_eq!(parse_id("0"), None);
    assert_eq!(parse_id("00"), None);
    assert_eq!(parse_id(""), None);
    assert_eq!(parse_id("12a"), None);
    assert_eq!(parse_id("+5"), None);
}

#[test]
fn link_variants_are_found() {
    let text = "a https://canary.discord.com/channels/1/2/3 b ptb.discordapp.com/channels/1/4/5 \
                c http://discord.com/channels/9/6/7 d discord.com/channels/1/8/9";
    let t = link_targets(text, 1);
    assert_eq!(t.len(), 3);
    assert_eq!(t[0].url, "https://canary.discord.com/channels/1/2/3");
    assert_eq!((t[0].channel_id, t[0].message_id), (Some(2), Some(3)));
    assert_eq!(t[1].url, "ptb.discordapp.com/channels/1/4/5");
    assert_eq!((t[1].channel_id, t[1].message_id), (Some(4), Some(5)));
    assert_eq!(t[2].url, "discord.com/channels/1/8/9");
    assert!(link_targets("no links here", 1).is_empty());
}

#[test]
fn captures_filtered_by_server() {
    let s = |x: &str| Some(x.to_string());
    let caps = vec![
        vec![s("u1"), s("100"), s("2"), s("3")],
        vec![s("u2"), s("999"), s("4"), s("5")],
        vec![s("u3"), s("0100"), s("x"), s("6")],
        vec![s("u4"), s("100")],
    ];
    let t = targets_from_captures(&caps, 100);
    assert_eq!(t.len(), 2);
    assert_eq!(t[0].url, "u1");
    assert_eq!(t[1].url, "u3");
    assert_eq!((t[1].channel_id, t[1].message_id), (None, Some(6)));
}
