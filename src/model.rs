use vstd::prelude::*;

verus! {

/// A file attached to a message.
#[derive(Clone, Debug)]
pub struct Attachment {
    pub filename: String,
    pub url: String,
    /// The declared MIME type, when the platform gave one.
    pub content_type: Option<String>,
}

/// The kinds of channel that link resolution tells apart.
#[derive(Clone, Copy, Debug, PartialEq, Eq, Structural)]
pub enum ChannelKind {
    Text,
    News,
    PublicThread,
    Other,
}

/// A server channel, as far as visibility checks need it.
#[derive(Clone, Debug)]
pub struct Channel {
    pub id: u64,
    pub kind: ChannelKind,
    /// For a thread: the channel it hangs off.
    pub parent_id: Option<u64>,
    pub guild_id: u64,
    pub name: String,
}

/// A chat message, read-only.
#[derive(Clone, Debug)]
pub struct Message {
    pub id: u64,
    pub content: String,
    pub author_id: u64,
    /// The author's display tag (`name#discriminator` style).
    pub author_tag: String,
    /// The author's own avatar, if one is set.
    pub author_avatar: Option<String>,
    /// The platform's default avatar for this author.
    pub default_avatar: String,
    /// Send time, in milliseconds since the Unix epoch.
    pub timestamp: i64,
    pub channel_id: u64,
    /// The server the message was posted in; `None` for a direct message.
    pub guild_id: Option<u64>,
    /// Set when the message was sent through a webhook.
    pub webhook_id: Option<u64>,
    pub attachments: Vec<Attachment>,
    /// The message's canonical permalink.
    pub link: String,
}

} // verus!
