//! Resolution of message permalinks posted in a server into rich previews.
//!
//! The chat platform itself (fetching channels, members, messages and
//! effective permissions) is driven from outside: the library decides, step
//! by step, what is to be fetched and what the answers mean.

pub mod model;
pub mod embed;
pub mod links;
pub mod resolver;

pub use model::{Attachment, Channel, ChannelKind, Message};
pub use embed::{Embed, EmbedField, ACCENT_COLOUR, find_first_image, to_embed};
pub use links::{LinkTarget, LINK_PATTERN, parse_id, link_targets, targets_from_captures};
pub use resolver::{
    ResolveError, Resolver, Request, Reply, Stage, from_message, grants_view, VIEW_CHANNEL,
    READ_MESSAGE_HISTORY,
};
