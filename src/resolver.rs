use vstd::prelude::*;
use crate::model::{Channel, ChannelKind, Message};
use crate::embed::{Embed, EmbedView, embed_of, opt_view, to_embed};
use crate::links::{
    LinkTarget, LINK_PATTERN, link_targets, regex_captures, targets_of, server_of,
    lemma_other_server_ignored, lemma_no_target_without_own_server,
};

verus! {

/// The permission bit to see a channel at all.
pub const VIEW_CHANNEL: u64 = 0x400;

/// The permission bit to read a channel's past messages.
pub const READ_MESSAGE_HISTORY: u64 = 0x10000;

/// A member may see a linked message when both bits are granted.
pub open spec fn has_view_access(bits: u64) -> bool {
    bits & VIEW_CHANNEL == VIEW_CHANNEL && bits & READ_MESSAGE_HISTORY == READ_MESSAGE_HISTORY
}

/// Whether a permission set grants both "view channel" and "read message
/// history".
pub fn grants_view(permissions: u64) -> (r: bool)
    ensures
        r == has_view_access(permissions),
{
    let required: u64 = VIEW_CHANNEL | READ_MESSAGE_HISTORY;
    let r = permissions & required == required;
    assert(r == has_view_access(permissions)) by (bit_vector)
        requires
            required == 0x400u64 | 0x10000u64,
            r == (permissions & required == required),
    ;
    r
}

/// Why a resolution was abandoned.
#[derive(Clone, Copy, Debug, PartialEq, Eq, Structural)]
pub enum ResolveError {
    /// The gating author is not a member of the server.
    MemberNotFound { user_id: u64 },
    /// A same-server link names a channel id that cannot be read.
    MalformedChannelId,
    /// A visible link names a message id that cannot be read.
    MalformedMessageId,
    /// The channel is not a channel of the server.
    ChannelNotFound { channel_id: u64 },
    /// A thread has no parent channel.
    ThreadWithoutParent { channel_id: u64 },
    /// The linked message could not be fetched.
    MessageNotFound { message_id: u64 },
    /// A reply did not answer the pending request.
    UnexpectedReply,
}

/// Where a resolution stands.
#[derive(Clone, Debug)]
pub enum Stage {
    /// Waiting for the proxy service's sender of message `message_id`.
    ProxySender { message_id: u64, author_id: u64 },
    /// Waiting for the member that gates every link.
    Member { user_id: u64 },
    /// Waiting for the channel that the current link names.
    Channel { channel_id: u64, message_id: Option<u64> },
    /// Waiting for the parent of the thread that the current link names.
    Parent { parent_id: u64, target: u64, message_id: Option<u64> },
    /// Waiting for the member's permissions in channel `checked`.
    Permissions { checked: u64, target: u64, message_id: Option<u64> },
    /// Waiting for the linked message.
    TargetMessage { channel_id: u64, message_id: u64 },
    /// Waiting for the name of the channel the fetched message is in.
    ChannelName { message: Message },
    Done,
    Failed { error: ResolveError },
}

/// What the resolution needs next from the platform.
#[derive(Clone, Copy, Debug, PartialEq, Eq, Structural)]
pub enum Request {
    ProxySender { message_id: u64 },
    Member { guild_id: u64, user_id: u64 },
    Channel { channel_id: u64 },
    Permissions { channel_id: u64 },
    Message { channel_id: u64, message_id: u64 },
    ChannelName { channel_id: u64 },
    Finished,
    Failed { error: ResolveError },
}

/// The platform's answer to a request.
#[derive(Clone, Debug)]
pub enum Reply {
    /// The sender the proxy service recorded; `None` where the lookup failed.
    ProxySender { user_id: Option<u64> },
    Member { found: bool },
    /// The channel as a server channel; `None` where there is none.
    Channel { channel: Option<Channel> },
    /// The member's effective permission bits in the channel.
    Permissions { bits: u64 },
    Message { message: Option<Message> },
    ChannelName { name: Option<String> },
}

/// The resolution of the links in one message.
pub struct Resolver {
    guild_id: u64,
    targets: Vec<LinkTarget>,
    index: usize,
    stage: Stage,
    embeds: Vec<Embed>,
}

pub struct ResolverView {
    pub guild_id: u64,
    pub targets: Seq<(Seq<char>, Option<u64>, Option<u64>)>,
    pub index: int,
    pub stage: Stage,
    pub embeds: Seq<EmbedView>,
}

impl View for Resolver {
    type V = ResolverView;

    closed spec fn view(&self) -> ResolverView {
        ResolverView {
            guild_id: self.guild_id,
            targets: self.targets@.map_values(|t: LinkTarget| t@),
            index: self.index as int,
            stage: self.stage,
            embeds: self.embeds@.map_values(|e: Embed| e@),
        }
    }
}

/// The stage at which link `i` is taken up (or the end, past the last).
pub open spec fn stage_at(targets: Seq<(Seq<char>, Option<u64>, Option<u64>)>, i: int) -> Stage {
    if i >= targets.len() {
        Stage::Done
    } else {
        match targets[i].1 {
            Some(c) => Stage::Channel { channel_id: c, message_id: targets[i].2 },
            None => Stage::Failed { error: ResolveError::MalformedChannelId },
        }
    }
}

/// Whether the stage works on one of the links.
pub open spec fn on_link(stage: Stage) -> bool {
    match stage {
        Stage::Channel { .. } | Stage::Parent { .. } | Stage::Permissions { .. }
        | Stage::TargetMessage { .. } | Stage::ChannelName { .. } => true,
        _ => false,
    }
}

/// Moves on to the link after the current one.
pub open spec fn skip(s: ResolverView) -> ResolverView {
    ResolverView { index: s.index + 1, stage: stage_at(s.targets, s.index + 1), ..s }
}

pub open spec fn fail(s: ResolverView, error: ResolveError) -> ResolverView {
    ResolverView { stage: Stage::Failed { error }, ..s }
}

pub open spec fn at_stage(s: ResolverView, stage: Stage) -> ResolverView {
    ResolverView { stage, ..s }
}

/// The request that a resolution in state `s` makes.
pub open spec fn request_of(s: ResolverView) -> Request {
    match s.stage {
        Stage::ProxySender { message_id, .. } => Request::ProxySender { message_id },
        Stage::Member { user_id } => Request::Member { guild_id: s.guild_id, user_id },
        Stage::Channel { channel_id, .. } => Request::Channel { channel_id },
        Stage::Parent { parent_id, .. } => Request::Channel { channel_id: parent_id },
        Stage::Permissions { checked, .. } => Request::Permissions { channel_id: checked },
        Stage::TargetMessage { channel_id, message_id } => Request::Message { channel_id, message_id },
        Stage::ChannelName { message } => Request::ChannelName { channel_id: message.channel_id },
        Stage::Done => Request::Finished,
        Stage::Failed { error } => Request::Failed { error },
    }
}

/// The state after state `s` takes `reply`.
pub open spec fn next(s: ResolverView, reply: Reply) -> ResolverView {
    match (s.stage, reply) {
        (Stage::ProxySender { author_id, .. }, Reply::ProxySender { user_id }) => at_stage(
            s,
            Stage::Member { user_id: user_id.unwrap_or(author_id) },
        ),
        (Stage::Member { user_id }, Reply::Member { found }) => {
            if found {
                ResolverView { index: 0, stage: stage_at(s.targets, 0), ..s }
            } else {
                fail(s, ResolveError::MemberNotFound { user_id })
            }
        },
        (Stage::Channel { channel_id, message_id }, Reply::Channel { channel }) => match channel {
            None => fail(s, ResolveError::ChannelNotFound { channel_id }),
            Some(c) => match c.kind {
                ChannelKind::Text | ChannelKind::News => at_stage(
                    s,
                    Stage::Permissions { checked: channel_id, target: channel_id, message_id },
                ),
                ChannelKind::PublicThread => match c.parent_id {
                    Some(p) => at_stage(s, Stage::Parent { parent_id: p, target: channel_id, message_id }),
                    None => fail(s, ResolveError::ThreadWithoutParent { channel_id }),
                },
                ChannelKind::Other => skip(s),
            },
        },
        (Stage::Parent { parent_id, target, message_id }, Reply::Channel { channel }) => match channel {
            None => fail(s, ResolveError::ChannelNotFound { channel_id: parent_id }),
            Some(_) => at_stage(s, Stage::Permissions { checked: parent_id, target, message_id }),
        },
        (Stage::Permissions { target, message_id, .. }, Reply::Permissions { bits }) => {
            if !has_view_access(bits) {
                skip(s)
            } else {
                match message_id {
                    Some(m) => at_stage(s, Stage::TargetMessage { channel_id: target, message_id: m }),
                    None => fail(s, ResolveError::MalformedMessageId),
                }
            }
        },
        (Stage::TargetMessage { message_id, .. }, Reply::Message { message }) => match message {
            Some(m) => at_stage(s, Stage::ChannelName { message: m }),
            None => fail(s, ResolveError::MessageNotFound { message_id }),
        },
        (Stage::ChannelName { message }, Reply::ChannelName { name }) => skip(
            ResolverView { embeds: s.embeds.push(embed_of(message, opt_view(name))), ..s },
        ),
        (Stage::Done, _) => s,
        (Stage::Failed { .. }, _) => s,
        _ => fail(s, ResolveError::UnexpectedReply),
    }
}

/// The state that resolving `msg` starts in, where its links are `targets`.
pub open spec fn start_of(msg: Message, targets: Seq<(Seq<char>, Option<u64>, Option<u64>)>) -> ResolverView {
    ResolverView {
        guild_id: msg.guild_id.unwrap_or(0),
        targets,
        index: 0,
        stage: match msg.guild_id {
            None => Stage::Done,
            Some(_) => match msg.webhook_id {
                Some(_) => Stage::ProxySender { message_id: msg.id, author_id: msg.author_id },
                None => Stage::Member { user_id: msg.author_id },
            },
        },
        embeds: Seq::empty(),
    }
}

/// The links of `msg` that resolution takes up: in a server, those of its
/// permalinks that name that server, in order; none in a direct message.
pub open spec fn links_of(msg: Message) -> Seq<(Seq<char>, Option<u64>, Option<u64>)> {
    match msg.guild_id {
        Some(g) => targets_of(regex_captures(LINK_PATTERN@, msg.content@), g),
        None => Seq::empty(),
    }
}

/// The state that resolving `msg` starts in.
pub open spec fn start_for(msg: Message) -> ResolverView {
    start_of(msg, links_of(msg))
}

/// The state after a sequence of replies.
pub open spec fn run(s: ResolverView, replies: Seq<Reply>) -> ResolverView
    decreases replies.len(),
{
    if replies.len() == 0 {
        s
    } else {
        next(run(s, replies.drop_last()), replies.last())
    }
}

/// A direct message asks the platform for nothing and yields no preview,
/// whatever replies are fed to it.
pub proof fn lemma_direct_message_resolves_to_nothing(msg: Message, replies: Seq<Reply>)
    requires
        msg.guild_id is None,
    ensures
        request_of(run(start_for(msg), replies)) == Request::Finished,
        run(start_for(msg), replies).embeds.len() == 0,
        run(start_for(msg), replies) == start_for(msg),
    decreases replies.len(),
{
    if replies.len() > 0 {
        lemma_direct_message_resolves_to_nothing(msg, replies.drop_last());
    }
}

/// A link to a channel where the member lacks "view channel" or "read
/// message history" adds no preview, and resolution goes on with the next
/// link.
pub proof fn lemma_denied_link_skipped(s: ResolverView, bits: u64)
    requires
        s.stage is Permissions,
        !has_view_access(bits),
    ensures
        next(s, Reply::Permissions { bits }).embeds == s.embeds,
        next(s, Reply::Permissions { bits }).index == s.index + 1,
        next(s, Reply::Permissions { bits }).stage == stage_at(s.targets, s.index + 1),
{
}

/// Lacking either bit is enough to be denied.
pub proof fn lemma_both_bits_needed(bits: u64)
    ensures
        bits & VIEW_CHANNEL == 0 ==> !has_view_access(bits),
        bits & READ_MESSAGE_HISTORY == 0 ==> !has_view_access(bits),
        bits & VIEW_CHANNEL != 0 && bits & READ_MESSAGE_HISTORY != 0 ==> has_view_access(bits),
{
    assert(bits & 0x400u64 == 0 ==> !(bits & 0x400u64 == 0x400u64)) by (bit_vector);
    assert(bits & 0x10000u64 == 0 ==> !(bits & 0x10000u64 == 0x10000u64)) by (bit_vector);
    assert(bits & 0x400u64 != 0 ==> bits & 0x400u64 == 0x400u64) by (bit_vector);
    assert(bits & 0x10000u64 != 0 ==> bits & 0x10000u64 == 0x10000u64) by (bit_vector);
}

/// For a link into a public thread, the permissions asked for are those in
/// the thread's parent channel, never those in the thread itself.
pub proof fn lemma_thread_checked_on_parent(s: ResolverView, thread: Channel, parent: Channel)
    requires
        s.stage is Channel,
        thread.kind == ChannelKind::PublicThread,
        thread.parent_id is Some,
    ensures
        request_of(next(s, Reply::Channel { channel: Some(thread) }))
            == (Request::Channel { channel_id: thread.parent_id->Some_0 }),
        request_of(next(next(s, Reply::Channel { channel: Some(thread) }), Reply::Channel { channel: Some(parent) }))
            == (Request::Permissions { channel_id: thread.parent_id->Some_0 }),
{
}

/// A preview is added only once the linked message and its channel's name
/// are in; the linked message is asked for only right after the member was
/// found to hold both permission bits. So no preview shows a message that the
/// member cannot see.
pub proof fn lemma_preview_only_after_access(s: ResolverView, reply: Reply)
    ensures
        next(s, reply).embeds != s.embeds ==> s.stage is ChannelName,
        next(s, reply).stage is ChannelName && !(s.stage is ChannelName)
            ==> s.stage is TargetMessage,
        next(s, reply).stage is TargetMessage && !(s.stage is TargetMessage) ==> s.stage is Permissions
            && (reply matches Reply::Permissions { bits } && has_view_access(bits)),
{
}

/// Resolution is repeatable: two messages that agree on what resolution
/// reads (id, text, author, server, webhook marker), fed the same replies,
/// end in the same state, and so with the same previews in the same order.
pub proof fn lemma_resolution_repeatable(m1: Message, m2: Message, replies: Seq<Reply>)
    requires
        m1.id == m2.id,
        m1.content@ == m2.content@,
        m1.author_id == m2.author_id,
        m1.guild_id == m2.guild_id,
        m1.webhook_id == m2.webhook_id,
    ensures
        start_for(m1) == start_for(m2),
        run(start_for(m1), replies) == run(start_for(m2), replies),
{
}

/// A link naming another server changes nothing: with it taken out of the
/// matches, the same replies give the same states, so it adds no preview, no
/// error and no request.
pub proof fn lemma_other_server_link_changes_nothing(
    msg: Message,
    without: Message,
    before: Seq<Seq<Option<Seq<char>>>>,
    link: Seq<Option<Seq<char>>>,
    after: Seq<Seq<Option<Seq<char>>>>,
    replies: Seq<Reply>,
)
    requires
        msg.guild_id is Some,
        server_of(link) != msg.guild_id,
        regex_captures(LINK_PATTERN@, msg.content@) == before.push(link) + after,
        regex_captures(LINK_PATTERN@, without.content@) == before + after,
        msg.id == without.id,
        msg.author_id == without.author_id,
        msg.guild_id == without.guild_id,
        msg.webhook_id == without.webhook_id,
    ensures
        start_for(msg) == start_for(without),
        run(start_for(msg), replies) == run(start_for(without), replies),
{
    lemma_other_server_ignored(before, link, after, msg.guild_id->Some_0);
}

/// A server message none of whose links names its server asks for nothing
/// once its member is found, and yields no preview.
pub proof fn lemma_no_own_server_link_asks_nothing(msg: Message)
    requires
        msg.guild_id is Some,
        msg.webhook_id is None,
        forall|i: int| 0 <= i < regex_captures(LINK_PATTERN@, msg.content@).len()
            ==> server_of(#[trigger] regex_captures(LINK_PATTERN@, msg.content@)[i]) != msg.guild_id,
    ensures
        request_of(start_for(msg)) == (Request::Member { guild_id: msg.guild_id->Some_0, user_id: msg.author_id }),
        request_of(next(start_for(msg), Reply::Member { found: true })) == Request::Finished,
        next(start_for(msg), Reply::Member { found: true }).embeds.len() == 0,
{
    lemma_no_target_without_own_server(regex_captures(LINK_PATTERN@, msg.content@), msg.guild_id->Some_0);
}

/// A message whose one link points into a thread: the parent is fetched,
/// permissions are asked in the parent, and where they lack either bit the
/// link is skipped, with no error and no preview.
pub proof fn lemma_thread_link_denied_on_parent(msg: Message, thread: Channel, parent: Channel, bits: u64)
    requires
        msg.guild_id is Some,
        msg.webhook_id is None,
        links_of(msg).len() == 1,
        links_of(msg)[0].1 == Some(thread.id),
        thread.kind == ChannelKind::PublicThread,
        thread.parent_id is Some,
        !has_view_access(bits),
    ensures
        ({
            let s1 = next(start_for(msg), Reply::Member { found: true });
            let s2 = next(s1, Reply::Channel { channel: Some(thread) });
            let s3 = next(s2, Reply::Channel { channel: Some(parent) });
            let s4 = next(s3, Reply::Permissions { bits });
            &&& request_of(s1) == (Request::Channel { channel_id: thread.id })
            &&& request_of(s2) == (Request::Channel { channel_id: thread.parent_id->Some_0 })
            &&& request_of(s3) == (Request::Permissions { channel_id: thread.parent_id->Some_0 })
            &&& request_of(s4) == Request::Finished
            &&& s4.embeds.len() == 0
        }),
{
}

/// Of two links, a first one that the member may not see is skipped without
/// fetching its message, and the second still gives its preview.
pub proof fn lemma_denied_link_then_visible_link(
    msg: Message,
    first: Channel,
    denied: u64,
    second: Channel,
    granted: u64,
    target: Message,
    name: Option<String>,
)
    requires
        msg.guild_id is Some,
        msg.webhook_id is None,
        links_of(msg).len() == 2,
        links_of(msg)[0].1 == Some(first.id),
        links_of(msg)[1].1 == Some(second.id),
        links_of(msg)[1].2 is Some,
        first.kind == ChannelKind::Text,
        second.kind == ChannelKind::Text,
        !has_view_access(denied),
        has_view_access(granted),
    ensures
        ({
            let s1 = next(start_for(msg), Reply::Member { found: true });
            let s2 = next(s1, Reply::Channel { channel: Some(first) });
            let s3 = next(s2, Reply::Permissions { bits: denied });
            let s4 = next(s3, Reply::Channel { channel: Some(second) });
            let s5 = next(s4, Reply::Permissions { bits: granted });
            let s6 = next(s5, Reply::Message { message: Some(target) });
            let s7 = next(s6, Reply::ChannelName { name });
            &&& request_of(s3) == (Request::Channel { channel_id: second.id })
            &&& request_of(s5) == (Request::Message {
                channel_id: second.id,
                message_id: links_of(msg)[1].2->Some_0,
            })
            &&& request_of(s7) == Request::Finished
            &&& s7.embeds == seq![embed_of(target, opt_view(name))]
        }),
{
    assert(Seq::<EmbedView>::empty().push(embed_of(target, opt_view(name)))
        =~= seq![embed_of(target, opt_view(name))]);
}

impl Resolver {
    pub closed spec fn wf(&self) -> bool {
        &&& self.index <= self.targets@.len()
        &&& on_link(self.stage) ==> self.index < self.targets@.len()
    }

    fn stage_for(&self, i: usize) -> (r: Stage)
        requires
            i <= self.targets@.len(),
        ensures
            r == stage_at(self@.targets, i as int),
    {
        if i >= self.targets.len() {
            Stage::Done
        } else {
            match self.targets[i].channel_id {
                Some(c) => Stage::Channel { channel_id: c, message_id: self.targets[i].message_id },
                None => Stage::Failed { error: ResolveError::MalformedChannelId },
            }
        }
    }

    /// What the resolution needs next.
    pub fn request(&self) -> (r: Request)
        ensures
            r == request_of(self@),
    {
        match &self.stage {
            Stage::ProxySender { message_id, .. } => Request::ProxySender { message_id: *message_id },
            Stage::Member { user_id } => Request::Member { guild_id: self.guild_id, user_id: *user_id },
            Stage::Channel { channel_id, .. } => Request::Channel { channel_id: *channel_id },
            Stage::Parent { parent_id, .. } => Request::Channel { channel_id: *parent_id },
            Stage::Permissions { checked, .. } => Request::Permissions { channel_id: *checked },
            Stage::TargetMessage { channel_id, message_id } => Request::Message {
                channel_id: *channel_id,
                message_id: *message_id,
            },
            Stage::ChannelName { message } => Request::ChannelName { channel_id: message.channel_id },
            Stage::Done => Request::Finished,
            Stage::Failed { error } => Request::Failed { error: *error },
        }
    }

    /// The previews built so far, in link order.
    pub fn embeds(&self) -> (r: &Vec<Embed>)
        ensures
            r@.map_values(|e: Embed| e@) == self@.embeds,
    {
        &self.embeds
    }

    /// Takes the answer to the pending request.
    pub fn feed(&mut self, reply: Reply)
        requires
            old(self).wf(),
        ensures
            final(self).wf(),
            final(self)@ == next(old(self)@, reply),
    {
        let ghost s = self@;
        let mut stage = Stage::Done;
        std::mem::swap(&mut self.stage, &mut stage);
        match (stage, reply) {
            (Stage::ProxySender { author_id, .. }, Reply::ProxySender { user_id }) => {
                let u = match user_id {
                    Some(u) => u,
                    None => author_id,
                };
                self.stage = Stage::Member { user_id: u };
            },
            (Stage::Member { user_id }, Reply::Member { found }) => {
                if found {
                    self.index = 0;
                    self.stage = self.stage_for(0);
                } else {
                    self.stage = Stage::Failed { error: ResolveError::MemberNotFound { user_id } };
                }
            },
            (Stage::Channel { channel_id, message_id }, Reply::Channel { channel }) => match channel {
                None => {
                    self.stage = Stage::Failed { error: ResolveError::ChannelNotFound { channel_id } };
                },
                Some(c) => match c.kind {
                    ChannelKind::Text | ChannelKind::News => {
                        self.stage = Stage::Permissions { checked: channel_id, target: channel_id, message_id };
                    },
                    ChannelKind::PublicThread => match c.parent_id {
                        Some(p) => {
                            self.stage = Stage::Parent { parent_id: p, target: channel_id, message_id };
                        },
                        None => {
                            self.stage = Stage::Failed {
                                error: ResolveError::ThreadWithoutParent { channel_id },
                            };
                        },
                    },
                    ChannelKind::Other => self.skip(),
                },
            },
            (Stage::Parent { parent_id, target, message_id }, Reply::Channel { channel }) => match channel {
                None => {
                    self.stage = Stage::Failed {
                        error: ResolveError::ChannelNotFound { channel_id: parent_id },
                    };
                },
                Some(_) => {
                    self.stage = Stage::Permissions { checked: parent_id, target, message_id };
                },
            },
            (Stage::Permissions { target, message_id, .. }, Reply::Permissions { bits }) => {
                if !grants_view(bits) {
                    self.skip();
                } else {
                    match message_id {
                        Some(m) => {
                            self.stage = Stage::TargetMessage { channel_id: target, message_id: m };
                        },
                        None => {
                            self.stage = Stage::Failed { error: ResolveError::MalformedMessageId };
                        },
                    }
                }
            },
            (Stage::TargetMessage { message_id, .. }, Reply::Message { message }) => match message {
                Some(m) => {
                    self.stage = Stage::ChannelName { message: m };
                },
                None => {
                    self.stage = Stage::Failed { error: ResolveError::MessageNotFound { message_id } };
                },
            },
            (Stage::ChannelName { message }, Reply::ChannelName { name }) => {
                let e = to_embed(&message, name);
                self.embeds.push(e);
                assert(self.embeds@.map_values(|e: Embed| e@) =~= s.embeds.push(e@));
                self.skip();
            },
            (Stage::Done, _) => {
                self.stage = Stage::Done;
            },
            (Stage::Failed { error }, _) => {
                self.stage = Stage::Failed { error };
            },
            _ => {
                self.stage = Stage::Failed { error: ResolveError::UnexpectedReply };
            },
        }
    }

    fn skip(&mut self)
        requires
            old(self).index < old(self).targets@.len(),
        ensures
            final(self).wf(),
            final(self)@ == skip(old(self)@),
    {
        let n = self.targets.len();
        assert(self.index < n);
        self.index = self.index + 1;
        self.stage = self.stage_for(self.index);
    }
}

/// Starts resolving the links in `msg`: nothing is resolved in a direct
/// message; elsewhere the links that name the message's own server are taken
/// up in order, gated by the real author's permissions.
pub fn from_message(msg: &Message) -> (r: Resolver)
    ensures
        r.wf(),
        r@ == start_for(*msg),
{
    match msg.guild_id {
        None => {
            let r = Resolver { guild_id: 0, targets: Vec::new(), index: 0, stage: Stage::Done, embeds: Vec::new() };
            assert(r@.embeds =~= Seq::<EmbedView>::empty());
            assert(r@.targets =~= Seq::empty());
            r
        },
        Some(g) => {
            let targets = link_targets(msg.content.as_str(), g);
            let stage = match msg.webhook_id {
                Some(_) => Stage::ProxySender { message_id: msg.id, author_id: msg.author_id },
                None => Stage::Member { user_id: msg.author_id },
            };
            let r = Resolver { guild_id: g, targets, index: 0, stage, embeds: Vec::new() };
            assert(r@.embeds =~= Seq::<EmbedView>::empty());
            r
        },
    }
}

} // verus!
