use vstd::prelude::*;
use crate::model::{Attachment, Message};

verus! {

/// The accent colour of every preview (the platform's "blitz blue").
pub const ACCENT_COLOUR: u32 = 0x6FC6E2;

/// One `(name, value, inline)` field of a preview.
#[derive(Clone, Debug)]
pub struct EmbedField {
    pub name: String,
    pub value: String,
    pub inline: bool,
}

/// A rich preview of a message.
#[derive(Clone, Debug)]
pub struct Embed {
    pub author_name: String,
    pub author_icon: String,
    pub colour: u32,
    /// Milliseconds since the Unix epoch.
    pub timestamp: i64,
    pub footer: String,
    pub description: String,
    pub image: Option<String>,
    pub fields: Vec<EmbedField>,
}

/// What a preview shows, with its text as character sequences.
pub struct EmbedView {
    pub author_name: Seq<char>,
    pub author_icon: Seq<char>,
    pub colour: u32,
    pub timestamp: i64,
    pub footer: Seq<char>,
    pub description: Seq<char>,
    pub image: Option<Seq<char>>,
    pub fields: Seq<(Seq<char>, Seq<char>, bool)>,
}

pub open spec fn opt_view(o: Option<String>) -> Option<Seq<char>> {
    match o {
        Some(s) => Some(s@),
        None => None,
    }
}

impl View for EmbedField {
    type V = (Seq<char>, Seq<char>, bool);

    open spec fn view(&self) -> (Seq<char>, Seq<char>, bool) {
        (self.name@, self.value@, self.inline)
    }
}

impl View for Embed {
    type V = EmbedView;

    open spec fn view(&self) -> EmbedView {
        EmbedView {
            author_name: self.author_name@,
            author_icon: self.author_icon@,
            colour: self.colour,
            timestamp: self.timestamp,
            footer: self.footer@,
            description: self.description@,
            image: opt_view(self.image),
            fields: self.fields@.map_values(|f: EmbedField| f@),
        }
    }
}

/// A declared content type marks an image when it begins with `image/`.
pub open spec fn is_image_type(ct: Option<String>) -> bool {
    match ct {
        Some(t) => t@.len() >= 6 && t@.subrange(0, 6) == seq!['i', 'm', 'a', 'g', 'e', '/'],
        None => false,
    }
}

/// The URL of the first image-typed attachment, in attachment order.
pub open spec fn first_image(atts: Seq<Attachment>) -> Option<Seq<char>>
    decreases atts.len(),
{
    if atts.len() == 0 {
        None
    } else if is_image_type(atts[0].content_type) {
        Some(atts[0].url@)
    } else {
        first_image(atts.drop_first())
    }
}

/// The field that lists one attachment: a link labelled with its file name.
pub open spec fn attachment_field(a: Attachment) -> (Seq<char>, Seq<char>, bool) {
    ("Attachments"@, "["@ + a.filename@ + "]("@ + a.url@ + ")"@, false)
}

pub open spec fn footer_text(channel_name: Option<Seq<char>>) -> Seq<char> {
    match channel_name {
        Some(n) => "#"@ + n,
        None => "#"@,
    }
}

pub open spec fn description_text(m: Message) -> Seq<char> {
    m.content@ + "\n\n[Jump to original message]("@ + m.link@ + ")"@
}

pub open spec fn avatar_of(m: Message) -> Seq<char> {
    match m.author_avatar {
        Some(a) => a@,
        None => m.default_avatar@,
    }
}

/// The preview of message `m`, posted in a channel called `channel_name`
/// (`None` when the name could not be found).
pub open spec fn embed_of(m: Message, channel_name: Option<Seq<char>>) -> EmbedView {
    EmbedView {
        author_name: m.author_tag@,
        author_icon: avatar_of(m),
        colour: ACCENT_COLOUR,
        timestamp: m.timestamp,
        footer: footer_text(channel_name),
        description: description_text(m),
        image: first_image(m.attachments@),
        fields: m.attachments@.map_values(|a: Attachment| attachment_field(a)),
    }
}

/// The image attachment found first is the one that comes first.
pub proof fn lemma_first_image_is_earliest(atts: Seq<Attachment>, i: int)
    requires
        0 <= i < atts.len(),
        is_image_type(atts[i].content_type),
        forall|j: int| 0 <= j < i ==> !is_image_type(#[trigger] atts[j].content_type),
    ensures
        first_image(atts) == Some(atts[i].url@),
    decreases i,
{
    if i > 0 {
        let rest = atts.drop_first();
        assert(forall|j: int| 0 <= j < i - 1 ==> rest[j] == atts[j + 1]);
        assert(!is_image_type(atts[0].content_type));
        lemma_first_image_is_earliest(rest, i - 1);
    }
}

fn is_image(ct: &Option<String>) -> (r: bool)
    ensures
        r == is_image_type(*ct),
{
    match ct {
        None => false,
        Some(t) => {
            let s = t.as_str();
            if s.unicode_len() < 6 {
                false
            } else {
                let r = s.get_char(0) == 'i' && s.get_char(1) == 'm' && s.get_char(2) == 'a'
                    && s.get_char(3) == 'g' && s.get_char(4) == 'e' && s.get_char(5) == '/';
                proof {
                    let want = seq!['i', 'm', 'a', 'g', 'e', '/'];
                    if r {
                        assert(t@.subrange(0, 6) =~= want);
                    } else {
                        assert(t@.subrange(0, 6) != want) by {
                            if t@.subrange(0, 6) == want {
                                assert(t@.subrange(0, 6)[0] == t@[0]);
                                assert(want[0] == 'i' && want[1] == 'm' && want[2] == 'a');
                                assert(want[3] == 'g' && want[4] == 'e' && want[5] == '/');
                            }
                        }
                    }
                }
                r
            }
        }
    }
}

/// The URL of the first attachment whose declared content type is an image.
pub fn find_first_image(message: &Message) -> (r: Option<String>)
    ensures
        opt_view(r) == first_image(message.attachments@),
{
    let atts = &message.attachments;
    let mut i: usize = 0;
    assert(atts@.subrange(0, atts@.len() as int) =~= atts@);
    while i < atts.len()
        invariant
            atts == &message.attachments,
            i <= atts@.len(),
            first_image(atts@) == first_image(atts@.subrange(i as int, atts@.len() as int)),
        decreases atts@.len() - i,
    {
        proof {
            let rest = atts@.subrange(i as int, atts@.len() as int);
            assert(rest[0] == atts@[i as int]);
            assert(rest.drop_first() =~= atts@.subrange(i + 1, atts@.len() as int));
        }
        if is_image(&atts[i].content_type) {
            let u = atts[i].url.clone();
            assert(first_image(atts@.subrange(i as int, atts@.len() as int)) == Some(u@));
            return Some(u);
        }
        i = i + 1;
    }
    None
}

fn attachment_link(a: &Attachment) -> (r: String)
    ensures
        r@ == attachment_field(*a).1,
{
    let mut v = String::from_str("[");
    v.append(a.filename.as_str());
    v.append("](");
    v.append(a.url.as_str());
    v.append(")");
    v
}

/// Builds the preview of `message`; `channel_name` is the name of the channel
/// it was posted in, `None` where that could not be found.
pub fn to_embed(message: &Message, channel_name: Option<String>) -> (e: Embed)
    ensures
        e@ == embed_of(*message, opt_view(channel_name)),
{
    let author_icon = match &message.author_avatar {
        Some(a) => a.clone(),
        None => message.default_avatar.clone(),
    };
    let mut footer = String::from_str("#");
    match &channel_name {
        Some(n) => footer.append(n.as_str()),
        None => {},
    }
    let mut description = message.content.clone();
    description.append("\n\n[Jump to original message](");
    description.append(message.link.as_str());
    description.append(")");

    let atts = &message.attachments;
    let mut fields: Vec<EmbedField> = Vec::new();
    let mut i: usize = 0;
    while i < atts.len()
        invariant
            atts == &message.attachments,
            i <= atts@.len(),
            fields@.len() == i,
            forall|j: int| 0 <= j < i ==> (#[trigger] fields@[j])@ == attachment_field(atts@[j]),
        decreases atts@.len() - i,
    {
        let value = attachment_link(&atts[i]);
        fields.push(EmbedField { name: String::from_str("Attachments"), value, inline: false });
        i = i + 1;
    }
    let image = find_first_image(message);
    let e = Embed {
        author_name: message.author_tag.clone(),
        author_icon,
        colour: ACCENT_COLOUR,
        timestamp: message.timestamp,
        footer,
        description,
        image,
        fields,
    };
    assert(e@.fields =~= message.attachments@.map_values(|a: Attachment| attachment_field(a)));
    assert(e@.footer =~= footer_text(opt_view(channel_name)));
    e
}

} // verus!
