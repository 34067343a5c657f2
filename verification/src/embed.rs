use vstd::prelude::*;
use vstd::string::StringExecFns;
use crate::text::dec_digits;
use crate::text::u64_to_string;

verus! {

// ------------------------------------------------------------------
// data the renderer works on
// ------------------------------------------------------------------

/// One attachment of the original message, as the renderer sees it.
pub struct Attachment {
    pub url: String,
    pub filename: String,
    pub width: Option<u64>,
    pub height: Option<u64>,
}

/// The fields of the original message that the renderer reads.
pub struct OriginalMessage {
    pub id: u64,
    pub channel_id: u64,
    pub author_name: String,
    pub author_icon_url: String,
    pub content: String,
    pub timestamp: i64,
    pub attachments: Vec<Attachment>,
}

/// The author block of a rendered card.
pub struct EmbedAuthor {
    pub name: String,
    pub icon_url: Option<String>,
}

/// One name/value field of a rendered card.
pub struct EmbedField {
    pub name: String,
    pub value: String,
    pub inline: bool,
}

/// A rendered card: the structured template of a mirror message.
pub struct Embed {
    pub title: Option<String>,
    pub description: Option<String>,
    pub author: Option<EmbedAuthor>,
    pub fields: Vec<EmbedField>,
    pub footer_text: Option<String>,
    pub image_url: Option<String>,
    pub thumbnail_url: Option<String>,
    pub timestamp: Option<i64>,
    pub color: Option<u32>,
}

impl Clone for EmbedField {
    fn clone(&self) -> (res: Self)
        ensures
            res == *self,
    {
        EmbedField { name: self.name.clone(), value: self.value.clone(), inline: self.inline }
    }
}

impl Clone for EmbedAuthor {
    fn clone(&self) -> (res: Self)
        ensures
            res == *self,
    {
        EmbedAuthor { name: self.name.clone(), icon_url: clone_opt_string(&self.icon_url) }
    }
}

fn clone_opt_string(o: &Option<String>) -> (r: Option<String>)
    ensures
        r == *o,
{
    match o {
        Some(s) => Some(s.clone()),
        None => None,
    }
}

fn clone_fields(v: &Vec<EmbedField>) -> (r: Vec<EmbedField>)
    ensures
        r@ == v@,
{
    let mut out: Vec<EmbedField> = Vec::new();
    let mut i: usize = 0;
    while i < v.len()
        invariant
            i <= v.len(),
            out@ == v@.take(i as int),
        decreases v.len() - i,
    {
        out.push(v[i].clone());
        proof {
            assert(v@.take(i + 1 as int) =~= v@.take(i as int).push(v@[i as int]));
        }
        i = i + 1;
    }
    proof {
        assert(v@.take(v@.len() as int) =~= v@);
    }
    out
}

// ------------------------------------------------------------------
// the pieces of text on a card
// ------------------------------------------------------------------

/// The footer text of a card: the star emoji, a space, and the count
/// in decimal.
pub open spec fn spec_footer_text(emoji: Seq<char>, count: nat) -> Seq<char> {
    emoji + " "@ + dec_digits(count)
}

/// Render the footer text.
pub fn footer_text(star_emoji: &str, star_count: u64) -> (r: String)
    ensures
        r@ == spec_footer_text(star_emoji@, star_count as nat),
{
    let mut s = star_emoji.to_owned();
    s.append(" ");
    let num = u64_to_string(star_count);
    s.append(num.as_str());
    s
}

/// The permalink to the original message.
pub open spec fn spec_message_link(guild_id: u64, channel_id: u64, message_id: u64) -> Seq<char> {
    "https://discord.com/channels/"@ + dec_digits(guild_id as nat) + "/"@ + dec_digits(
        channel_id as nat,
    ) + "/"@ + dec_digits(message_id as nat)
}

/// Render the permalink to the original message.
pub fn message_link(guild_id: u64, channel_id: u64, message_id: u64) -> (r: String)
    ensures
        r@ == spec_message_link(guild_id, channel_id, message_id),
{
    let mut s = "https://discord.com/channels/".to_owned();
    let g = u64_to_string(guild_id);
    s.append(g.as_str());
    s.append("/");
    let c = u64_to_string(channel_id);
    s.append(c.as_str());
    s.append("/");
    let m = u64_to_string(message_id);
    s.append(m.as_str());
    s
}

/// The markdown link shown for a non-image attachment.
pub open spec fn spec_attachment_link(filename: Seq<char>, url: Seq<char>) -> Seq<char> {
    "["@ + filename + "]("@ + url + ")"@
}

/// Render the markdown link for a non-image attachment.
pub fn attachment_link(filename: &str, url: &str) -> (r: String)
    ensures
        r@ == spec_attachment_link(filename@, url@),
{
    let mut s = "[".to_owned();
    s.append(filename);
    s.append("](");
    s.append(url);
    s.append(")");
    s
}

// ------------------------------------------------------------------
// rendering
// ------------------------------------------------------------------

/// What a freshly rendered card looks like: the original's text as the
/// description, its author with icon, a link field to the original,
/// the star footer, and the original's timestamp. An attachment is
/// shown as the card's image exactly when it is the first one and
/// carries both width and height (an image); any other first
/// attachment becomes a link field. Only the first attachment is ever
/// considered.
pub open spec fn is_starboard_embed(
    e: Embed,
    msg: OriginalMessage,
    guild_id: u64,
    star_count: nat,
    emoji: Seq<char>,
) -> bool {
    &&& e.title is None
    &&& e.description matches Some(d) && d@ == msg.content@
    &&& e.author matches Some(a) && a.name@ == msg.author_name@ && (a.icon_url matches Some(u)
        && u@ == msg.author_icon_url@)
    &&& e.footer_text matches Some(f) && f@ == spec_footer_text(emoji, star_count)
    &&& e.timestamp == Some(msg.timestamp)
    &&& e.color is None
    &&& e.thumbnail_url is None
    &&& e.fields@.len() >= 1
    &&& e.fields@[0].name@ == "Original"@
    &&& e.fields@[0].value@ == spec_message_link(guild_id, msg.channel_id, msg.id)
    &&& e.fields@[0].inline == false
    &&& if msg.attachments@.len() == 0 {
        &&& e.fields@.len() == 1
        &&& e.image_url is None
    } else {
        let a0 = msg.attachments@[0];
        if a0.width is Some && a0.height is Some {
            &&& e.fields@.len() == 1
            &&& e.image_url matches Some(u) && u@ == a0.url@
        } else {
            &&& e.fields@.len() == 2
            &&& e.fields@[1].name@ == "Attachment"@
            &&& e.fields@[1].value@ == spec_attachment_link(a0.filename@, a0.url@)
            &&& e.fields@[1].inline == false
            &&& e.image_url is None
        }
    }
}

/// Render the card for a message that enters the starboard.
pub fn create_starboard_embed(
    msg: &OriginalMessage,
    guild_id: u64,
    star_count: u64,
    star_emoji: &str,
) -> (e: Embed)
    ensures
        is_starboard_embed(e, *msg, guild_id, star_count as nat, star_emoji@),
{
    let mut fields: Vec<EmbedField> = Vec::new();
    fields.push(
        EmbedField {
            name: "Original".to_owned(),
            value: message_link(guild_id, msg.channel_id, msg.id),
            inline: false,
        },
    );
    let mut image_url: Option<String> = None;
    if msg.attachments.len() > 0 {
        let a = &msg.attachments[0];
        if a.width.is_some() && a.height.is_some() {
            image_url = Some(a.url.clone());
        } else {
            fields.push(
                EmbedField {
                    name: "Attachment".to_owned(),
                    value: attachment_link(a.filename.as_str(), a.url.as_str()),
                    inline: false,
                },
            );
        }
    }
    Embed {
        title: None,
        description: Some(msg.content.clone()),
        author: Some(
            EmbedAuthor {
                name: msg.author_name.clone(),
                icon_url: Some(msg.author_icon_url.clone()),
            },
        ),
        fields,
        footer_text: Some(footer_text(star_emoji, star_count)),
        image_url,
        thumbnail_url: None,
        timestamp: Some(msg.timestamp),
        color: None,
    }
}

/// Re-render a card with a new star count. Everything of the original
/// render is preserved byte for byte — title, description, author,
/// fields, image, thumbnail, timestamp and colour — and only the
/// footer carries the new count.
pub fn update_starboard_embed(existing: &Embed, star_emoji: &str, star_count: u64) -> (e: Embed)
    ensures
        e.title == existing.title,
        e.description == existing.description,
        e.author == existing.author,
        e.fields@ == existing.fields@,
        e.image_url == existing.image_url,
        e.thumbnail_url == existing.thumbnail_url,
        e.timestamp == existing.timestamp,
        e.color == existing.color,
        e.footer_text matches Some(f) && f@ == spec_footer_text(star_emoji@, star_count as nat),
{
    Embed {
        title: clone_opt_string(&existing.title),
        description: clone_opt_string(&existing.description),
        author: match &existing.author {
            Some(a) => Some(a.clone()),
            None => None,
        },
        fields: clone_fields(&existing.fields),
        footer_text: Some(footer_text(star_emoji, star_count)),
        image_url: clone_opt_string(&existing.image_url),
        thumbnail_url: clone_opt_string(&existing.thumbnail_url),
        timestamp: existing.timestamp,
        color: existing.color,
    }
}

} // verus!
