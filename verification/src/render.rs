//! The renderers: from a description to what is sent, as plain text or as a
//! rich embed, and the choice between the two by what the channel accepts.

use vstd::prelude::*;
use vstd::string::*;
use crate::emote::{resolve_glyph, EmoteTable, EmoteView, Mode};
use crate::message::{
    attachment_view, clone_fields, clone_optional_text, field_views, text_view, Attachment,
    AttachmentView, FieldView, ImageRef, ImageRefView, MessageCreator, MessageField, MessageView,
};
use crate::text::{join_lines, push_part};

verus! {

/// Colour of a rich embed of mode `Default`.
pub const COLOUR_DEFAULT: u32 = 0xFAB1ED;

/// Colour of a rich embed of mode `Loading`.
pub const COLOUR_LOADING: u32 = 0x7289DA;

/// Colour of a rich embed of mode `Success`.
pub const COLOUR_SUCCESS: u32 = 0x11CA80;

/// Colour of a rich embed of mode `Info`.
pub const COLOUR_INFO: u32 = 0xBADA55;

/// Colour of a rich embed of mode `Warning`.
pub const COLOUR_WARNING: u32 = 0xE67E22;

/// Colour of a rich embed of mode `Error`.
pub const COLOUR_ERROR: u32 = 0xE68397;

/// The colour that a mode gives a rich embed where none was set.
pub open spec fn palette(mode: Mode) -> u32 {
    match mode {
        Mode::Default => COLOUR_DEFAULT,
        Mode::Loading => COLOUR_LOADING,
        Mode::Success => COLOUR_SUCCESS,
        Mode::Info => COLOUR_INFO,
        Mode::Warning => COLOUR_WARNING,
        Mode::Error => COLOUR_ERROR,
    }
}

/// A title between square brackets, as both renderers show it.
pub open spec fn bracketed(title: Seq<char>) -> Seq<char> {
    "["@ + title + "]"@
}

/// The body as the plain renderer shows it: bare in mode `Default`, else
/// after the glyph and a space.
pub open spec fn decorated_body(mode: Mode, glyph: Seq<char>, body: Seq<char>) -> Seq<char> {
    if mode == Mode::Default {
        body
    } else {
        glyph + " "@ + body
    }
}

/// The body as the rich renderer shows it: after the glyph and a space, in
/// every mode.
pub open spec fn rich_description(glyph: Seq<char>, body: Seq<char>) -> Seq<char> {
    glyph + " "@ + body
}

/// A field in plain text: its heading in bold between brackets, then its
/// text on the next line.
pub open spec fn field_part(field: FieldView) -> Seq<char> {
    "_[_**"@ + field.title + "**_]_\n"@ + field.content
}

/// The plain-text parts of the fields, in order.
pub open spec fn field_parts(fields: Seq<FieldView>) -> Seq<Seq<char>> {
    Seq::new(fields.len(), |i: int| field_part(fields[i]))
}

/// A footer in plain text, in italics.
pub open spec fn footer_part(footer: Seq<char>) -> Seq<char> {
    "_"@ + footer + "_"@
}

/// The title part of the plain text, if there is a title.
pub open spec fn title_parts(m: MessageView) -> Seq<Seq<char>> {
    match m.title {
        Some(t) => seq![bracketed(t)],
        None => Seq::empty(),
    }
}

/// The body part of the plain text, if there is a body.
pub open spec fn body_parts(m: MessageView, glyph: Seq<char>) -> Seq<Seq<char>> {
    match m.content {
        Some(b) => seq![decorated_body(m.mode, glyph, b)],
        None => Seq::empty(),
    }
}

/// The footer part of the plain text, if there is a footer.
pub open spec fn footer_parts(m: MessageView) -> Seq<Seq<char>> {
    match m.footer_text {
        Some(f) => seq![footer_part(f)],
        None => Seq::empty(),
    }
}

/// The image part of the plain text: the address of an image on the web.
/// Plain text cannot show an attached file, so such a reference gives no part.
pub open spec fn image_parts(m: MessageView) -> Seq<Seq<char>> {
    match m.image {
        Some(ImageRefView::Url(url)) => seq![url],
        _ => Seq::empty(),
    }
}

/// The parts of the plain text in their fixed order: title, body, fields,
/// footer, image. What is absent gives no part.
pub open spec fn plain_parts(m: MessageView, glyph: Seq<char>) -> Seq<Seq<char>> {
    title_parts(m) + body_parts(m, glyph) + field_parts(m.fields) + footer_parts(m)
        + image_parts(m)
}

/// The plain text of a description: its parts joined by line feeds.
pub open spec fn plain_text(m: MessageView, glyph: Seq<char>) -> Seq<char> {
    join_lines(plain_parts(m, glyph))
}

/// What the image slot of an embed holds for an image reference: the address
/// itself, or the attached file's name under the scheme `attachment://`.
pub open spec fn image_slot(image: ImageRefView) -> Seq<char> {
    match image {
        ImageRefView::Url(url) => url,
        ImageRefView::Attachment(name) => "attachment://"@ + name,
    }
}

/// A rich embed.
#[derive(Debug)]
pub struct Embed {
    pub colour: u32,
    pub title: Option<String>,
    pub description: Option<String>,
    pub image: Option<String>,
    pub thumbnail: Option<String>,
    pub timestamp: Option<String>,
    pub fields: Vec<MessageField>,
    pub footer: Option<String>,
}

/// What an [`Embed`] holds, as plain values.
pub struct EmbedView {
    pub colour: u32,
    pub title: Option<Seq<char>>,
    pub description: Option<Seq<char>>,
    pub image: Option<Seq<char>>,
    pub thumbnail: Option<Seq<char>>,
    pub timestamp: Option<Seq<char>>,
    pub fields: Seq<FieldView>,
    pub footer: Option<Seq<char>>,
}

impl View for Embed {
    type V = EmbedView;

    open spec fn view(&self) -> EmbedView {
        EmbedView {
            colour: self.colour,
            title: text_view(self.title),
            description: text_view(self.description),
            image: text_view(self.image),
            thumbnail: text_view(self.thumbnail),
            timestamp: text_view(self.timestamp),
            fields: field_views(self.fields@),
            footer: text_view(self.footer),
        }
    }
}

/// The view of an optional embed.
pub open spec fn embed_view(embed: Option<Embed>) -> Option<EmbedView> {
    match embed {
        Some(e) => Some(e@),
        None => None,
    }
}

/// What goes to the transport for one message: plain text, or an embed, and
/// the attached file if there is one.
#[derive(Debug)]
pub struct Payload {
    pub content: Option<String>,
    pub embed: Option<Embed>,
    pub attachment: Option<Attachment>,
}

/// What a [`Payload`] holds, as plain values.
pub struct PayloadView {
    pub content: Option<Seq<char>>,
    pub embed: Option<EmbedView>,
    pub attachment: Option<AttachmentView>,
}

impl View for Payload {
    type V = PayloadView;

    open spec fn view(&self) -> PayloadView {
        PayloadView {
            content: text_view(self.content),
            embed: embed_view(self.embed),
            attachment: attachment_view(self.attachment),
        }
    }
}

/// The embed of a description, given the glyph of its mode.
pub open spec fn rich_embed(m: MessageView, glyph: Seq<char>) -> EmbedView {
    EmbedView {
        colour: match m.colour {
            Some(c) => c,
            None => palette(m.mode),
        },
        title: match m.title {
            Some(t) => Some(bracketed(t)),
            None => None,
        },
        description: match m.content {
            Some(b) => Some(rich_description(glyph, b)),
            None => None,
        },
        image: match m.image {
            Some(i) => Some(image_slot(i)),
            None => None,
        },
        thumbnail: m.thumbnail,
        timestamp: m.timestamp,
        fields: m.fields,
        footer: m.footer_text,
    }
}

/// The plain rendering: the text, no embed, and the attached file, which
/// the text does not show but the message still carries.
pub open spec fn plain_payload(m: MessageView, emotes: Seq<EmoteView>) -> PayloadView {
    PayloadView {
        content: Some(plain_text(m, resolve_glyph(m.mode, emotes).0)),
        embed: None,
        attachment: m.attachment,
    }
}

/// The rich rendering: no text, the embed, and the attached file.
pub open spec fn rich_payload(m: MessageView, emotes: Seq<EmoteView>) -> PayloadView {
    PayloadView {
        content: None,
        embed: Some(rich_embed(m, resolve_glyph(m.mode, emotes).0)),
        attachment: m.attachment,
    }
}

/// The rendering that the channel can show: rich where it accepts embeds,
/// else plain.
pub open spec fn auto_payload(m: MessageView, embeddable: bool, emotes: Seq<EmoteView>)
    -> PayloadView {
    if embeddable {
        rich_payload(m, emotes)
    } else {
        plain_payload(m, emotes)
    }
}

/// The colour of a mode.
pub fn palette_colour(mode: Mode) -> (colour: u32)
    ensures
        colour == palette(mode),
{
    match mode {
        Mode::Default => COLOUR_DEFAULT,
        Mode::Loading => COLOUR_LOADING,
        Mode::Success => COLOUR_SUCCESS,
        Mode::Info => COLOUR_INFO,
        Mode::Warning => COLOUR_WARNING,
        Mode::Error => COLOUR_ERROR,
    }
}

fn clone_attachment(attachment: &Option<Attachment>) -> (copy: Option<Attachment>)
    ensures
        attachment_view(copy) == attachment_view(*attachment),
{
    match attachment {
        Some(a) => Some(a.clone()),
        None => None,
    }
}

impl MessageCreator {
    /// Renders the description as plain text.
    pub fn to_message(&self, emotes: &EmoteTable) -> (payload: Payload)
        ensures
            payload@ == plain_payload(self@, emotes@),
    {
        let (glyph, _custom) = emotes.resolve(self.mode);
        let mut out: String = String::new();
        let mut started: bool = false;
        let ghost m = self@;
        let ghost mut parts: Seq<Seq<char>> = Seq::empty();

        if let Some(title) = &self.title {
            let mut part: String = String::from_str("[");
            part.append(title.as_str());
            part.append("]");
            push_part(&mut out, started, part.as_str(), Ghost(parts));
            proof {
                parts = parts.push(part@);
            }
            started = true;
        }
        assert(parts =~= title_parts(m));

        if let Some(body) = &self.content {
            let mut part: String = String::new();
            if self.mode != Mode::Default {
                part.append(glyph.as_str());
                part.append(" ");
            }
            part.append(body.as_str());
            assert(part@ =~= decorated_body(m.mode, glyph@, body@));
            push_part(&mut out, started, part.as_str(), Ghost(parts));
            proof {
                parts = parts.push(part@);
            }
            started = true;
        }
        assert(parts =~= title_parts(m) + body_parts(m, glyph@));

        let ghost before: Seq<Seq<char>> = parts;
        let mut i: usize = 0;
        while i < self.fields.len()
            invariant
                i <= self.fields.len(),
                m == self@,
                m.fields.len() == self.fields.len(),
                parts =~= before + field_parts(m.fields).subrange(0, i as int),
                out@ == join_lines(parts),
                started == (parts.len() > 0),
            decreases self.fields.len() - i,
        {
            let field: &MessageField = &self.fields[i];
            assert(field@ == m.fields[i as int]);
            let mut part: String = String::from_str("_[_**");
            part.append(field.title());
            part.append("**_]_\n");
            part.append(field.content());
            assert(part@ =~= field_part(m.fields[i as int]));
            push_part(&mut out, started, part.as_str(), Ghost(parts));
            proof {
                parts = parts.push(part@);
            }
            started = true;
            i = i + 1;
        }
        assert(parts =~= title_parts(m) + body_parts(m, glyph@) + field_parts(m.fields));

        if let Some(footer) = &self.footer_text {
            let mut part: String = String::from_str("_");
            part.append(footer.as_str());
            part.append("_");
            push_part(&mut out, started, part.as_str(), Ghost(parts));
            proof {
                parts = parts.push(part@);
            }
            started = true;
        }
        assert(parts =~= title_parts(m) + body_parts(m, glyph@) + field_parts(m.fields)
            + footer_parts(m));

        if let Some(ImageRef::Url(url)) = &self.image {
            push_part(&mut out, started, url.as_str(), Ghost(parts));
            proof {
                parts = parts.push(url@);
            }
        }
        assert(parts =~= plain_parts(m, glyph@));

        Payload { content: Some(out), embed: None, attachment: clone_attachment(&self.attachment) }
    }

    /// Renders the description as a rich embed.
    pub fn to_embed(&self, emotes: &EmoteTable) -> (payload: Payload)
        ensures
            payload@ == rich_payload(self@, emotes@),
    {
        let (glyph, _custom) = emotes.resolve(self.mode);
        let colour: u32 = match self.colour {
            Some(c) => c,
            None => palette_colour(self.mode),
        };
        let title: Option<String> = match &self.title {
            Some(t) => {
                let mut text: String = String::from_str("[");
                text.append(t.as_str());
                text.append("]");
                Some(text)
            },
            None => None,
        };
        let description: Option<String> = match &self.content {
            Some(body) => {
                let mut text: String = glyph;
                text.append(" ");
                text.append(body.as_str());
                Some(text)
            },
            None => None,
        };
        let image: Option<String> = match &self.image {
            Some(ImageRef::Url(url)) => Some(url.clone()),
            Some(ImageRef::Attachment(name)) => {
                let mut text: String = String::from_str("attachment://");
                text.append(name.as_str());
                Some(text)
            },
            None => None,
        };
        let embed = Embed {
            colour,
            title,
            description,
            image,
            thumbnail: clone_optional_text(&self.thumbnail),
            timestamp: clone_optional_text(&self.timestamp),
            fields: clone_fields(&self.fields),
            footer: clone_optional_text(&self.footer_text),
        };
        Payload { content: None, embed: Some(embed), attachment: clone_attachment(&self.attachment) }
    }

    /// Renders the description as the channel can show it: as a rich embed
    /// where `embeddable` says that the channel accepts embeds, else as plain
    /// text.
    pub fn to_auto(&self, embeddable: bool, emotes: &EmoteTable) -> (payload: Payload)
        ensures
            payload@ == auto_payload(self@, embeddable, emotes@),
    {
        if embeddable {
            self.to_embed(emotes)
        } else {
            self.to_message(emotes)
        }
    }
}

/// Whether `needle` stands somewhere in `text`, unbroken.
pub open spec fn contains_text(text: Seq<char>, needle: Seq<char>) -> bool {
    exists|at: int|
        0 <= at && at + needle.len() <= text.len() && #[trigger] text.subrange(
            at,
            at + needle.len(),
        ) == needle
}

proof fn lemma_contains_within(text: Seq<char>, part: Seq<char>, at: int, needle: Seq<char>)
    requires
        0 <= at,
        at + part.len() <= text.len(),
        text.subrange(at, at + part.len()) == part,
        contains_text(part, needle),
    ensures
        contains_text(text, needle),
{
    let inner = choose|i: int|
        0 <= i && i + needle.len() <= part.len() && #[trigger] part.subrange(i, i + needle.len())
            == needle;
    assert(text.subrange(at + inner, at + inner + needle.len()) =~= part.subrange(
        inner,
        inner + needle.len(),
    ));
}

proof fn lemma_join_contains_part(parts: Seq<Seq<char>>, k: int)
    requires
        0 <= k < parts.len(),
    ensures
        contains_text(join_lines(parts), parts[k]),
    decreases parts.len(),
{
    let joined = join_lines(parts);
    if parts.len() == 1 {
        assert(joined.subrange(0int, 0int + parts[k].len()) =~= parts[k]);
    } else if k == parts.len() - 1 {
        let at: int = join_lines(parts.drop_last()).len() as int + 1;
        assert(joined.subrange(at, at + parts[k].len()) =~= parts[k]);
    } else {
        let shorter = parts.drop_last();
        lemma_join_contains_part(shorter, k);
        let at = choose|i: int|
            0 <= i && i + shorter[k].len() <= join_lines(shorter).len() && #[trigger] join_lines(
                shorter,
            ).subrange(i, i + shorter[k].len()) == shorter[k];
        assert(joined.subrange(at, at + parts[k].len()) =~= join_lines(shorter).subrange(
            at,
            at + shorter[k].len(),
        ));
    }
}

/// A description that has a title and a body and nothing else renders in
/// plain text as the bracketed title, a line feed, and the body, which in
/// every mode but `Default` comes after the glyph and a space.
pub proof fn plain_text_of_title_and_body(
    m: MessageView,
    glyph: Seq<char>,
    title: Seq<char>,
    body: Seq<char>,
)
    requires
        m.title == Some(title),
        m.content == Some(body),
        m.fields.len() == 0,
        m.footer_text is None,
        m.image is None,
    ensures
        m.mode != Mode::Default ==> plain_text(m, glyph) == "["@ + title + "]\n"@ + glyph + " "@
            + body,
        m.mode == Mode::Default ==> plain_text(m, glyph) == "["@ + title + "]\n"@ + body,
{
    reveal_strlit("]\n");
    reveal_strlit("]");
    let parts = plain_parts(m, glyph);
    assert(parts =~= seq![bracketed(title), decorated_body(m.mode, glyph, body)]);
    assert(parts.drop_last() =~= seq![bracketed(title)]);
    assert(join_lines(parts.drop_last()) == bracketed(title));
    assert(join_lines(parts) == bracketed(title) + seq!['\n'] + decorated_body(
        m.mode,
        glyph,
        body,
    ));
    assert("]\n"@ =~= "]"@ + seq!['\n']);
    if m.mode != Mode::Default {
        assert(plain_text(m, glyph) =~= "["@ + title + "]\n"@ + glyph + " "@ + body);
    } else {
        assert(plain_text(m, glyph) =~= "["@ + title + "]\n"@ + body);
    }
}

/// The body of a description survives both renderings: the description of
/// the rich embed ends with it, and the plain text holds it unbroken,
/// whatever stands around it.
pub proof fn body_survives_rendering(m: MessageView, emotes: Seq<EmoteView>, body: Seq<char>)
    requires
        m.content == Some(body),
    ensures
        rich_payload(m, emotes).embed is Some,
        rich_payload(m, emotes).embed->0.description is Some,
        ({
            let description = rich_payload(m, emotes).embed->0.description->0;
            description.len() >= body.len() && description.subrange(
                description.len() - body.len(),
                description.len() as int,
            ) == body
        }),
        plain_payload(m, emotes).content is Some,
        contains_text(plain_payload(m, emotes).content->0, body),
{
    let glyph = resolve_glyph(m.mode, emotes).0;
    let description = rich_description(glyph, body);
    assert(description.subrange(description.len() - body.len(), description.len() as int) =~= body);

    let parts = plain_parts(m, glyph);
    let k = title_parts(m).len() as int;
    let shown = decorated_body(m.mode, glyph, body);
    assert(parts[k] == shown);
    lemma_join_contains_part(parts, k);
    let at = choose|i: int|
        0 <= i && i + shown.len() <= join_lines(parts).len() && #[trigger] join_lines(
            parts,
        ).subrange(i, i + shown.len()) == shown;
    assert(shown.subrange(shown.len() - body.len(), shown.len() - body.len() + body.len()) =~= body);
    assert(contains_text(shown, body));
    lemma_contains_within(join_lines(parts), shown, at, body);
}

/// On a channel that accepts no embeds the automatic choice is the plain
/// rendering; on one that does, it is the rich rendering.
pub proof fn auto_follows_capability(m: MessageView, emotes: Seq<EmoteView>)
    ensures
        auto_payload(m, false, emotes) == plain_payload(m, emotes),
        auto_payload(m, true, emotes) == rich_payload(m, emotes),
{
}

} // verus!
