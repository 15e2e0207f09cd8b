//! The description of an outgoing message and the builder that fills it.

use vstd::prelude::*;
use vstd::string::*;
use crate::emote::Mode;
use crate::text::clone_text;

verus! {

/// A titled block of text below the body of a message.
#[derive(Debug)]
pub struct MessageField {
    pub(crate) title: String,
    pub(crate) content: String,
    pub(crate) inline: bool,
}

/// What a [`MessageField`] holds, as plain values.
pub struct FieldView {
    pub title: Seq<char>,
    pub content: Seq<char>,
    pub inline: bool,
}

impl View for MessageField {
    type V = FieldView;

    open(crate) spec fn view(&self) -> FieldView {
        FieldView { title: self.title@, content: self.content@, inline: self.inline }
    }
}

impl MessageField {
    /// A field with the given heading and text.
    pub fn new(title: &str, content: &str, inline: bool) -> (field: MessageField)
        ensures
            field@ == (FieldView { title: title@, content: content@, inline }),
    {
        MessageField { title: String::from_str(title), content: String::from_str(content), inline }
    }

    /// The heading.
    pub fn title(&self) -> (title: &str)
        ensures
            title@ == self@.title,
    {
        self.title.as_str()
    }

    /// The text under the heading.
    pub fn content(&self) -> (content: &str)
        ensures
            content@ == self@.content,
    {
        self.content.as_str()
    }

    /// Whether the field may share a row with its neighbours.
    pub fn inline(&self) -> (inline: bool)
        ensures
            inline == self@.inline,
    {
        self.inline
    }
}

impl Clone for MessageField {
    fn clone(&self) -> (copy: MessageField)
        ensures
            copy@ == self@,
    {
        MessageField {
            title: self.title.clone(),
            content: self.content.clone(),
            inline: self.inline,
        }
    }
}

/// What the image slot of a message points at.
#[derive(Debug)]
pub enum ImageRef {
    /// An image on the web, by its address.
    Url(String),
    /// The file attached to the same message, by its file name.
    Attachment(String),
}

/// What an [`ImageRef`] holds, as plain values.
pub enum ImageRefView {
    Url(Seq<char>),
    Attachment(Seq<char>),
}

impl View for ImageRef {
    type V = ImageRefView;

    open spec fn view(&self) -> ImageRefView {
        match self {
            ImageRef::Url(url) => ImageRefView::Url(url@),
            ImageRef::Attachment(name) => ImageRefView::Attachment(name@),
        }
    }
}

impl Clone for ImageRef {
    fn clone(&self) -> (copy: ImageRef)
        ensures
            copy@ == self@,
    {
        match self {
            ImageRef::Url(url) => ImageRef::Url(url.clone()),
            ImageRef::Attachment(name) => ImageRef::Attachment(name.clone()),
        }
    }
}

/// A file that travels with a message. The bytes stay with the caller;
/// `handle` is the caller's name for them, so a copy of an attachment shares
/// the file and does not duplicate it.
#[derive(Debug)]
pub struct Attachment {
    pub file_name: String,
    pub handle: u64,
}

/// What an [`Attachment`] holds, as plain values.
pub struct AttachmentView {
    pub file_name: Seq<char>,
    pub handle: u64,
}

impl View for Attachment {
    type V = AttachmentView;

    open spec fn view(&self) -> AttachmentView {
        AttachmentView { file_name: self.file_name@, handle: self.handle }
    }
}

impl Clone for Attachment {
    fn clone(&self) -> (copy: Attachment)
        ensures
            copy@ == self@,
    {
        Attachment { file_name: self.file_name.clone(), handle: self.handle }
    }
}

/// The view of an optional text.
pub open spec fn text_view(text: Option<String>) -> Option<Seq<char>> {
    match text {
        Some(t) => Some(t@),
        None => None,
    }
}

/// The view of an optional image reference.
pub open spec fn image_view(image: Option<ImageRef>) -> Option<ImageRefView> {
    match image {
        Some(i) => Some(i@),
        None => None,
    }
}

/// The view of an optional attachment.
pub open spec fn attachment_view(attachment: Option<Attachment>) -> Option<AttachmentView> {
    match attachment {
        Some(a) => Some(a@),
        None => None,
    }
}

/// The views of a sequence of fields, in order.
pub open spec fn field_views(fields: Seq<MessageField>) -> Seq<FieldView> {
    fields.map_values(|f: MessageField| f@)
}

pub(crate) fn clone_optional_text(text: &Option<String>) -> (copy: Option<String>)
    ensures
        text_view(copy) == text_view(*text),
{
    match text {
        Some(t) => Some(clone_text(t)),
        None => None,
    }
}

pub(crate) fn clone_fields(fields: &Vec<MessageField>) -> (copy: Vec<MessageField>)
    ensures
        field_views(copy@) == field_views(fields@),
{
    let mut copy: Vec<MessageField> = Vec::new();
    let mut i: usize = 0;
    while i < fields.len()
        invariant
            i <= fields.len(),
            copy@.len() == i,
            forall|j: int| 0 <= j < i ==> (#[trigger] copy@[j])@ == fields@[j]@,
        decreases fields.len() - i,
    {
        copy.push(fields[i].clone());
        i = i + 1;
    }
    assert(field_views(copy@) =~= field_views(fields@));
    copy
}

/// The description of one outgoing message: what it says, not how a channel
/// shows it. Every part is optional; a renderer leaves out what is absent.
#[derive(Debug)]
pub struct MessageCreator {
    pub(crate) title: Option<String>,
    pub(crate) mode: Mode,
    pub(crate) content: Option<String>,
    pub(crate) image: Option<ImageRef>,
    pub(crate) attachment: Option<Attachment>,
    pub(crate) thumbnail: Option<String>,
    pub(crate) timestamp: Option<String>,
    pub(crate) fields: Vec<MessageField>,
    pub(crate) footer_text: Option<String>,
    pub(crate) colour: Option<u32>,
}

/// What a [`MessageCreator`] holds, as plain values.
pub struct MessageView {
    pub title: Option<Seq<char>>,
    pub mode: Mode,
    pub content: Option<Seq<char>>,
    pub image: Option<ImageRefView>,
    pub attachment: Option<AttachmentView>,
    pub thumbnail: Option<Seq<char>>,
    pub timestamp: Option<Seq<char>>,
    pub fields: Seq<FieldView>,
    pub footer_text: Option<Seq<char>>,
    pub colour: Option<u32>,
}

/// The description that says nothing: mode `Default` and every part absent.
pub open spec fn empty_message() -> MessageView {
    MessageView {
        title: None,
        mode: Mode::Default,
        content: None,
        image: None,
        attachment: None,
        thumbnail: None,
        timestamp: None,
        fields: Seq::empty(),
        footer_text: None,
        colour: None,
    }
}

impl View for MessageCreator {
    type V = MessageView;

    open(crate) spec fn view(&self) -> MessageView {
        MessageView {
            title: text_view(self.title),
            mode: self.mode,
            content: text_view(self.content),
            image: image_view(self.image),
            attachment: attachment_view(self.attachment),
            thumbnail: text_view(self.thumbnail),
            timestamp: text_view(self.timestamp),
            fields: field_views(self.fields@),
            footer_text: text_view(self.footer_text),
            colour: self.colour,
        }
    }
}

impl Default for MessageCreator {
    fn default() -> (message: MessageCreator)
        ensures
            message@ == empty_message(),
    {
        let message = MessageCreator {
            title: None,
            mode: Mode::Default,
            content: None,
            image: None,
            attachment: None,
            thumbnail: None,
            timestamp: None,
            fields: Vec::new(),
            footer_text: None,
            colour: None,
        };
        assert(message@.fields =~= Seq::<FieldView>::empty());
        message
    }
}

impl Clone for MessageCreator {
    /// A copy with the same parts. The attachment's handle is copied, so the
    /// copy points at the same file.
    fn clone(&self) -> (copy: MessageCreator)
        ensures
            copy@ == self@,
    {
        MessageCreator {
            title: clone_optional_text(&self.title),
            mode: self.mode,
            content: clone_optional_text(&self.content),
            image: match &self.image {
                Some(i) => Some(i.clone()),
                None => None,
            },
            attachment: match &self.attachment {
                Some(a) => Some(a.clone()),
                None => None,
            },
            thumbnail: clone_optional_text(&self.thumbnail),
            timestamp: clone_optional_text(&self.timestamp),
            fields: clone_fields(&self.fields),
            footer_text: clone_optional_text(&self.footer_text),
            colour: self.colour,
        }
    }
}

/// The text of the UTC instant that lies `secs` seconds and `nsecs`
/// nanoseconds after the start of 1970, in the form that chrono's format
/// `%+` gives: date, `T`, time, fraction and offset. `None` where chrono has
/// no date for the instant.
pub uninterp spec fn instant_text(secs: i64, nsecs: u32) -> Option<Seq<char>>;

/// Calls chrono's `DateTime::from_timestamp` and, on the instant it gives,
/// `DateTime::format` with `%+`. The contract only names the text: it
/// depends on nothing but the two numbers, and is absent exactly where
/// `from_timestamp` returns `None`.
#[verifier::external_body]
fn format_instant(secs: i64, nsecs: u32) -> (text: Option<String>)
    ensures
        text_view(text) == instant_text(secs, nsecs),
{
    match chrono::DateTime::from_timestamp(secs, nsecs) {
        Some(instant) => Some(instant.format("%+").to_string()),
        None => None,
    }
}

impl MessageCreator {
    /// A description with nothing set.
    pub fn new() -> (message: MessageCreator)
        ensures
            message@ == empty_message(),
    {
        MessageCreator::default()
    }

    /// Sets the title.
    pub fn title(&mut self, title: &str) -> (same: &mut Self)
        ensures
            same@ == (MessageView { title: Some(title@), ..old(self)@ }),
            *final(self) == *final(same),
    {
        self.title = Some(String::from_str(title));
        self
    }

    /// Sets the body.
    pub fn content(&mut self, content: &str) -> (same: &mut Self)
        ensures
            same@ == (MessageView { content: Some(content@), ..old(self)@ }),
            *final(self) == *final(same),
    {
        self.content = Some(String::from_str(content));
        self
    }

    /// Sets the mode to `Loading`, whatever it was.
    pub fn loading(&mut self) -> (same: &mut Self)
        ensures
            same@ == (MessageView { mode: Mode::Loading, ..old(self)@ }),
            *final(self) == *final(same),
    {
        self.mode = Mode::Loading;
        self
    }

    /// Sets the mode to `Success`, whatever it was.
    pub fn success(&mut self) -> (same: &mut Self)
        ensures
            same@ == (MessageView { mode: Mode::Success, ..old(self)@ }),
            *final(self) == *final(same),
    {
        self.mode = Mode::Success;
        self
    }

    /// Sets the mode to `Info`, whatever it was.
    pub fn info(&mut self) -> (same: &mut Self)
        ensures
            same@ == (MessageView { mode: Mode::Info, ..old(self)@ }),
            *final(self) == *final(same),
    {
        self.mode = Mode::Info;
        self
    }

    /// Sets the mode to `Warning`, whatever it was.
    pub fn warning(&mut self) -> (same: &mut Self)
        ensures
            same@ == (MessageView { mode: Mode::Warning, ..old(self)@ }),
            *final(self) == *final(same),
    {
        self.mode = Mode::Warning;
        self
    }

    /// Sets the mode to `Error`, whatever it was.
    pub fn error(&mut self) -> (same: &mut Self)
        ensures
            same@ == (MessageView { mode: Mode::Error, ..old(self)@ }),
            *final(self) == *final(same),
    {
        self.mode = Mode::Error;
        self
    }

    /// Points the image slot at an address on the web.
    pub fn image(&mut self, url: &str) -> (same: &mut Self)
        ensures
            same@ == (MessageView { image: Some(ImageRefView::Url(url@)), ..old(self)@ }),
            *final(self) == *final(same),
    {
        self.image = Some(ImageRef::Url(String::from_str(url)));
        self
    }

    /// Attaches the file that the caller knows as `handle`, under the given
    /// file name, and points the image slot at that file.
    pub fn attachment(&mut self, file_name: &str, handle: u64) -> (same: &mut Self)
        ensures
            same@ == (MessageView {
                image: Some(ImageRefView::Attachment(file_name@)),
                attachment: Some(AttachmentView { file_name: file_name@, handle }),
                ..old(self)@
            }),
            *final(self) == *final(same),
    {
        self.image = Some(ImageRef::Attachment(String::from_str(file_name)));
        self.attachment = Some(Attachment { file_name: String::from_str(file_name), handle });
        self
    }

    /// Sets the address of the thumbnail.
    pub fn thumbnail(&mut self, url: &str) -> (same: &mut Self)
        ensures
            same@ == (MessageView { thumbnail: Some(url@), ..old(self)@ }),
            *final(self) == *final(same),
    {
        self.thumbnail = Some(String::from_str(url));
        self
    }

    /// Sets the timestamp to the UTC instant `secs` seconds and `nsecs`
    /// nanoseconds after the start of 1970. Where the calendar has no date
    /// for that instant the description stays as it was.
    pub fn timestamp(&mut self, secs: i64, nsecs: u32) -> (same: &mut Self)
        ensures
            same@ == match instant_text(secs, nsecs) {
                Some(text) => (MessageView { timestamp: Some(text), ..old(self)@ }),
                None => old(self)@,
            },
            *final(self) == *final(same),
    {
        match format_instant(secs, nsecs) {
            Some(text) => self.timestamp_text(text),
            None => self,
        }
    }

    /// Sets the timestamp to a text that already is in the platform's form.
    pub fn timestamp_text(&mut self, text: String) -> (same: &mut Self)
        ensures
            same@ == (MessageView { timestamp: Some(text@), ..old(self)@ }),
            *final(self) == *final(same),
    {
        self.timestamp = Some(text);
        self
    }

    /// Adds a field after those that are there.
    pub fn field(&mut self, title: &str, content: &str, inline: bool) -> (same: &mut Self)
        ensures
            same@ == (MessageView {
                fields: old(self)@.fields.push(FieldView { title: title@, content: content@, inline }),
                ..old(self)@
            }),
            *final(self) == *final(same),
    {
        let field = MessageField::new(title, content, inline);
        self.fields.push(field);
        assert(field_views(self.fields@) =~= field_views(old(self).fields@).push(field@));
        self
    }

    /// Sets the footer.
    pub fn footer_text(&mut self, text: &str) -> (same: &mut Self)
        ensures
            same@ == (MessageView { footer_text: Some(text@), ..old(self)@ }),
            *final(self) == *final(same),
    {
        self.footer_text = Some(String::from_str(text));
        self
    }

    /// Sets the colour of the rich form, as `0xRRGGBB`.
    pub fn colour(&mut self, colour: u32) -> (same: &mut Self)
        ensures
            same@ == (MessageView { colour: Some(colour), ..old(self)@ }),
            *final(self) == *final(same),
    {
        self.colour = Some(colour);
        self
    }
}

} // verus!
