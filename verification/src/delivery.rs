//! What the delivery of a message decides: which renderer the settings and
//! the channel call for, what a paginated reply's pages look like, and what
//! follows a send.

use vstd::prelude::*;
use vstd::string::*;
use crate::autodelete::{scheduled, AutoDeleteConfig, MessageRef, ScheduledDeletion};
use crate::emote::{EmoteTable, EmoteView, Mode};
use crate::message::{empty_message, MessageCreator, MessageView};
use crate::render::{auto_payload, plain_payload, rich_payload, Payload, PayloadView};
use crate::text::{decimal, decimal_string};

verus! {

/// The process-wide choice of renderer.
#[derive(Clone, Copy, Debug, PartialEq, Eq, Structural)]
pub enum OperatingMode {
    /// Always plain text.
    ForcePlain,
    /// A rich embed where the channel accepts one, else plain text.
    Auto,
    /// Always a rich embed.
    ForceRich,
}

/// The operating mode that a stored code stands for: 0 is plain, 1 is
/// automatic, everything else is rich.
pub open spec fn operating_mode_of_code(code: u64) -> OperatingMode {
    if code == 0 {
        OperatingMode::ForcePlain
    } else if code == 1 {
        OperatingMode::Auto
    } else {
        OperatingMode::ForceRich
    }
}

impl OperatingMode {
    /// The code under which the mode is stored: the least code that reads
    /// back as this mode.
    pub fn code(self) -> (code: u64)
        ensures
            operating_mode_of_code(code) == self,
            code == match self {
                OperatingMode::ForcePlain => 0u64,
                OperatingMode::Auto => 1u64,
                OperatingMode::ForceRich => 2u64,
            },
    {
        match self {
            OperatingMode::ForcePlain => 0,
            OperatingMode::Auto => 1,
            OperatingMode::ForceRich => 2,
        }
    }

    /// The mode for a plain yes or no to rich embeds: yes leaves the choice
    /// to what each channel accepts, no keeps every message plain.
    pub fn from_switch(rich: bool) -> (mode: OperatingMode)
        ensures
            mode == if rich {
                OperatingMode::Auto
            } else {
                OperatingMode::ForcePlain
            },
    {
        if rich {
            OperatingMode::Auto
        } else {
            OperatingMode::ForcePlain
        }
    }

    /// Reads a stored operating-mode code.
    pub fn from_code(code: u64) -> (mode: OperatingMode)
        ensures
            mode == operating_mode_of_code(code),
    {
        if code == 0 {
            OperatingMode::ForcePlain
        } else if code == 1 {
            OperatingMode::Auto
        } else {
            OperatingMode::ForceRich
        }
    }
}

/// The permission bit that lets a member's links unfold into embeds.
pub const EMBED_LINKS: u64 = 0x4000;

/// Whether a set of permission bits holds the bit for embeds.
pub fn permits_embeds(permission_bits: u64) -> (embeddable: bool)
    ensures
        embeddable == (permission_bits & EMBED_LINKS == EMBED_LINKS),
{
    permission_bits & EMBED_LINKS == EMBED_LINKS
}

/// What a look-up of the target channel found.
#[derive(Clone, Copy, Debug, PartialEq, Eq, Structural)]
pub enum ChannelKind {
    /// A channel of a guild, with what the permissions there say on embeds.
    Guild { embed_links: bool },
    /// A direct conversation.
    Direct,
    /// The look-up failed.
    Unknown,
}

/// Whether the channel accepts rich embeds. A guild channel goes by its
/// permissions; a direct conversation always does; a channel that could not
/// be looked up is treated like a direct conversation.
pub open spec fn capability(kind: ChannelKind) -> bool {
    match kind {
        ChannelKind::Guild { embed_links } => embed_links,
        ChannelKind::Direct => true,
        ChannelKind::Unknown => true,
    }
}

impl ChannelKind {
    /// Whether the channel accepts rich embeds.
    pub fn embeddable(self) -> (embeddable: bool)
        ensures
            embeddable == capability(self),
    {
        match self {
            ChannelKind::Guild { embed_links } => embed_links,
            ChannelKind::Direct => true,
            ChannelKind::Unknown => true,
        }
    }
}

/// What is sent for a description under an operating mode, on a channel of
/// the given capability.
pub open spec fn rendered(
    m: MessageView,
    mode: OperatingMode,
    embeddable: bool,
    emotes: Seq<EmoteView>,
) -> PayloadView {
    match mode {
        OperatingMode::ForcePlain => plain_payload(m, emotes),
        OperatingMode::Auto => auto_payload(m, embeddable, emotes),
        OperatingMode::ForceRich => rich_payload(m, emotes),
    }
}

/// Renders a description with the renderer that the operating mode picks.
pub fn render(
    message: &MessageCreator,
    mode: OperatingMode,
    embeddable: bool,
    emotes: &EmoteTable,
) -> (payload: Payload)
    ensures
        payload@ == rendered(message@, mode, embeddable, emotes@),
{
    match mode {
        OperatingMode::ForcePlain => message.to_message(emotes),
        OperatingMode::Auto => message.to_auto(embeddable, emotes),
        OperatingMode::ForceRich => message.to_embed(emotes),
    }
}

/// What a delivery reads from the settings, each time anew.
#[derive(Debug)]
pub struct EngineSettings {
    pub operating_mode: OperatingMode,
    pub emotes: EmoteTable,
    pub autodelete: AutoDeleteConfig,
}

/// The emotes that a delivery may use: those of the settings where the
/// client's own account could be read, else none.
pub fn available_emotes(account_known: bool, emotes: &EmoteTable) -> (usable: EmoteTable)
    ensures
        usable@ == if account_known {
            emotes@
        } else {
            Seq::<EmoteView>::empty()
        },
{
    if account_known {
        emotes.clone()
    } else {
        EmoteTable::new()
    }
}

/// Renders a description for a channel under the current settings.
pub fn compose(message: &MessageCreator, channel: ChannelKind, settings: &EngineSettings) -> (payload:
    Payload)
    ensures
        payload@ == rendered(
            message@,
            settings.operating_mode,
            capability(channel),
            settings.emotes@,
        ),
{
    render(message, settings.operating_mode, channel.embeddable(), &settings.emotes)
}

/// The description of a progress notice: mode `Loading`, the title, and the
/// phrase followed by three dots.
pub open spec fn loading_view(title: Seq<char>, phrase: Seq<char>) -> MessageView {
    MessageView {
        mode: Mode::Loading,
        title: Some(title),
        content: Some(phrase + "..."@),
        ..empty_message()
    }
}

/// Describes a progress notice.
pub fn loading_message(title: &str, phrase: &str) -> (message: MessageCreator)
    ensures
        message@ == loading_view(title@, phrase@),
{
    let mut body: String = String::from_str(phrase);
    body.append("...");
    let mut message = MessageCreator::new();
    message.loading().title(title).content(body.as_str());
    message
}

/// The footer of a page: its number, counted from one, and the page count.
pub open spec fn page_footer_text(page: nat, count: nat) -> Seq<char> {
    "Page "@ + decimal(page) + " of "@ + decimal(count)
}

/// Writes the footer of page `page` of `count`.
pub fn page_footer(page: u64, count: u64) -> (footer: String)
    ensures
        footer@ == page_footer_text(page as nat, count as nat),
{
    let mut footer: String = String::from_str("Page ");
    let number: String = decimal_string(page);
    footer.append(number.as_str());
    footer.append(" of ");
    let total: String = decimal_string(count);
    footer.append(total.as_str());
    footer
}

/// A description as page `index`, counted from zero, of `count`: the same
/// description with the page footer in place of its own.
pub open spec fn as_page(m: MessageView, index: int, count: int) -> MessageView {
    MessageView { footer_text: Some(page_footer_text((index + 1) as nat, count as nat)), ..m }
}

/// The views of a sequence of descriptions, in order.
pub open spec fn message_views(messages: Seq<MessageCreator>) -> Seq<MessageView> {
    messages.map_values(|m: MessageCreator| m@)
}

/// The views of a sequence of payloads, in order.
pub open spec fn payload_views(pages: Seq<Payload>) -> Seq<PayloadView> {
    pages.map_values(|p: Payload| p@)
}

/// The pages of a paginated reply: each description rendered as its page.
pub open spec fn rendered_pages(
    messages: Seq<MessageView>,
    mode: OperatingMode,
    embeddable: bool,
    emotes: Seq<EmoteView>,
) -> Seq<PayloadView> {
    Seq::new(
        messages.len(),
        |i: int| rendered(as_page(messages[i], i, messages.len() as int), mode, embeddable, emotes),
    )
}

/// Renders the pages of a paginated reply, once and in order. Every page
/// gets a footer with its number and the page count.
pub fn render_pages(
    messages: &Vec<MessageCreator>,
    mode: OperatingMode,
    embeddable: bool,
    emotes: &EmoteTable,
) -> (pages: Vec<Payload>)
    ensures
        payload_views(pages@) == rendered_pages(
            message_views(messages@),
            mode,
            embeddable,
            emotes@,
        ),
{
    let count: usize = messages.len();
    let mut pages: Vec<Payload> = Vec::new();
    let mut i: usize = 0;
    while i < count
        invariant
            i <= count,
            count == messages.len(),
            pages@.len() == i,
            forall|j: int|
                0 <= j < i ==> (#[trigger] pages@[j])@ == rendered(
                    as_page(messages@[j]@, j, count as int),
                    mode,
                    embeddable,
                    emotes@,
                ),
        decreases count - i,
    {
        let footer: String = page_footer((i + 1) as u64, count as u64);
        let mut page: MessageCreator = messages[i].clone();
        page.footer_text(footer.as_str());
        pages.push(render(&page, mode, embeddable, emotes));
        i = i + 1;
    }
    assert(payload_views(pages@) =~= rendered_pages(
        message_views(messages@),
        mode,
        embeddable,
        emotes@,
    ));
    pages
}

/// Why a delivery failed: what the transport said.
#[derive(Debug)]
pub struct DeliveryError {
    pub reason: String,
}

/// What a send or an edit came to, with the transport's failure as text.
pub open spec fn delivery_outcome(sent: Result<MessageRef, String>) -> Result<
    MessageRef,
    Seq<char>,
> {
    match sent {
        Ok(message) => Ok(message),
        Err(reason) => Err(reason@),
    }
}

/// The view of a delivery's result.
pub open spec fn delivered_view(result: Result<MessageRef, DeliveryError>) -> Result<
    MessageRef,
    Seq<char>,
> {
    match result {
        Ok(message) => Ok(message),
        Err(e) => Err(e.reason@),
    }
}

/// Turns what the transport returned into the result of the delivery: the
/// sent message, or the transport's failure handed on as it is.
pub fn finish_send(sent: Result<MessageRef, String>) -> (result: Result<MessageRef, DeliveryError>)
    ensures
        delivered_view(result) == delivery_outcome(sent),
{
    match sent {
        Ok(message) => Ok(message),
        Err(reason) => Err(DeliveryError { reason }),
    }
}

/// The result of a delivery whose message the caller does not want: success
/// without a value, or the failure.
pub fn finish_fire_and_forget(delivered: Result<MessageRef, DeliveryError>) -> (result: Result<
    (),
    DeliveryError,
>)
    ensures
        match (delivered, result) {
            (Ok(_), Ok(_)) => true,
            (Err(before), Err(after)) => after.reason@ == before.reason@,
            _ => false,
        },
{
    match delivered {
        Ok(_) => Ok(()),
        Err(e) => Err(e),
    }
}

/// The result of a temporary delivery at `now`: on success the cleanup that
/// the settings call for, if any; a failure is handed on and nothing is
/// scheduled.
pub fn finish_temporary(
    delivered: Result<MessageRef, DeliveryError>,
    config: &AutoDeleteConfig,
    now: u64,
) -> (result: Result<Option<ScheduledDeletion>, DeliveryError>)
    ensures
        match (delivered, result) {
            (Ok(message), Ok(deletion)) => deletion == if config.enabled {
                Some(scheduled(message, now, config.delay))
            } else {
                None
            },
            (Err(before), Err(after)) => after.reason@ == before.reason@,
            _ => false,
        },
{
    match delivered {
        Ok(message) => Ok(config.plan(message, now)),
        Err(e) => Err(e),
    }
}

/// Why the cleanup of a sent message could not be registered.
#[derive(Debug)]
pub struct SchedulingFailure {
    pub reason: String,
}

/// What a temporary delivery comes to once its cleanup was registered, or
/// could not be: the delivery succeeds either way, and a failure to register
/// leaves nothing but a line for the log.
pub fn conclude_temporary(registered: Result<(), SchedulingFailure>) -> (outcome: (
    Result<(), DeliveryError>,
    Option<String>,
))
    ensures
        outcome.0 is Ok,
        match registered {
            Ok(_) => outcome.1 is None,
            Err(failure) => outcome.1 matches Some(line) && line@ == failure.reason@,
        },
{
    match registered {
        Ok(_) => (Ok(()), None),
        Err(failure) => (Ok(()), Some(failure.reason)),
    }
}

} // verus!
