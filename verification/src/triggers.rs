//! The automations that watch ordinary messages: gift codes, wallet drops,
//! giveaways, and the change of the avatar.

use rand::Rng;
use vstd::prelude::*;
use vstd::string::*;
use crate::message::text_view;
use crate::text::{begins_with, starts_with, text_equal};

verus! {

/// The pattern of a gift link: one of the three gift addresses, spaces, and
/// a code of 16 to 24 letters and digits, which is the second group.
pub const NITRO_PATTERN: &'static str =
    "(discord.com/gifts/|discordapp.com/gifts/|discord.gift/)[ ]*([a-zA-Z0-9]{16,24})";

/// The pattern of the command that picks a dropped wallet up, as the drop
/// notice quotes it: between backticks, ending in `grab`.
pub const GRAB_PATTERN: &'static str = "`.*grab`";

/// The account that announces wallet drops.
pub const WALLET_BOT: u64 = 346353957029019648;

/// The account that announces giveaways.
pub const GIVEAWAY_BOT: u64 = 294882584201003009;

/// What a group of the first match of a pattern in a text holds, as the
/// regex crate finds it; group 0 is the whole match. `None` where the
/// pattern does not compile, nothing matches, or the group took no part.
pub uninterp spec fn regex_capture(pattern: Seq<char>, group: usize, text: Seq<char>) -> Option<
    Seq<char>,
>;

/// Compiles the pattern with `Regex::new`, searches the text with
/// `Regex::captures` and copies the group out. The contract only names the
/// result, which depends on the three arguments alone.
#[verifier::external_body]
fn capture(pattern: &str, group: usize, text: &str) -> (found: Option<String>)
    ensures
        text_view(found) == regex_capture(pattern@, group, text@),
{
    match regex::Regex::new(pattern) {
        Ok(compiled) => match compiled.captures(text) {
            Some(groups) => match groups.get(group) {
                Some(part) => Some(part.as_str().to_string()),
                None => None,
            },
            None => None,
        },
        Err(_) => None,
    }
}

/// The gift code in a message, if it holds a gift link.
pub fn nitro_code(content: &str) -> (code: Option<String>)
    ensures
        text_view(code) == regex_capture(NITRO_PATTERN@, 2, content@),
{
    capture(NITRO_PATTERN, 2, content)
}

/// Where a gift code is redeemed.
pub open spec fn redeem_url_text(code: Seq<char>) -> Seq<char> {
    "https://discordapp.com/api/v8/entitlements/gift-codes/"@ + code + "/redeem"@
}

/// Writes the address at which `code` is redeemed.
pub fn redeem_url(code: &str) -> (url: String)
    ensures
        url@ == redeem_url_text(code@),
{
    let mut url: String = String::from_str(
        "https://discordapp.com/api/v8/entitlements/gift-codes/",
    );
    url.append(code);
    url.append("/redeem");
    url
}

/// How an attempt to redeem a gift code ended.
#[derive(Clone, Copy, Debug, PartialEq, Eq, Structural)]
pub enum RedeemOutcome {
    /// The gift is ours.
    Redeemed,
    /// The platform failed.
    PlatformError,
    /// The code was fake or has expired.
    Invalid,
    /// Somebody else was faster.
    AlreadyRedeemed,
    /// Too many attempts.
    Ratelimited,
    /// A status this client has no name for.
    Unknown(u16),
}

/// The outcome that a status of the redeem request stands for.
pub open spec fn outcome_of_status(status: u16) -> RedeemOutcome {
    if status == 200 {
        RedeemOutcome::Redeemed
    } else if status == 405 {
        RedeemOutcome::PlatformError
    } else if status == 404 {
        RedeemOutcome::Invalid
    } else if status == 400 {
        RedeemOutcome::AlreadyRedeemed
    } else if status == 429 {
        RedeemOutcome::Ratelimited
    } else {
        RedeemOutcome::Unknown(status)
    }
}

/// Reads the status of a redeem request.
pub fn redeem_outcome(status: u16) -> (outcome: RedeemOutcome)
    ensures
        outcome == outcome_of_status(status),
{
    if status == 200 {
        RedeemOutcome::Redeemed
    } else if status == 405 {
        RedeemOutcome::PlatformError
    } else if status == 404 {
        RedeemOutcome::Invalid
    } else if status == 400 {
        RedeemOutcome::AlreadyRedeemed
    } else if status == 429 {
        RedeemOutcome::Ratelimited
    } else {
        RedeemOutcome::Unknown(status)
    }
}

/// What an ordinary message sets off besides a gift code.
#[derive(Clone, Copy, Debug, PartialEq, Eq, Structural)]
pub enum Trigger {
    WalletDrop,
    Giveaway,
    Nothing,
}

/// What a message of the given author and text sets off: a wallet drop is
/// the wallet bot's notice, a giveaway the giveaway bot's banner.
pub open spec fn trigger_of(author: u64, content: Seq<char>) -> Trigger {
    if author == WALLET_BOT && begins_with(
        content,
        "Someone just dropped their wallet in this channel! Hurry and pick it up with"@,
    ) {
        Trigger::WalletDrop
    } else if author == GIVEAWAY_BOT && content
        == "<:yay:585696613507399692>   **GIVEAWAY**   <:yay:585696613507399692>"@ {
        Trigger::Giveaway
    } else {
        Trigger::Nothing
    }
}

/// Tells what a message sets off.
pub fn classify(author: u64, content: &str) -> (trigger: Trigger)
    ensures
        trigger == trigger_of(author, content@),
{
    if author == WALLET_BOT && starts_with(
        content,
        "Someone just dropped their wallet in this channel! Hurry and pick it up with",
    ) {
        Trigger::WalletDrop
    } else if author == GIVEAWAY_BOT && text_equal(
        content,
        "<:yay:585696613507399692>   **GIVEAWAY**   <:yay:585696613507399692>",
    ) {
        Trigger::Giveaway
    } else {
        Trigger::Nothing
    }
}

/// Where dropped wallets are picked up.
#[derive(Clone, Debug)]
pub struct SlotBotConfig {
    pub enabled: bool,
    pub dynamic_prefix: bool,
    /// 0: everywhere; 1: only in whitelisted guilds; 2: not in blacklisted
    /// guilds.
    pub mode: u8,
    pub whitelisted_guilds: Vec<u64>,
    pub blacklisted_guilds: Vec<u64>,
}

/// Whether a wallet dropped in the given guild is picked up; a drop outside
/// any guild never is.
pub open spec fn pickup_allowed(config: SlotBotConfig, guild: Option<u64>) -> bool {
    match guild {
        None => false,
        Some(g) => config.enabled && !(config.mode == 1 && !config.whitelisted_guilds@.contains(g))
            && !(config.mode == 2 && config.blacklisted_guilds@.contains(g)),
    }
}

/// Whether `list` holds `id`.
pub fn holds(list: &Vec<u64>, id: u64) -> (found: bool)
    ensures
        found == list@.contains(id),
{
    let mut i: usize = 0;
    while i < list.len()
        invariant
            i <= list.len(),
            forall|j: int| 0 <= j < i ==> list@[j] != id,
        decreases list.len() - i,
    {
        if list[i] == id {
            return true;
        }
        i = i + 1;
    }
    false
}

impl SlotBotConfig {
    /// Decides whether a wallet dropped in `guild` is picked up.
    pub fn allows(&self, guild: Option<u64>) -> (allowed: bool)
        ensures
            allowed == pickup_allowed(*self, guild),
    {
        match guild {
            None => false,
            Some(g) => {
                if !self.enabled {
                    false
                } else if self.mode == 1 {
                    holds(&self.whitelisted_guilds, g)
                } else if self.mode == 2 {
                    !holds(&self.blacklisted_guilds, g)
                } else {
                    true
                }
            },
        }
    }
}

/// The prefix inside a quoted grab command: what stands between the
/// opening backtick and the closing `grab` and backtick.
pub open spec fn prefix_in(quoted: Seq<char>) -> Seq<char> {
    quoted.subrange(1, quoted.len() - 5)
}

/// Cuts the prefix out of a quoted grab command.
pub fn prefix_of_match(quoted: &str) -> (prefix: String)
    requires
        quoted@.len() >= 6,
    ensures
        prefix@ == prefix_in(quoted@),
{
    let n: usize = quoted.unicode_len();
    String::from_str(quoted.substring_char(1, n - 5))
}

/// The prefix to pick a wallet up with: the one that the drop notice
/// quotes, where prefixes are read from the notice and it quotes a grab
/// command of at least six characters, else `~`.
pub open spec fn grab_prefix_text(dynamic: bool, content: Seq<char>) -> Seq<char> {
    if dynamic {
        match regex_capture(GRAB_PATTERN@, 0, content) {
            Some(quoted) => if quoted.len() >= 6 {
                prefix_in(quoted)
            } else {
                "~"@
            },
            None => "~"@,
        }
    } else {
        "~"@
    }
}

/// Finds the prefix to pick a wallet up with.
pub fn grab_prefix(dynamic: bool, content: &str) -> (prefix: String)
    ensures
        prefix@ == grab_prefix_text(dynamic, content@),
{
    if dynamic {
        match capture(GRAB_PATTERN, 0, content) {
            Some(quoted) => {
                if quoted.as_str().unicode_len() >= 6 {
                    prefix_of_match(quoted.as_str())
                } else {
                    String::from_str("~")
                }
            },
            None => String::from_str("~"),
        }
    } else {
        String::from_str("~")
    }
}

/// Writes the command that picks a wallet up.
pub fn grab_command(prefix: &str) -> (command: String)
    ensures
        command@ == prefix@ + "grab"@,
{
    let mut command: String = String::from_str(prefix);
    command.append("grab");
    command
}

/// Whether giveaways are joined, and after how many seconds.
#[derive(Clone, Copy, Debug, PartialEq, Eq, Structural)]
pub struct GiveawayConfig {
    pub enabled: bool,
    pub delay: u64,
}

impl GiveawayConfig {
    /// The seconds to wait before a giveaway is joined, or `None` where it
    /// is not joined: giveaways are joined in guilds only, and only where
    /// joining is enabled.
    pub fn join_after(&self, private: bool) -> (delay: Option<u64>)
        ensures
            delay == if self.enabled && !private {
                Some(self.delay)
            } else {
                None
            },
    {
        if !self.enabled || private {
            None
        } else {
            Some(self.delay)
        }
    }
}

/// Whether the avatar changes, after how many minutes, and how the next
/// one is picked.
#[derive(Clone, Copy, Debug, PartialEq, Eq, Structural)]
pub struct PfpSwitcher {
    pub enabled: bool,
    pub delay: u32,
    pub mode: u8,
}

impl PfpSwitcher {
    /// Whether the avatar is due for a change, `elapsed` seconds after the
    /// last one.
    pub fn due(&self, elapsed: u64) -> (due: bool)
        ensures
            due == (self.enabled && elapsed >= self.delay * 60),
    {
        let minutes: u64 = self.delay as u64;
        self.enabled && elapsed >= minutes * 60
    }

    /// Picks the next avatar among `count` files: in every mode one of
    /// them, by chance. Without a file there is nothing to pick.
    pub fn pick(&self, count: usize) -> (picked: Option<usize>)
        ensures
            picked is Some <==> count > 0,
            picked matches Some(i) ==> i < count,
    {
        if count == 0 {
            None
        } else {
            Some(random_below(count))
        }
    }
}

/// Calls `gen_range` of rand's thread-local generator on the range from 0
/// up to, not including, `count`. The result depends on chance; it lies in
/// the range.
#[verifier::external_body]
fn random_below(count: usize) -> (picked: usize)
    requires
        count > 0,
    ensures
        picked < count,
{
    rand::thread_rng().gen_range(0..count)
}

} // verus!
