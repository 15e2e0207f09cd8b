//! The account that the client is logged in as.

use vstd::prelude::*;
use vstd::string::*;

verus! {

/// Flag bit of a partnered server's owner.
pub const FLAG_PARTNER_SERVER_OWNER: u64 = 0x1;

/// Flag bit of a verified bot.
pub const FLAG_VERIFIED_BOT: u64 = 0x8000;

/// Flag bit of an early verified bot developer.
pub const FLAG_EARLY_VERIFIED_BOT_DEV: u64 = 0x1_0000;

/// Whether every bit of `flag` is set in `flags`. An empty `flags` has no
/// flag set, not even the empty one.
pub open spec fn has_flag(flags: u64, flag: u64) -> bool {
    flags != 0 && (flags & flag) == flag
}

/// Tests `flags` for `flag`.
pub fn check_flag(flags: u64, flag: u64) -> (set: bool)
    ensures
        set == has_flag(flags, flag),
{
    if flags == 0 {
        false
    } else {
        (flags & flag) == flag
    }
}

/// The user record as the platform's API hands it out.
#[derive(Clone, Debug)]
pub struct BasicUser {
    pub username: String,
    pub discriminator: String,
    pub bot: Option<bool>,
    pub id: String,
    pub email: String,
    pub phone: Option<String>,
    pub verified: bool,
    pub mfa_enabled: bool,
    pub premium_type: Option<u8>,
    pub flags: u64,
    pub avatar: Option<String>,
}

/// The address of a user's avatar: the custom image where a hash is given,
/// else the default image that goes with the discriminator.
pub open spec fn avatar_url_text(
    id: Seq<char>,
    discriminator: Seq<char>,
    avatar: Option<Seq<char>>,
) -> Seq<char> {
    match avatar {
        Some(hash) => "https://cdn.discordapp.com/"@ + "avatars/"@ + id + "/"@ + hash + ".png"@,
        None => "https://cdn.discordapp.com/"@ + "embed/avatars/"@ + discriminator + ".png"@,
    }
}

/// The name of a subscription tier. No tier counts as tier 0.
pub open spec fn nitro_text(tier: Option<u8>) -> Seq<char> {
    match tier {
        None => "None"@,
        Some(t) => if t == 0 {
            "None"@
        } else if t == 1 {
            "Nitro Classic"@
        } else if t == 2 {
            "Nitro Boost"@
        } else {
            "Unknown"@
        },
    }
}

impl BasicUser {
    /// The avatar hash as a sequence of characters, if there is one.
    pub open spec fn avatar_view(&self) -> Option<Seq<char>> {
        match self.avatar {
            Some(hash) => Some(hash@),
            None => None,
        }
    }

    /// Where the user's avatar image is served.
    pub fn avatar_url(&self) -> (url: String)
        ensures
            url@ == avatar_url_text(self.id@, self.discriminator@, self.avatar_view()),
    {
        let mut url: String = String::from_str("https://cdn.discordapp.com/");
        match &self.avatar {
            Some(hash) => {
                url.append("avatars/");
                url.append(self.id.as_str());
                url.append("/");
                url.append(hash.as_str());
                url.append(".png");
            },
            None => {
                url.append("embed/avatars/");
                url.append(self.discriminator.as_str());
                url.append(".png");
            },
        }
        url
    }

    /// Whether the account is marked as a bot.
    pub fn is_bot(&self) -> (bot: bool)
        ensures
            bot == (self.bot == Some(true)),
    {
        match self.bot {
            Some(b) => b,
            None => false,
        }
    }

    /// The name of the account's subscription tier.
    pub fn nitro_str(&self) -> (name: String)
        ensures
            name@ == nitro_text(self.premium_type),
    {
        let name: &str = match self.premium_type {
            Some(tier) => {
                if tier == 0 {
                    "None"
                } else if tier == 1 {
                    "Nitro Classic"
                } else if tier == 2 {
                    "Nitro Boost"
                } else {
                    "Unknown"
                }
            },
            None => "None",
        };
        String::from_str(name)
    }

    /// Whether the account owns a partnered server.
    pub fn is_partner_server_owner(&self) -> (set: bool)
        ensures
            set == has_flag(self.flags, FLAG_PARTNER_SERVER_OWNER),
    {
        check_flag(self.flags, FLAG_PARTNER_SERVER_OWNER)
    }

    /// Whether the account is a verified bot.
    pub fn is_verified_bot(&self) -> (set: bool)
        ensures
            set == has_flag(self.flags, FLAG_VERIFIED_BOT),
    {
        check_flag(self.flags, FLAG_VERIFIED_BOT)
    }

    /// Whether the account is an early verified bot developer.
    pub fn is_early_verified_bot_dev(&self) -> (set: bool)
        ensures
            set == has_flag(self.flags, FLAG_EARLY_VERIFIED_BOT_DEV),
    {
        check_flag(self.flags, FLAG_EARLY_VERIFIED_BOT_DEV)
    }
}

} // verus!
