use inori::text::starts_with;
use inori::triggers::{
    classify, grab_command, grab_prefix, holds, nitro_code, prefix_of_match, redeem_outcome,
    redeem_url, GiveawayConfig, PfpSwitcher, RedeemOutcome, SlotBotConfig, Trigger, GIVEAWAY_BOT,
    WALLET_BOT,
};

const DROP: &str =
    "Someone just dropped their wallet in this channel! Hurry and pick it up with `~grab`";
const BANNER: &str = "<:yay:585696613507399692>   **GIVEAWAY**   <:yay:585696613507399692>";

#[test]
fn gift_code_is_found_in_a_link() {
    assert_eq!(
        nitro_code("look: discord.gift/abcdefghijklmnop now").as_deref(),
        Some("abcdefghijklmnop")
    );
    assert_eq!(
        nitro_code("https://discord.com/gifts/ABCDEFGHIJ0123456789").as_deref(),
        Some("ABCDEFGHIJ0123456789")
    );
    assert_eq!(
        nitro_code("discordapp.com/gifts/   abcdefghijklmnopqr").as_deref(),
        Some("abcdefghijklmnopqr")
    );
}

#[test]
fn gift_code_has_sixteen_to_twenty_four_characters() {
    assert_eq!(nitro_code("discord.gift/abcdefghijklmno"), None);
    assert_eq!(
        nitro_code("discord.gift/abcdefghijklmnopqrstuvwxyz0123").as_deref(),
        Some("abcdefghijklmnopqrstuvwx")
    );
    assert_eq!(nitro_code("nothing to see"), None);
    assert_eq!(nitro_code(""), None);
    assert_eq!(nitro_code("discord.gift/abcdefgh-ijklmnop"), None);
}

#[test]
fn redeem_address() {
    assert_eq!(
        redeem_url("abcdefghijklmnop"),
        "https://discordapp.com/api/v8/entitlements/gift-codes/abcdefghijklmnop/redeem"
    );
    assert_eq!(redeem_url(""), "https://discordapp.com/api/v8/entitlements/gift-codes//redeem");
}

#[test]
fn redeem_outcomes_by_status() {
    assert_eq!(redeem_outcome(200), RedeemOutcome::Redeemed);
    assert_eq!(redeem_outcome(405), RedeemOutcome::PlatformError);
    assert_eq!(redeem_outcome(404), RedeemOutcome::Invalid);
    assert_eq!(redeem_outcome(400), RedeemOutcome::AlreadyRedeemed);
    assert_eq!(redeem_outcome(429), RedeemOutcome::Ratelimited);
    assert_eq!(redeem_outcome(500), RedeemOutcome::Unknown(500));
    assert_eq!(redeem_outcome(0), RedeemOutcome::Unknown(0));
}

#[test]
fn wallet_drop_is_the_wallet_bots_notice() {
    assert_eq!(classify(WALLET_BOT, DROP), Trigger::WalletDrop);
    assert_eq!(classify(WALLET_BOT + 1, DROP), Trigger::Nothing);
    assert_eq!(classify(WALLET_BOT, "Someone just dropped"), Trigger::Nothing);
    assert_eq!(classify(WALLET_BOT, ""), Trigger::Nothing);
    assert_eq!(classify(WALLET_BOT, BANNER), Trigger::Nothing);
}

#[test]
fn giveaway_is_the_giveaway_bots_banner() {
    assert_eq!(classify(GIVEAWAY_BOT, BANNER), Trigger::Giveaway);
    assert_eq!(classify(GIVEAWAY_BOT, DROP), Trigger::Nothing);
    assert_eq!(classify(1, BANNER), Trigger::Nothing);
    let longer = format!("{} ", BANNER);
    assert_eq!(classify(GIVEAWAY_BOT, &longer), Trigger::Nothing);
}

#[test]
fn prefix_test_agrees_with_the_standard_library() {
    let texts = ["", "a", "ab", "abc", "b", "héllo", "hé", "h"];
    for text in texts {
        for prefix in texts {
            assert_eq!(starts_with(text, prefix), text.starts_with(prefix));
        }
    }
}

fn config(mode: u8) -> SlotBotConfig {
    SlotBotConfig {
        enabled: true,
        dynamic_prefix: false,
        mode,
        whitelisted_guilds: vec![1, 2],
        blacklisted_guilds: vec![3],
    }
}

#[test]
fn pickup_follows_the_guild_lists() {
    assert!(config(0).allows(Some(9)));
    assert!(config(0).allows(Some(3)));
    assert!(config(1).allows(Some(1)));
    assert!(config(1).allows(Some(2)));
    assert!(!config(1).allows(Some(3)));
    assert!(config(2).allows(Some(1)));
    assert!(!config(2).allows(Some(3)));
    assert!(config(7).allows(Some(3)));
}

#[test]
fn pickup_needs_a_guild_and_the_switch() {
    assert!(!config(0).allows(None));
    let mut off = config(0);
    off.enabled = false;
    assert!(!off.allows(Some(1)));
}

#[test]
fn list_membership() {
    assert!(holds(&vec![1, 2, 3], 3));
    assert!(!holds(&vec![1, 2, 3], 4));
    assert!(!holds(&Vec::new(), 0));
}

#[test]
fn grab_prefix_is_read_from_the_notice() {
    assert_eq!(grab_prefix(true, DROP), "~");
    assert_eq!(grab_prefix(true, "pick it up with `!!grab`"), "!!");
    assert_eq!(grab_prefix(true, "pick it up with `grab`"), "");
    assert_eq!(grab_prefix(true, "`a` and `bgrab`"), "a` and `b");
    assert_eq!(grab_prefix(true, "pick it up with `é$grab` now"), "é$");
}

#[test]
fn grab_prefix_falls_back_to_the_tilde() {
    assert_eq!(grab_prefix(true, "no command here"), "~");
    assert_eq!(grab_prefix(false, "pick it up with `!!grab`"), "~");
    assert_eq!(grab_prefix(false, ""), "~");
}

#[test]
fn prefix_is_cut_out_of_the_quoted_command() {
    assert_eq!(prefix_of_match("`grab`"), "");
    assert_eq!(prefix_of_match("`s.grab`"), "s.");
    assert_eq!(grab_command("~"), "~grab");
    assert_eq!(grab_command(""), "grab");
}

#[test]
fn giveaways_are_joined_in_guilds_when_enabled() {
    let on = GiveawayConfig { enabled: true, delay: 120 };
    let off = GiveawayConfig { enabled: false, delay: 120 };
    assert_eq!(on.join_after(false), Some(120));
    assert_eq!(on.join_after(true), None);
    assert_eq!(off.join_after(false), None);
    assert_eq!(off.join_after(true), None);
}

#[test]
fn avatar_change_is_due_after_the_delay() {
    let on = PfpSwitcher { enabled: true, delay: 45, mode: 0 };
    assert!(!on.due(45 * 60 - 1));
    assert!(on.due(45 * 60));
    assert!(on.due(u64::MAX));
    let off = PfpSwitcher { enabled: false, delay: 45, mode: 0 };
    assert!(!off.due(u64::MAX));
    let long = PfpSwitcher { enabled: true, delay: u32::MAX, mode: 0 };
    assert!(!long.due(u32::MAX as u64));
    assert!(long.due(u32::MAX as u64 * 60));
}

#[test]
fn avatar_pick_is_one_of_the_files() {
    let s = PfpSwitcher { enabled: true, delay: 45, mode: 1 };
    assert_eq!(s.pick(0), None);
    assert_eq!(s.pick(1), Some(0));
    for _ in 0..200 {
        let i = s.pick(5).expect("a file is picked");
        assert!(i < 5);
    }
}
