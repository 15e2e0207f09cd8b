use inori::user::{
    check_flag, BasicUser, FLAG_EARLY_VERIFIED_BOT_DEV, FLAG_PARTNER_SERVER_OWNER,
    FLAG_VERIFIED_BOT,
};

fn user() -> BasicUser {
    BasicUser {
        username: "leaf".to_string(),
        discriminator: "0001".to_string(),
        bot: None,
        id: "1234".to_string(),
        email: "leaf@example.org".to_string(),
        phone: None,
        verified: true,
        mfa_enabled: false,
        premium_type: None,
        flags: 0,
        avatar: None,
    }
}

#[test]
fn avatar_url_of_a_custom_avatar() {
    let mut u = user();
    u.avatar = Some("abcdef".to_string());
    assert_eq!(u.avatar_url(), "https://cdn.discordapp.com/avatars/1234/abcdef.png");
}

#[test]
fn avatar_url_of_the_default_avatar() {
    assert_eq!(user().avatar_url(), "https://cdn.discordapp.com/embed/avatars/0001.png");
}

#[test]
fn bot_mark() {
    let mut u = user();
    assert!(!u.is_bot());
    u.bot = Some(false);
    assert!(!u.is_bot());
    u.bot = Some(true);
    assert!(u.is_bot());
}

#[test]
fn subscription_tier_names() {
    let mut u = user();
    assert_eq!(u.nitro_str(), "None");
    u.premium_type = Some(0);
    assert_eq!(u.nitro_str(), "None");
    u.premium_type = Some(1);
    assert_eq!(u.nitro_str(), "Nitro Classic");
    u.premium_type = Some(2);
    assert_eq!(u.nitro_str(), "Nitro Boost");
    u.premium_type = Some(3);
    assert_eq!(u.nitro_str(), "Unknown");
    u.premium_type = Some(255);
    assert_eq!(u.nitro_str(), "Unknown");
}

#[test]
fn flag_bits() {
    assert_eq!(FLAG_PARTNER_SERVER_OWNER, 0b00000000000000001);
    assert_eq!(FLAG_VERIFIED_BOT, 0b01000000000000000);
    assert_eq!(FLAG_EARLY_VERIFIED_BOT_DEV, 0b10000000000000000);
}

#[test]
fn check_flag_needs_every_bit() {
    assert!(check_flag(0b110, 0b100));
    assert!(check_flag(0b110, 0b110));
    assert!(!check_flag(0b100, 0b110));
    assert!(!check_flag(0b001, 0b110));
    assert!(check_flag(5, 0));
}

#[test]
fn check_flag_on_no_flags_is_false() {
    assert!(!check_flag(0, 1));
    assert!(!check_flag(0, 0));
}

#[test]
fn account_flags() {
    let mut u = user();
    assert!(!u.is_partner_server_owner());
    assert!(!u.is_verified_bot());
    assert!(!u.is_early_verified_bot_dev());
    u.flags = 1;
    assert!(u.is_partner_server_owner());
    assert!(!u.is_verified_bot());
    u.flags = 1 << 15;
    assert!(!u.is_partner_server_owner());
    assert!(u.is_verified_bot());
    assert!(!u.is_early_verified_bot_dev());
    u.flags = (1 << 16) | 1;
    assert!(u.is_partner_server_owner());
    assert!(!u.is_verified_bot());
    assert!(u.is_early_verified_bot_dev());
}
