use inori::autodelete::AutoDeleteConfig;
use inori::number::parse_number;
use inori::triggers::{GiveawayConfig, PfpSwitcher};
use inori::wizard::{
    accept_choice, accept_gender, accept_number, assemble, file_failure, token_check, Choices,
    FileStage, Progress, Question, TokenCheck, Wizard,
};

#[test]
fn numbers_are_read_like_the_standard_library_reads_them() {
    let samples = [
        "", "+", "0", "7", "42", "007", "+5", "+0", "-1", "255", "256", "1 ", " 1", "1a", "a",
        "１", "18446744073709551615", "18446744073709551616", "99999999999999999999999", "++1",
        "1+", "4294967295", "4294967296", "+255", "0000000000000000000000001",
    ];
    for s in samples {
        assert_eq!(parse_number(s, u8::MAX as u64), s.parse::<u8>().ok().map(|n| n as u64));
        assert_eq!(parse_number(s, u32::MAX as u64), s.parse::<u32>().ok().map(|n| n as u64));
        assert_eq!(parse_number(s, u64::MAX), s.parse::<u64>().ok());
    }
}

#[test]
fn number_above_the_limit_is_refused() {
    assert_eq!(parse_number("10", 10), Some(10));
    assert_eq!(parse_number("11", 10), None);
    assert_eq!(parse_number("0", 0), Some(0));
    assert_eq!(parse_number("1", 0), None);
    assert_eq!(parse_number("100", 99), None);
}

#[test]
fn number_within_bounds() {
    assert_eq!(accept_number("10", 10, 20), Some(10));
    assert_eq!(accept_number("20", 10, 20), Some(20));
    assert_eq!(accept_number("9", 10, 20), None);
    assert_eq!(accept_number("21", 10, 20), None);
    assert_eq!(accept_number("ten", 10, 20), None);
}

#[test]
fn one_is_yes_and_two_is_no() {
    assert_eq!(accept_choice("1"), Some(true));
    assert_eq!(accept_choice("2"), Some(false));
    assert_eq!(accept_choice("0"), None);
    assert_eq!(accept_choice("3"), None);
    assert_eq!(accept_choice("yes"), None);
    assert_eq!(accept_choice(""), None);
    assert_eq!(accept_choice("257"), None);
    assert_eq!(accept_choice("+1"), Some(true));
}

#[test]
fn gender_answers() {
    assert_eq!(accept_gender("male"), Some(true));
    assert_eq!(accept_gender("female"), Some(false));
    assert_eq!(accept_gender("Male"), None);
    assert_eq!(accept_gender(""), None);
}

#[test]
fn token_statuses() {
    assert_eq!(token_check(200), TokenCheck::Valid);
    assert_eq!(token_check(401), TokenCheck::Invalid);
    assert_eq!(token_check(500), TokenCheck::Unexpected(500));
}

fn next(progress: Progress) -> Wizard {
    match progress {
        Progress::Next(w) => w,
        other => panic!("expected the next question, got {:?}", other),
    }
}

#[test]
fn set_up_starts_with_the_defaults() {
    let w = Wizard::start();
    assert_eq!(w.question, Question::NsfwLevel);
    assert_eq!(
        w.choices,
        Choices {
            global_nsfw_level: 1,
            is_male: true,
            nitrosniper: false,
            send_embeds: false,
            slotbot_enabled: false,
            slotbot_dynamic_prefix: false,
            slotbot_mode: 0,
            pfp_switcher: PfpSwitcher { enabled: false, delay: 45, mode: 0 },
            giveaway: GiveawayConfig { enabled: false, delay: 120 },
            autodelete: AutoDeleteConfig { enabled: false, delay: 10 },
        }
    );
}

#[test]
fn refused_answer_asks_again() {
    let w = Wizard::start();
    assert_eq!(w.answer("3"), Progress::Again(w));
    assert_eq!(w.answer("x"), Progress::Again(w));
    let g = next(w.answer("2"));
    assert_eq!(g.question, Question::Gender);
    assert_eq!(g.choices.global_nsfw_level, 2);
    assert_eq!(g.answer("other"), Progress::Again(g));
}

#[test]
fn gender_is_read_without_regard_to_case() {
    let g = next(Wizard::start().answer("0"));
    let w = next(g.answer("FeMaLe"));
    assert!(!w.choices.is_male);
    assert_eq!(w.question, Question::NitroSniper);
    let w = next(g.answer("MALE"));
    assert!(w.choices.is_male);
}

#[test]
fn shortest_set_up_skips_every_follow_up() {
    let w = next(Wizard::start().answer("1"));
    let w = next(w.answer("male"));
    let w = next(w.answer("2"));
    assert_eq!(w.question, Question::SendEmbeds);
    let w = next(w.answer("2"));
    assert_eq!(w.question, Question::SlotBot);
    let w = next(w.answer("2"));
    assert_eq!(w.question, Question::PfpSwitcher);
    let w = next(w.answer("2"));
    assert_eq!(w.question, Question::Giveaway);
    let w = next(w.answer("2"));
    assert_eq!(w.question, Question::AutoDelete);
    match w.answer("2") {
        Progress::Done(c) => assert_eq!(c, Wizard::start().choices),
        other => panic!("expected the end, got {:?}", other),
    }
}

#[test]
fn longest_set_up_asks_every_follow_up() {
    let w = next(Wizard::start().answer("0"));
    let w = next(w.answer("female"));
    let w = next(w.answer("1"));
    let w = next(w.answer("1"));
    let w = next(w.answer("1"));
    assert_eq!(w.question, Question::SlotBotDynamicPrefix);
    let w = next(w.answer("1"));
    assert_eq!(w.question, Question::SlotBotMode);
    assert_eq!(w.answer("3"), Progress::Again(w));
    let w = next(w.answer("2"));
    assert_eq!(w.question, Question::PfpSwitcher);
    let w = next(w.answer("1"));
    assert_eq!(w.question, Question::PfpDelay);
    assert_eq!(w.answer("9"), Progress::Again(w));
    assert_eq!(w.answer("4294967296"), Progress::Again(w));
    let w = next(w.answer("10"));
    assert_eq!(w.question, Question::PfpMode);
    assert_eq!(w.answer("2"), Progress::Again(w));
    let w = next(w.answer("1"));
    assert_eq!(w.question, Question::Giveaway);
    let w = next(w.answer("1"));
    assert_eq!(w.question, Question::GiveawayDelay);
    let w = next(w.answer("0"));
    assert_eq!(w.question, Question::AutoDelete);
    let w = next(w.answer("1"));
    assert_eq!(w.question, Question::AutoDeleteDelay);
    assert_eq!(w.answer("0"), Progress::Again(w));
    match w.answer("18446744073709551615") {
        Progress::Done(c) => assert_eq!(
            c,
            Choices {
                global_nsfw_level: 0,
                is_male: false,
                nitrosniper: true,
                send_embeds: true,
                slotbot_enabled: true,
                slotbot_dynamic_prefix: true,
                slotbot_mode: 2,
                pfp_switcher: PfpSwitcher { enabled: true, delay: 10, mode: 1 },
                giveaway: GiveawayConfig { enabled: true, delay: 0 },
                autodelete: AutoDeleteConfig { enabled: true, delay: u64::MAX },
            }
        ),
        other => panic!("expected the end, got {:?}", other),
    }
}

#[test]
fn delays_are_asked_for_their_own_feature_only() {
    let mut w = Wizard::start();
    w.question = Question::Giveaway;
    w.choices.pfp_switcher.enabled = true;
    assert_eq!(next(w.answer("2")).question, Question::AutoDelete);
    assert_eq!(next(w.answer("1")).question, Question::GiveawayDelay);
    w.question = Question::AutoDelete;
    assert!(matches!(w.answer("2"), Progress::Done(_)));
    assert_eq!(next(w.answer("1")).question, Question::AutoDeleteDelay);
}

#[test]
fn answer_with_takes_the_lower_case_form_for_the_gender_only() {
    let mut w = Wizard::start();
    w.question = Question::Gender;
    assert!(!next(w.answer_with("whatever", "female")).choices.is_male);
    assert_eq!(w.answer_with("female", "FEMALE"), Progress::Again(w));
    w.question = Question::PfpMode;
    assert_eq!(next(w.answer_with("1", "ignored")).choices.pfp_switcher.mode, 1);
}

#[test]
fn settings_from_the_choices() {
    let mut choices = Wizard::start().choices;
    choices.slotbot_enabled = true;
    choices.slotbot_mode = 1;
    choices.send_embeds = true;
    choices.autodelete = AutoDeleteConfig { enabled: true, delay: 3 };
    let s = assemble("token".to_string(), "~".to_string(), choices);
    assert_eq!(s.user_token, "token");
    assert_eq!(s.command_prefix, "~");
    assert_eq!(s.global_nsfw_level, 1);
    assert!(s.is_male);
    assert!(s.send_embeds);
    assert_eq!(s.emoteserver, 0);
    assert!(!s.nitrosniper);
    assert_eq!(s.pfp_switcher, PfpSwitcher { enabled: false, delay: 45, mode: 0 });
    assert_eq!(s.giveaway, GiveawayConfig { enabled: false, delay: 120 });
    assert_eq!(s.autodelete, AutoDeleteConfig { enabled: true, delay: 3 });
    assert!(s.slotbot.enabled);
    assert!(!s.slotbot.dynamic_prefix);
    assert_eq!(s.slotbot.mode, 1);
    assert!(s.slotbot.whitelisted_guilds.is_empty());
    assert!(s.slotbot.blacklisted_guilds.is_empty());
}

#[test]
fn settings_file_failures() {
    assert_eq!(
        file_failure(FileStage::Opening, true, "gone"),
        "Unable to find 'config.toml', copy 'config.toml.bak' and setup config"
    );
    assert_eq!(
        file_failure(FileStage::Reading, true, "gone"),
        "Unable to find 'config.toml', copy 'config.toml.bak' and setup config"
    );
    assert_eq!(
        file_failure(FileStage::Opening, false, "denied"),
        "Unknown error occured while opening 'config.toml'\n[Config] denied"
    );
    assert_eq!(
        file_failure(FileStage::Reading, false, "denied"),
        "Unknown error occured while opening 'config.toml'.\n[Config] denied"
    );
}
