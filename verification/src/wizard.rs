//! The first-run set-up: which questions are asked, which answers are
//! accepted, and the settings that the answers give.

use vstd::prelude::*;
use vstd::string::*;
use crate::autodelete::AutoDeleteConfig;
use crate::number::{number_in, parse_number};
use crate::text::{lowercase, lowercase_of, text_equal};
use crate::triggers::{GiveawayConfig, PfpSwitcher, SlotBotConfig};

verus! {

/// What the platform said to a token.
#[derive(Clone, Copy, Debug, PartialEq, Eq, Structural)]
pub enum TokenCheck {
    /// The token is good.
    Valid,
    /// The platform does not know the token.
    Invalid,
    /// A status that says neither.
    Unexpected(u16),
}

/// Reads the status of the request that tries a token: 200 accepts it, 401
/// refuses it.
pub fn token_check(status: u16) -> (check: TokenCheck)
    ensures
        check == if status == 200 {
            TokenCheck::Valid
        } else if status == 401 {
            TokenCheck::Invalid
        } else {
            TokenCheck::Unexpected(status)
        },
{
    if status == 200 {
        TokenCheck::Valid
    } else if status == 401 {
        TokenCheck::Invalid
    } else {
        TokenCheck::Unexpected(status)
    }
}

/// A question of the set-up that is answered with a number or a choice.
#[derive(Clone, Copy, Debug, PartialEq, Eq, Structural)]
pub enum Question {
    NsfwLevel,
    Gender,
    NitroSniper,
    SendEmbeds,
    SlotBot,
    SlotBotDynamicPrefix,
    SlotBotMode,
    PfpSwitcher,
    PfpDelay,
    PfpMode,
    Giveaway,
    GiveawayDelay,
    AutoDelete,
    AutoDeleteDelay,
}

/// What the answers so far come to. Every option has a default of its own.
#[derive(Clone, Copy, Debug, PartialEq, Eq, Structural)]
pub struct Choices {
    pub global_nsfw_level: u8,
    pub is_male: bool,
    pub nitrosniper: bool,
    pub send_embeds: bool,
    pub slotbot_enabled: bool,
    pub slotbot_dynamic_prefix: bool,
    pub slotbot_mode: u8,
    pub pfp_switcher: PfpSwitcher,
    pub giveaway: GiveawayConfig,
    pub autodelete: AutoDeleteConfig,
}

/// The choices before any answer.
pub open spec fn default_choices() -> Choices {
    Choices {
        global_nsfw_level: 1,
        is_male: true,
        nitrosniper: false,
        send_embeds: false,
        slotbot_enabled: false,
        slotbot_dynamic_prefix: false,
        slotbot_mode: 0,
        pfp_switcher: PfpSwitcher { enabled: false, delay: 45, mode: 0 },
        giveaway: GiveawayConfig { enabled: false, delay: 120 },
        autodelete: AutoDeleteConfig { enabled: false, delay: 10 },
    }
}

/// The number that an answer writes, if it lies between `low` and `high`.
pub open spec fn number_between(input: Seq<char>, low: nat, high: nat) -> Option<nat> {
    match number_in(input, high) {
        Some(n) => if low <= n {
            Some(n)
        } else {
            None
        },
        None => None,
    }
}

/// The choice that an answer makes: 1 is yes, 2 is no. The answer has to be
/// a number that fits in a byte.
pub open spec fn choice_of(input: Seq<char>) -> Option<bool> {
    match number_in(input, 255) {
        Some(n) => if n == 1 {
            Some(true)
        } else if n == 2 {
            Some(false)
        } else {
            None
        },
        None => None,
    }
}

/// The gender that a lower-case answer names.
pub open spec fn gender_of(lowered: Seq<char>) -> Option<bool> {
    if lowered == "male"@ {
        Some(true)
    } else if lowered == "female"@ {
        Some(false)
    } else {
        None
    }
}

/// Reads a gender from an answer that is in lower case already.
pub fn accept_gender(lowered: &str) -> (is_male: Option<bool>)
    ensures
        is_male == gender_of(lowered@),
{
    if text_equal(lowered, "male") {
        Some(true)
    } else if text_equal(lowered, "female") {
        Some(false)
    } else {
        None
    }
}

/// Reads a number between `low` and `high` from an answer.
pub fn accept_number(input: &str, low: u64, high: u64) -> (number: Option<u64>)
    ensures
        match number {
            Some(n) => number_between(input@, low as nat, high as nat) == Some(n as nat),
            None => number_between(input@, low as nat, high as nat) is None,
        },
{
    match parse_number(input, high) {
        Some(n) => {
            if low <= n {
                Some(n)
            } else {
                None
            }
        },
        None => None,
    }
}

/// Reads a yes or a no from an answer.
pub fn accept_choice(input: &str) -> (choice: Option<bool>)
    ensures
        choice == choice_of(input@),
{
    match parse_number(input, 255) {
        Some(n) => {
            if n == 1 {
                Some(true)
            } else if n == 2 {
                Some(false)
            } else {
                None
            }
        },
        None => None,
    }
}

/// Whether a question is answered with yes or no.
pub open spec fn is_choice(question: Question) -> bool {
    question == Question::NitroSniper || question == Question::SendEmbeds || question
        == Question::SlotBot || question == Question::SlotBotDynamicPrefix || question
        == Question::PfpSwitcher || question == Question::Giveaway || question
        == Question::AutoDelete
}

/// The least and the greatest number that answers a question which asks
/// for a number.
pub open spec fn bounds_of(question: Question) -> (nat, nat) {
    match question {
        Question::NsfwLevel => (0, 2),
        Question::SlotBotMode => (0, 2),
        Question::PfpDelay => (10, u32::MAX as nat),
        Question::PfpMode => (0, 1),
        Question::GiveawayDelay => (0, u64::MAX as nat),
        _ => (1, u64::MAX as nat),
    }
}

/// The choices after a yes or no to a question.
pub open spec fn with_choice(choices: Choices, question: Question, yes: bool) -> Choices {
    match question {
        Question::Gender => Choices { is_male: yes, ..choices },
        Question::NitroSniper => Choices { nitrosniper: yes, ..choices },
        Question::SendEmbeds => Choices { send_embeds: yes, ..choices },
        Question::SlotBot => Choices { slotbot_enabled: yes, ..choices },
        Question::SlotBotDynamicPrefix => Choices { slotbot_dynamic_prefix: yes, ..choices },
        Question::PfpSwitcher => Choices {
            pfp_switcher: PfpSwitcher { enabled: yes, ..choices.pfp_switcher },
            ..choices
        },
        Question::Giveaway => Choices {
            giveaway: GiveawayConfig { enabled: yes, ..choices.giveaway },
            ..choices
        },
        Question::AutoDelete => Choices {
            autodelete: AutoDeleteConfig { enabled: yes, ..choices.autodelete },
            ..choices
        },
        _ => choices,
    }
}

/// The choices after a number was given to a question.
pub open spec fn with_number(choices: Choices, question: Question, n: nat) -> Choices {
    match question {
        Question::NsfwLevel => Choices { global_nsfw_level: n as u8, ..choices },
        Question::SlotBotMode => Choices { slotbot_mode: n as u8, ..choices },
        Question::PfpDelay => Choices {
            pfp_switcher: PfpSwitcher { delay: n as u32, ..choices.pfp_switcher },
            ..choices
        },
        Question::PfpMode => Choices {
            pfp_switcher: PfpSwitcher { mode: n as u8, ..choices.pfp_switcher },
            ..choices
        },
        Question::GiveawayDelay => Choices {
            giveaway: GiveawayConfig { delay: n as u64, ..choices.giveaway },
            ..choices
        },
        Question::AutoDeleteDelay => Choices {
            autodelete: AutoDeleteConfig { delay: n as u64, ..choices.autodelete },
            ..choices
        },
        _ => choices,
    }
}

/// The choices after an answer to a question, if the answer is accepted.
pub open spec fn answered(choices: Choices, question: Question, input: Seq<char>) -> Option<
    Choices,
> {
    if question == Question::Gender {
        match gender_of(lowercase_of(input)) {
            Some(yes) => Some(with_choice(choices, question, yes)),
            None => None,
        }
    } else if is_choice(question) {
        match choice_of(input) {
            Some(yes) => Some(with_choice(choices, question, yes)),
            None => None,
        }
    } else {
        match number_between(input, bounds_of(question).0, bounds_of(question).1) {
            Some(n) => Some(with_number(choices, question, n)),
            None => None,
        }
    }
}

/// The question that follows, by the choices made so far, or `None` after
/// the last. What belongs to a feature is asked only where the feature was
/// switched on.
pub open spec fn following(question: Question, choices: Choices) -> Option<Question> {
    match question {
        Question::NsfwLevel => Some(Question::Gender),
        Question::Gender => Some(Question::NitroSniper),
        Question::NitroSniper => Some(Question::SendEmbeds),
        Question::SendEmbeds => Some(Question::SlotBot),
        Question::SlotBot => if choices.slotbot_enabled {
            Some(Question::SlotBotDynamicPrefix)
        } else {
            Some(Question::PfpSwitcher)
        },
        Question::SlotBotDynamicPrefix => Some(Question::SlotBotMode),
        Question::SlotBotMode => Some(Question::PfpSwitcher),
        Question::PfpSwitcher => if choices.pfp_switcher.enabled {
            Some(Question::PfpDelay)
        } else {
            Some(Question::Giveaway)
        },
        Question::PfpDelay => Some(Question::PfpMode),
        Question::PfpMode => Some(Question::Giveaway),
        Question::Giveaway => if choices.giveaway.enabled {
            Some(Question::GiveawayDelay)
        } else {
            Some(Question::AutoDelete)
        },
        Question::GiveawayDelay => Some(Question::AutoDelete),
        Question::AutoDelete => if choices.autodelete.enabled {
            Some(Question::AutoDeleteDelay)
        } else {
            None
        },
        Question::AutoDeleteDelay => None,
    }
}

/// The set-up in progress: the question that is open and the choices made.
#[derive(Clone, Copy, Debug, PartialEq, Eq, Structural)]
pub struct Wizard {
    pub question: Question,
    pub choices: Choices,
}

/// Where the set-up stands after an answer.
#[derive(Clone, Copy, Debug, PartialEq, Eq, Structural)]
pub enum Progress {
    /// The answer was not accepted: ask the same question again.
    Again(Wizard),
    /// The answer was accepted: ask the next question.
    Next(Wizard),
    /// The answer was accepted and was the last.
    Done(Choices),
}

/// Where the set-up stands after `input` was given to the open question.
pub open spec fn progress_of(wizard: Wizard, input: Seq<char>) -> Progress {
    match answered(wizard.choices, wizard.question, input) {
        None => Progress::Again(wizard),
        Some(choices) => match following(wizard.question, choices) {
            Some(question) => Progress::Next(Wizard { question, choices }),
            None => Progress::Done(choices),
        },
    }
}

fn next_question(question: Question, choices: &Choices) -> (next: Option<Question>)
    ensures
        next == following(question, *choices),
{
    match question {
        Question::NsfwLevel => Some(Question::Gender),
        Question::Gender => Some(Question::NitroSniper),
        Question::NitroSniper => Some(Question::SendEmbeds),
        Question::SendEmbeds => Some(Question::SlotBot),
        Question::SlotBot => if choices.slotbot_enabled {
            Some(Question::SlotBotDynamicPrefix)
        } else {
            Some(Question::PfpSwitcher)
        },
        Question::SlotBotDynamicPrefix => Some(Question::SlotBotMode),
        Question::SlotBotMode => Some(Question::PfpSwitcher),
        Question::PfpSwitcher => if choices.pfp_switcher.enabled {
            Some(Question::PfpDelay)
        } else {
            Some(Question::Giveaway)
        },
        Question::PfpDelay => Some(Question::PfpMode),
        Question::PfpMode => Some(Question::Giveaway),
        Question::Giveaway => if choices.giveaway.enabled {
            Some(Question::GiveawayDelay)
        } else {
            Some(Question::AutoDelete)
        },
        Question::GiveawayDelay => Some(Question::AutoDelete),
        Question::AutoDelete => if choices.autodelete.enabled {
            Some(Question::AutoDeleteDelay)
        } else {
            None
        },
        Question::AutoDeleteDelay => None,
    }
}

fn record_choice(choices: Choices, question: Question, yes: bool) -> (after: Choices)
    ensures
        after == with_choice(choices, question, yes),
{
    let mut after: Choices = choices;
    match question {
        Question::Gender => {
            after.is_male = yes;
        },
        Question::NitroSniper => {
            after.nitrosniper = yes;
        },
        Question::SendEmbeds => {
            after.send_embeds = yes;
        },
        Question::SlotBot => {
            after.slotbot_enabled = yes;
        },
        Question::SlotBotDynamicPrefix => {
            after.slotbot_dynamic_prefix = yes;
        },
        Question::PfpSwitcher => {
            after.pfp_switcher.enabled = yes;
        },
        Question::Giveaway => {
            after.giveaway.enabled = yes;
        },
        Question::AutoDelete => {
            after.autodelete.enabled = yes;
        },
        _ => {},
    }
    after
}

fn record_number(choices: Choices, question: Question, n: u64) -> (after: Choices)
    requires
        bounds_of(question).0 <= n <= bounds_of(question).1,
    ensures
        after == with_number(choices, question, n as nat),
{
    let mut after: Choices = choices;
    match question {
        Question::NsfwLevel => {
            after.global_nsfw_level = n as u8;
        },
        Question::SlotBotMode => {
            after.slotbot_mode = n as u8;
        },
        Question::PfpDelay => {
            after.pfp_switcher.delay = n as u32;
        },
        Question::PfpMode => {
            after.pfp_switcher.mode = n as u8;
        },
        Question::GiveawayDelay => {
            after.giveaway.delay = n;
        },
        Question::AutoDeleteDelay => {
            after.autodelete.delay = n;
        },
        _ => {},
    }
    after
}

fn bounds(question: Question) -> (range: (u64, u64))
    ensures
        range.0 == bounds_of(question).0,
        range.1 == bounds_of(question).1,
{
    match question {
        Question::NsfwLevel => (0, 2),
        Question::SlotBotMode => (0, 2),
        Question::PfpDelay => (10, 0xFFFF_FFFF),
        Question::PfpMode => (0, 1),
        Question::GiveawayDelay => (0, u64::MAX),
        _ => (1, u64::MAX),
    }
}

fn takes_choice(question: Question) -> (choice: bool)
    ensures
        choice == is_choice(question),
{
    match question {
        Question::NitroSniper => true,
        Question::SendEmbeds => true,
        Question::SlotBot => true,
        Question::SlotBotDynamicPrefix => true,
        Question::PfpSwitcher => true,
        Question::Giveaway => true,
        Question::AutoDelete => true,
        _ => false,
    }
}

impl Wizard {
    /// The set-up before its first question.
    pub fn start() -> (wizard: Wizard)
        ensures
            wizard == (Wizard { question: Question::NsfwLevel, choices: default_choices() }),
    {
        Wizard {
            question: Question::NsfwLevel,
            choices: Choices {
                global_nsfw_level: 1,
                is_male: true,
                nitrosniper: false,
                send_embeds: false,
                slotbot_enabled: false,
                slotbot_dynamic_prefix: false,
                slotbot_mode: 0,
                pfp_switcher: PfpSwitcher { enabled: false, delay: 45, mode: 0 },
                giveaway: GiveawayConfig { enabled: false, delay: 120 },
                autodelete: AutoDeleteConfig { enabled: false, delay: 10 },
            },
        }
    }

    /// Takes an answer to the open question.
    pub fn answer(self, input: &str) -> (progress: Progress)
        ensures
            progress == progress_of(self, input@),
    {
        let lowered: String = lowercase(input);
        self.answer_with(input, lowered.as_str())
    }

    /// Takes an answer to the open question, given beside it in lower case.
    pub fn answer_with(self, input: &str, lowered: &str) -> (progress: Progress)
        ensures
            progress == match (if self.question == Question::Gender {
                match gender_of(lowered@) {
                    Some(yes) => Some(with_choice(self.choices, self.question, yes)),
                    None => None,
                }
            } else {
                answered(self.choices, self.question, input@)
            }) {
                None => Progress::Again(self),
                Some(choices) => match following(self.question, choices) {
                    Some(question) => Progress::Next(Wizard { question, choices }),
                    None => Progress::Done(choices),
                },
            },
    {
        let question: Question = self.question;
        let accepted: Option<Choices> = if question == Question::Gender {
            match accept_gender(lowered) {
                Some(yes) => Some(record_choice(self.choices, question, yes)),
                None => None,
            }
        } else if takes_choice(question) {
            match accept_choice(input) {
                Some(yes) => Some(record_choice(self.choices, question, yes)),
                None => None,
            }
        } else {
            let (low, high) = bounds(question);
            match accept_number(input, low, high) {
                Some(n) => Some(record_number(self.choices, question, n)),
                None => None,
            }
        };
        match accepted {
            None => Progress::Again(self),
            Some(choices) => match next_question(question, &choices) {
                Some(next) => Progress::Next(Wizard { question: next, choices }),
                None => Progress::Done(choices),
            },
        }
    }
}

/// The settings of the client.
#[derive(Debug)]
pub struct Settings {
    pub user_token: String,
    pub command_prefix: String,
    pub global_nsfw_level: u8,
    pub is_male: bool,
    pub send_embeds: bool,
    pub emoteserver: u64,
    pub nitrosniper: bool,
    pub pfp_switcher: PfpSwitcher,
    pub giveaway: GiveawayConfig,
    pub autodelete: AutoDeleteConfig,
    pub slotbot: SlotBotConfig,
}

/// Puts the settings together from the token, the command prefix and the
/// choices of the set-up. No emote server is known yet and no guild is
/// listed for the wallet drops.
pub fn assemble(user_token: String, command_prefix: String, choices: Choices) -> (settings: Settings)
    ensures
        settings.user_token@ == user_token@,
        settings.command_prefix@ == command_prefix@,
        settings.global_nsfw_level == choices.global_nsfw_level,
        settings.is_male == choices.is_male,
        settings.send_embeds == choices.send_embeds,
        settings.emoteserver == 0,
        settings.nitrosniper == choices.nitrosniper,
        settings.pfp_switcher == choices.pfp_switcher,
        settings.giveaway == choices.giveaway,
        settings.autodelete == choices.autodelete,
        settings.slotbot.enabled == choices.slotbot_enabled,
        settings.slotbot.dynamic_prefix == choices.slotbot_dynamic_prefix,
        settings.slotbot.mode == choices.slotbot_mode,
        settings.slotbot.whitelisted_guilds@ == Seq::<u64>::empty(),
        settings.slotbot.blacklisted_guilds@ == Seq::<u64>::empty(),
{
    Settings {
        user_token,
        command_prefix,
        global_nsfw_level: choices.global_nsfw_level,
        is_male: choices.is_male,
        send_embeds: choices.send_embeds,
        emoteserver: 0,
        nitrosniper: choices.nitrosniper,
        pfp_switcher: choices.pfp_switcher,
        giveaway: choices.giveaway,
        autodelete: choices.autodelete,
        slotbot: SlotBotConfig {
            enabled: choices.slotbot_enabled,
            dynamic_prefix: choices.slotbot_dynamic_prefix,
            mode: choices.slotbot_mode,
            whitelisted_guilds: Vec::new(),
            blacklisted_guilds: Vec::new(),
        },
    }
}

/// What went wrong with the settings file before its text could be read.
#[derive(Clone, Copy, Debug, PartialEq, Eq, Structural)]
pub enum FileStage {
    Opening,
    Reading,
}

/// The message for a settings file that could not be opened or read: a
/// missing file has a message of its own, every other failure is shown with
/// what the system said.
pub open spec fn file_failure_text(stage: FileStage, missing: bool, why: Seq<char>) -> Seq<char> {
    if missing {
        "Unable to find 'config.toml', copy 'config.toml.bak' and setup config"@
    } else if stage == FileStage::Opening {
        "Unknown error occured while opening 'config.toml'\n[Config] "@ + why
    } else {
        "Unknown error occured while opening 'config.toml'.\n[Config] "@ + why
    }
}

/// Writes the message for a settings file that could not be opened or read.
pub fn file_failure(stage: FileStage, missing: bool, why: &str) -> (message: String)
    ensures
        message@ == file_failure_text(stage, missing, why@),
{
    if missing {
        String::from_str("Unable to find 'config.toml', copy 'config.toml.bak' and setup config")
    } else {
        let mut message: String = match stage {
            FileStage::Opening => String::from_str(
                "Unknown error occured while opening 'config.toml'\n[Config] ",
            ),
            FileStage::Reading => String::from_str(
                "Unknown error occured while opening 'config.toml'.\n[Config] ",
            ),
        };
        message.append(why);
        message
    }
}

} // verus!
