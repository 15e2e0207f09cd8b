//! The notices that answer a command which could not be run.

use vstd::prelude::*;
use vstd::string::*;
use crate::emote::Mode;
use crate::message::{empty_message, MessageCreator, MessageView};
use crate::text::{decimal, decimal_string, text_equal};

verus! {

/// Why the dispatcher did not run a command.
#[derive(Debug)]
pub enum DispatchProblem {
    /// The command may be used again after this many seconds.
    Ratelimited { seconds: u64 },
    /// A check refused the command; a check that the user may hear about
    /// gives its reason.
    CheckFailed { reason: Option<String> },
    /// More arguments than the command takes.
    TooManyArguments { max: u16, given: usize },
    /// Fewer arguments than the command needs.
    NotEnoughArguments { min: u16, given: usize },
    /// Anything else.
    Other,
}

/// The description of an error notice with the given title and body.
pub open spec fn error_notice(title: Seq<char>, content: Seq<char>) -> MessageView {
    MessageView { mode: Mode::Error, title: Some(title), content: Some(content), ..empty_message() }
}

/// How `{:?}` writes a text: between double quotes, with what cannot stand
/// there as it is written as an escape.
pub uninterp spec fn quoted_text(text: Seq<char>) -> Seq<char>;

/// Writes a text with std's `Debug` formatting of `str`. The contract only
/// names the result.
#[verifier::external_body]
fn quote_text(text: &str) -> (quoted: String)
    ensures
        quoted@ == quoted_text(text@),
{
    format!("{:?}", text)
}

/// What a failed check tells the user, by the check's reason: the two
/// content filters each name the command that lifts them, and every other
/// reason is shown as it is, with a request to report it.
pub open spec fn check_failure_text(reason: Seq<char>) -> Seq<char> {
    if reason == "nsfw_moderate"@ {
        "This channel is not marked as NSFW and you've specified a NSFW image.\nThis can be overriden by executing `nsfwfilter 1`"@
    } else if reason == "nsfw_strict"@ {
        "This channel is not marked as NSFW and you've specified a NSFW image.\nThis can be overriden by executing `nsfwfilter 2`"@
    } else {
        "Undocumted error, please report this to L3af#0001\nError: `"@ + quoted_text(reason)
            + "``"@
    }
}

/// Writes what a failed check tells the user.
pub fn check_failure_message(reason: &str) -> (text: String)
    ensures
        text@ == check_failure_text(reason@),
{
    if text_equal(reason, "nsfw_moderate") {
        String::from_str(
            "This channel is not marked as NSFW and you've specified a NSFW image.\nThis can be overriden by executing `nsfwfilter 1`",
        )
    } else if text_equal(reason, "nsfw_strict") {
        String::from_str(
            "This channel is not marked as NSFW and you've specified a NSFW image.\nThis can be overriden by executing `nsfwfilter 2`",
        )
    } else {
        let quoted: String = quote_text(reason);
        unknown_check_failure(quoted.as_str())
    }
}

/// Writes the notice for a reason that has no text of its own, given the
/// reason between quotes.
pub fn unknown_check_failure(quoted: &str) -> (text: String)
    ensures
        text@ == "Undocumted error, please report this to L3af#0001\nError: `"@ + quoted@ + "``"@,
{
    let mut text: String = String::from_str(
        "Undocumted error, please report this to L3af#0001\nError: `",
    );
    text.append(quoted);
    text.append("``");
    text
}

/// The body of the notice on a wrong number of arguments.
pub open spec fn argument_count_text(lead: Seq<char>, limit: nat, given: nat) -> Seq<char> {
    lead + decimal(limit) + ", Given: "@ + decimal(given)
}

fn argument_count_message(lead: &str, limit: u64, given: u64) -> (text: String)
    ensures
        text@ == argument_count_text(lead@, limit as nat, given as nat),
{
    let mut text: String = String::from_str(lead);
    let first: String = decimal_string(limit);
    text.append(first.as_str());
    text.append(", Given: ");
    let second: String = decimal_string(given);
    text.append(second.as_str());
    text
}

/// The notice that answers a dispatch problem, if the user is told of it:
/// always an error notice.
pub open spec fn notice_for(problem: DispatchProblem) -> Option<MessageView> {
    match problem {
        DispatchProblem::Ratelimited { seconds } => Some(
            error_notice(
                "Ratelimit"@,
                "Try this again in "@ + decimal(seconds as nat) + " seconds."@,
            ),
        ),
        DispatchProblem::CheckFailed { reason: Some(reason) } => Some(
            error_notice("Error"@, check_failure_text(reason@)),
        ),
        DispatchProblem::CheckFailed { reason: None } => None,
        DispatchProblem::TooManyArguments { max, given } => Some(
            error_notice(
                "Error"@,
                argument_count_text("Too many args given!\nMaximum: "@, max as nat, given as nat),
            ),
        ),
        DispatchProblem::NotEnoughArguments { min, given } => Some(
            error_notice(
                "Error"@,
                argument_count_text("To few args given!\nMinimum: "@, min as nat, given as nat),
            ),
        ),
        DispatchProblem::Other => None,
    }
}

/// The view of an optional description.
pub open spec fn optional_message_view(message: Option<MessageCreator>) -> Option<MessageView> {
    match message {
        Some(m) => Some(m@),
        None => None,
    }
}

fn error_message(title: &str, content: &str) -> (message: MessageCreator)
    ensures
        message@ == error_notice(title@, content@),
{
    let mut message = MessageCreator::new();
    message.error().title(title).content(content);
    message
}

/// Describes the notice that answers a dispatch problem.
pub fn dispatch_notice(problem: &DispatchProblem) -> (notice: Option<MessageCreator>)
    ensures
        optional_message_view(notice) == notice_for(*problem),
{
    match problem {
        DispatchProblem::Ratelimited { seconds } => {
            let mut content: String = String::from_str("Try this again in ");
            let number: String = decimal_string(*seconds);
            content.append(number.as_str());
            content.append(" seconds.");
            Some(error_message("Ratelimit", content.as_str()))
        },
        DispatchProblem::CheckFailed { reason: Some(reason) } => {
            let content: String = check_failure_message(reason.as_str());
            Some(error_message("Error", content.as_str()))
        },
        DispatchProblem::CheckFailed { reason: None } => None,
        DispatchProblem::TooManyArguments { max, given } => {
            let content: String = argument_count_message(
                "Too many args given!\nMaximum: ",
                *max as u64,
                *given as u64,
            );
            Some(error_message("Error", content.as_str()))
        },
        DispatchProblem::NotEnoughArguments { min, given } => {
            let content: String = argument_count_message(
                "To few args given!\nMinimum: ",
                *min as u64,
                *given as u64,
            );
            Some(error_message("Error", content.as_str()))
        },
        DispatchProblem::Other => None,
    }
}

/// What is done around a command that a message asks for.
#[derive(Clone, Copy, Debug, PartialEq, Eq, Structural)]
pub struct InvocationPlan {
    /// Whether the command runs: only the client's own account gives
    /// commands.
    pub run: bool,
    /// Whether the message is deleted before the command runs: where it
    /// runs and carries no file.
    pub delete_before: bool,
    /// Whether the message is deleted after the command has run: where it
    /// carries a file, which the command may still need.
    pub delete_after: bool,
}

/// Plans what is done around a command, by the author of the message, the
/// client's own account and the number of files on the message.
pub fn plan_invocation(author: u64, own: u64, attachments: usize) -> (plan: InvocationPlan)
    ensures
        plan == (InvocationPlan {
            run: author == own,
            delete_before: author == own && attachments == 0,
            delete_after: author == own && attachments > 0,
        }),
{
    let run: bool = author == own;
    InvocationPlan {
        run,
        delete_before: run && attachments == 0,
        delete_after: run && attachments > 0,
    }
}

} // verus!
