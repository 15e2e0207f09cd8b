//! The command reference: one section of markdown for every command of
//! every group, sub-commands after the command they belong to.

use vstd::prelude::*;
use vstd::string::*;
use crate::text::{
    join_texts, join_with, lowercase, lowercase_of, texts, trim_of, trimmed, uppercase,
    uppercase_of,
};

verus! {

/// Where a command may be used.
#[derive(Clone, Copy, Debug, PartialEq, Eq, Structural)]
pub enum OnlyIn {
    Dm,
    Guild,
    Anywhere,
    Other,
}

/// What the reference says of one command.
#[derive(Debug)]
pub struct CommandDoc {
    /// The name, then the aliases.
    pub names: Vec<String>,
    pub desc: Option<String>,
    pub usage: Option<String>,
    pub examples: Vec<String>,
    pub sub_commands: Vec<CommandDoc>,
    pub only_in: OnlyIn,
}

/// A named group of commands.
#[derive(Debug)]
pub struct GroupDoc {
    pub name: String,
    pub commands: Vec<CommandDoc>,
}

/// A text with its first character in upper case and the rest in lower
/// case; the empty text stays empty.
pub open spec fn titlized(text: Seq<char>) -> Seq<char> {
    if text.len() == 0 {
        text
    } else {
        uppercase_of(text.subrange(0, 1)) + lowercase_of(text.subrange(1, text.len() as int))
    }
}

/// Writes a text with its first character in upper case and the rest in
/// lower case.
pub fn titlize(text: &str) -> (title: String)
    ensures
        title@ == titlized(text@),
{
    let n: usize = text.unicode_len();
    if n == 0 {
        String::from_str(text)
    } else {
        let mut title: String = uppercase(text.substring_char(0, 1));
        let rest: String = lowercase(text.substring_char(1, n));
        title.append(rest.as_str());
        title
    }
}

/// The name of a command: the first of its names, or `Unknown` where it has
/// none.
pub open spec fn first_name(command: CommandDoc) -> Seq<char> {
    if command.names@.len() > 0 {
        command.names@[0]@
    } else {
        "Unknown"@
    }
}

/// The full name of a command below `parent`: the parent's full name, a
/// space, and the command's own name as a title, without white space at
/// the ends.
pub open spec fn full_name(parent: Seq<char>, command: CommandDoc) -> Seq<char> {
    trim_of(parent + " "@ + titlized(first_name(command)))
}

/// The words for where a command may be used.
pub open spec fn only_in_text(only_in: OnlyIn) -> Seq<char> {
    match only_in {
        OnlyIn::Dm => "DMs"@,
        OnlyIn::Guild => "Guilds"@,
        OnlyIn::Anywhere => "DMs and Guilds"@,
        OnlyIn::Other => "Unknown"@,
    }
}

/// The line of aliases, where a command has more than one name.
pub open spec fn aliases_text(names: Seq<Seq<char>>) -> Seq<char> {
    if names.len() >= 2 {
        "- Aliases: `"@ + join_with(names.subrange(1, names.len() as int), "`, `"@) + "`"@
    } else {
        Seq::empty()
    }
}

/// The line of usage, where a command has one.
pub open spec fn usage_text(lower_name: Seq<char>, usage: Option<String>) -> Seq<char> {
    match usage {
        Some(u) => "\n- Usage: `"@ + lower_name + " "@ + u@ + "`"@,
        None => Seq::empty(),
    }
}

/// The lines of examples, where a command has any: each example after the
/// command's name.
pub open spec fn examples_text(lower_name: Seq<char>, examples: Seq<Seq<char>>) -> Seq<char> {
    if examples.len() > 0 {
        "\n- Examples:\n  - `"@ + lower_name + " "@ + join_with(
            examples,
            "`\n  - `"@ + lower_name + " "@,
        ) + "`"@
    } else {
        Seq::empty()
    }
}

/// The link to the section of a sub-command, given the lower-case forms of
/// the parent's name and of its own.
pub open spec fn link_text(name: Seq<char>, lower_parent: Seq<char>, lower_name: Seq<char>) -> Seq<
    char,
> {
    "["@ + name + "](#"@ + lower_parent + lower_name + ")"@
}

/// The links to the sections of the sub-commands, in order.
pub open spec fn sub_links(parent: Seq<char>, subs: Seq<CommandDoc>) -> Seq<Seq<char>> {
    Seq::new(
        subs.len(),
        |i: int|
            link_text(
                first_name(subs[i]),
                lowercase_of(parent),
                lowercase_of(first_name(subs[i])),
            ),
    )
}

/// The line of sub-commands, where there are links to any.
pub open spec fn subs_text(links: Seq<Seq<char>>) -> Seq<char> {
    if links.len() > 0 {
        "\n- Subcommands: "@ + join_with(links, ", "@)
    } else {
        Seq::empty()
    }
}

/// The list below the description of a command, given the command's full
/// name in lower case and the links to its sub-commands: aliases, usage,
/// examples, sub-commands, and where the command may be used.
pub open spec fn details_from(
    lower_name: Seq<char>,
    links: Seq<Seq<char>>,
    command: CommandDoc,
) -> Seq<char> {
    aliases_text(texts(command.names@)) + usage_text(lower_name, command.usage) + examples_text(
        lower_name,
        texts(command.examples@),
    ) + subs_text(links) + "\n- In: "@ + only_in_text(command.only_in)
}

/// The list below the description of a command, before it is trimmed.
pub open spec fn details_text(parent: Seq<char>, command: CommandDoc) -> Seq<char> {
    details_from(
        lowercase_of(full_name(parent, command)),
        sub_links(parent, command.sub_commands@),
        command,
    )
}

/// The description of a command after its heading, where it has one.
pub open spec fn desc_text(desc: Option<String>) -> Seq<char> {
    match desc {
        Some(d) => "\n\n"@ + d@,
        None => Seq::empty(),
    }
}

/// A section, given the command's full name and its trimmed details:
/// heading, description, details.
pub open spec fn section_from(full: Seq<char>, desc: Option<String>, shown: Seq<char>) -> Seq<
    char,
> {
    "\n\n### "@ + full + desc_text(desc) + "\n\n"@ + shown
}

/// The section of a command without those of its sub-commands.
pub open spec fn section_text(parent: Seq<char>, command: CommandDoc) -> Seq<char> {
    section_from(
        full_name(parent, command),
        command.desc,
        trim_of(details_text(parent, command)),
    )
}

/// The section of a command below `parent`, followed by the sections of its
/// sub-commands, which stand below the command's full name.
pub open spec fn command_text(parent: Seq<char>, command: CommandDoc) -> Seq<char>
    decreases command,
{
    section_text(parent, command) + commands_text(
        full_name(parent, command),
        command.sub_commands@,
    )
}

/// The sections of a list of commands below `parent`, one after the other.
pub open spec fn commands_text(parent: Seq<char>, commands: Seq<CommandDoc>) -> Seq<char>
    decreases commands,
{
    if commands.len() == 0 {
        Seq::empty()
    } else {
        commands_text(parent, commands.drop_last()) + command_text(parent, commands.last())
    }
}

fn command_first_name(command: &CommandDoc) -> (name: &str)
    ensures
        name@ == first_name(*command),
{
    if command.names.len() > 0 {
        command.names[0].as_str()
    } else {
        "Unknown"
    }
}

/// Writes the link to the section of a sub-command.
pub fn write_link(name: &str, lower_parent: &str, lower_name: &str) -> (link: String)
    ensures
        link@ == link_text(name@, lower_parent@, lower_name@),
{
    let mut link: String = String::from_str("[");
    link.append(name);
    link.append("](#");
    link.append(lower_parent);
    link.append(lower_name);
    link.append(")");
    link
}

fn write_sub_links(parent: &str, subs: &Vec<CommandDoc>) -> (links: Vec<String>)
    ensures
        texts(links@) == sub_links(parent@, subs@),
{
    let lower_parent: String = lowercase(parent);
    let mut links: Vec<String> = Vec::new();
    let mut i: usize = 0;
    while i < subs.len()
        invariant
            i <= subs.len(),
            links@.len() == i,
            lower_parent@ == lowercase_of(parent@),
            forall|j: int|
                0 <= j < i ==> (#[trigger] links@[j])@ == link_text(
                    first_name(subs@[j]),
                    lowercase_of(parent@),
                    lowercase_of(first_name(subs@[j])),
                ),
        decreases subs.len() - i,
    {
        let name: &str = command_first_name(&subs[i]);
        let lower_name: String = lowercase(name);
        links.push(write_link(name, lower_parent.as_str(), lower_name.as_str()));
        i = i + 1;
    }
    assert(texts(links@) =~= sub_links(parent@, subs@));
    links
}

/// Writes the list below the description of a command, given the
/// command's full name in lower case and the links to its sub-commands.
pub fn write_details(lower: &str, links: &Vec<String>, command: &CommandDoc) -> (details: String)
    ensures
        details@ == details_from(lower@, texts(links@), *command),
{
    let mut details: String = String::new();
    if command.names.len() >= 2 {
        details.append("- Aliases: `");
        let aliases: String = join_texts(&command.names, 1, "`, `");
        details.append(aliases.as_str());
        details.append("`");
    }
    assert(details@ =~= aliases_text(texts(command.names@)));
    if let Some(usage) = &command.usage {
        details.append("\n- Usage: `");
        details.append(lower);
        details.append(" ");
        details.append(usage.as_str());
        details.append("`");
    }
    assert(details@ =~= aliases_text(texts(command.names@)) + usage_text(lower@, command.usage));
    if command.examples.len() > 0 {
        let mut between: String = String::from_str("`\n  - `");
        between.append(lower);
        between.append(" ");
        let examples: String = join_texts(&command.examples, 0, between.as_str());
        assert(texts(command.examples@).subrange(0, command.examples.len() as int) =~= texts(
            command.examples@,
        ));
        details.append("\n- Examples:\n  - `");
        details.append(lower);
        details.append(" ");
        details.append(examples.as_str());
        details.append("`");
    }
    assert(details@ =~= aliases_text(texts(command.names@)) + usage_text(lower@, command.usage)
        + examples_text(lower@, texts(command.examples@)));
    if links.len() > 0 {
        let joined: String = join_texts(links, 0, ", ");
        assert(texts(links@).subrange(0, links.len() as int) =~= texts(links@));
        details.append("\n- Subcommands: ");
        details.append(joined.as_str());
    }
    assert(details@ =~= aliases_text(texts(command.names@)) + usage_text(lower@, command.usage)
        + examples_text(lower@, texts(command.examples@)) + subs_text(texts(links@)));
    details.append("\n- In: ");
    details.append(
        match command.only_in {
            OnlyIn::Dm => "DMs",
            OnlyIn::Guild => "Guilds",
            OnlyIn::Anywhere => "DMs and Guilds",
            OnlyIn::Other => "Unknown",
        },
    );
    assert(details@ =~= details_from(lower@, texts(links@), *command));
    details
}

/// Writes a section, given the command's full name and its trimmed
/// details.
pub fn write_section(full: &str, desc: &Option<String>, shown: &str) -> (section: String)
    ensures
        section@ == section_from(full@, *desc, shown@),
{
    let mut section: String = String::from_str("\n\n### ");
    section.append(full);
    if let Some(text) = desc {
        section.append("\n\n");
        section.append(text.as_str());
    }
    section.append("\n\n");
    section.append(shown);
    section
}

/// Writes the section of a command below `parent` and the sections of its
/// sub-commands.
pub fn format_command(parent: &str, command: &CommandDoc) -> (output: String)
    ensures
        output@ == command_text(parent@, *command),
    decreases command,
{
    let mut name: String = String::from_str(parent);
    name.append(" ");
    let title: String = titlize(command_first_name(command));
    name.append(title.as_str());
    let full: String = trimmed(name.as_str());

    let lower: String = lowercase(full.as_str());
    let links: Vec<String> = write_sub_links(parent, &command.sub_commands);
    let details: String = write_details(lower.as_str(), &links, command);
    let shown: String = trimmed(details.as_str());
    let mut output: String = write_section(full.as_str(), &command.desc, shown.as_str());
    assert(output@ == section_text(parent@, *command));

    let mut i: usize = 0;
    while i < command.sub_commands.len()
        invariant
            i <= command.sub_commands.len(),
            full@ == full_name(parent@, *command),
            output@ == section_text(parent@, *command) + commands_text(
                full@,
                command.sub_commands@.subrange(0, i as int),
            ),
        decreases command.sub_commands.len() - i,
    {
        let sub: String = format_command(full.as_str(), &command.sub_commands[i]);
        output.append(sub.as_str());
        proof {
            let longer = command.sub_commands@.subrange(0, i + 1);
            assert(longer.drop_last() =~= command.sub_commands@.subrange(0, i as int));
            assert(longer.last() == command.sub_commands@[i as int]);
            assert(output@ =~= section_text(parent@, *command) + commands_text(full@, longer));
        }
        i = i + 1;
    }
    assert(command.sub_commands@.subrange(0, command.sub_commands.len() as int)
        =~= command.sub_commands@);
    output
}

/// The part of the reference on the commands of one group: each command's
/// sections, trimmed, after two line feeds.
pub open spec fn group_commands_text(commands: Seq<CommandDoc>) -> Seq<char>
    decreases commands.len(),
{
    if commands.len() == 0 {
        Seq::empty()
    } else {
        group_commands_text(commands.drop_last()) + "\n\n"@ + trim_of(
            command_text(Seq::empty(), commands.last()),
        )
    }
}

/// The part of the reference on one group: its heading and its commands.
pub open spec fn group_text(group: GroupDoc) -> Seq<char> {
    "\n\n\n## "@ + titlized(group.name@) + group_commands_text(group.commands@)
}

/// The parts of the reference on the groups, one after the other.
pub open spec fn groups_text(groups: Seq<GroupDoc>) -> Seq<char>
    decreases groups.len(),
{
    if groups.len() == 0 {
        Seq::empty()
    } else {
        groups_text(groups.drop_last()) + group_text(groups.last())
    }
}

/// The whole reference: the groups, trimmed, and the closing note.
pub open spec fn reference_text(groups: Seq<GroupDoc>, note: Seq<char>) -> Seq<char> {
    trim_of(groups_text(groups)) + "\n\n"@ + note + "\n"@
}

fn write_group(group: &GroupDoc) -> (output: String)
    ensures
        output@ == group_text(*group),
{
    let mut output: String = String::from_str("\n\n\n## ");
    let title: String = titlize(group.name.as_str());
    output.append(title.as_str());
    let mut i: usize = 0;
    while i < group.commands.len()
        invariant
            i <= group.commands.len(),
            output@ == "\n\n\n## "@ + titlized(group.name@) + group_commands_text(
                group.commands@.subrange(0, i as int),
            ),
        decreases group.commands.len() - i,
    {
        let sections: String = format_command("", &group.commands[i]);
        let shown: String = trimmed(sections.as_str());
        output.append("\n\n");
        output.append(shown.as_str());
        proof {
            reveal_strlit("");
            assert(""@ =~= Seq::<char>::empty());
            let longer = group.commands@.subrange(0, i + 1);
            assert(longer.drop_last() =~= group.commands@.subrange(0, i as int));
            assert(longer.last() == group.commands@[i as int]);
            assert(output@ =~= "\n\n\n## "@ + titlized(group.name@) + group_commands_text(longer));
        }
        i = i + 1;
    }
    assert(group.commands@.subrange(0, group.commands.len() as int) =~= group.commands@);
    output
}

/// Writes the command reference of the given groups, closed by `note`.
pub fn commands_to_md(groups: &Vec<GroupDoc>, note: &str) -> (output: String)
    ensures
        output@ == reference_text(groups@, note@),
{
    let mut body: String = String::new();
    let mut i: usize = 0;
    while i < groups.len()
        invariant
            i <= groups.len(),
            body@ == groups_text(groups@.subrange(0, i as int)),
        decreases groups.len() - i,
    {
        let part: String = write_group(&groups[i]);
        body.append(part.as_str());
        proof {
            let longer = groups@.subrange(0, i + 1);
            assert(longer.drop_last() =~= groups@.subrange(0, i as int));
            assert(longer.last() == groups@[i as int]);
        }
        i = i + 1;
    }
    assert(groups@.subrange(0, groups.len() as int) =~= groups@);
    let mut output: String = trimmed(body.as_str());
    output.append("\n\n");
    output.append(note);
    output.append("\n");
    output
}

} // verus!
