use inori::docs::{
    commands_to_md, format_command, titlize, write_details, write_link, write_section,
    CommandDoc, GroupDoc, OnlyIn,
};

fn bare(names: &[&str], only_in: OnlyIn) -> CommandDoc {
    CommandDoc {
        names: names.iter().map(|n| n.to_string()).collect(),
        desc: None,
        usage: None,
        examples: Vec::new(),
        sub_commands: Vec::new(),
        only_in,
    }
}

fn ping() -> CommandDoc {
    CommandDoc {
        names: vec!["ping".to_string(), "p".to_string(), "pong".to_string()],
        desc: Some("Pong".to_string()),
        usage: Some("<x>".to_string()),
        examples: vec!["1".to_string(), "2".to_string()],
        sub_commands: vec![bare(&["sub"], OnlyIn::Guild), bare(&["OTHER"], OnlyIn::Dm)],
        only_in: OnlyIn::Anywhere,
    }
}

#[test]
fn titles_have_one_capital() {
    assert_eq!(titlize("hello"), "Hello");
    assert_eq!(titlize("HELLO wORLD"), "Hello world");
    assert_eq!(titlize("x"), "X");
    assert_eq!(titlize(""), "");
    assert_eq!(titlize("émile"), "Émile");
    assert_eq!(titlize("1abc"), "1abc");
}

#[test]
fn section_of_a_bare_command() {
    assert_eq!(format_command("", &bare(&["ping"], OnlyIn::Anywhere)), "\n\n### Ping\n\n- In: DMs and Guilds");
    assert_eq!(format_command("", &bare(&["ping"], OnlyIn::Dm)), "\n\n### Ping\n\n- In: DMs");
    assert_eq!(format_command("", &bare(&["ping"], OnlyIn::Guild)), "\n\n### Ping\n\n- In: Guilds");
    assert_eq!(format_command("", &bare(&["ping"], OnlyIn::Other)), "\n\n### Ping\n\n- In: Unknown");
}

#[test]
fn command_without_a_name_is_unknown() {
    assert_eq!(format_command("", &bare(&[], OnlyIn::Dm)), "\n\n### Unknown\n\n- In: DMs");
}

#[test]
fn section_with_every_detail_and_sub_commands() {
    assert_eq!(
        format_command("", &ping()),
        "\n\n### Ping\n\nPong\n\n- Aliases: `p`, `pong`\n- Usage: `ping <x>`\n- Examples:\n  - `ping 1`\n  - `ping 2`\n- Subcommands: [sub](#sub), [OTHER](#other)\n- In: DMs and Guilds\n\n### Ping Sub\n\n- In: Guilds\n\n### Ping Other\n\n- In: DMs"
    );
}

#[test]
fn sub_commands_stand_below_the_full_name() {
    let mut outer = bare(&["a"], OnlyIn::Anywhere);
    let mut middle = bare(&["b", "bee"], OnlyIn::Anywhere);
    middle.sub_commands.push(bare(&["c"], OnlyIn::Anywhere));
    outer.sub_commands.push(middle);
    assert_eq!(
        format_command("Top level", &outer),
        "\n\n### Top level A\n\n- Subcommands: [b](#top levelb)\n- In: DMs and Guilds\n\n### Top level A B\n\n- Aliases: `bee`\n- Subcommands: [c](#top level ac)\n- In: DMs and Guilds\n\n### Top level A B C\n\n- In: DMs and Guilds"
    );
}

#[test]
fn usage_alone_is_trimmed_to_its_line() {
    let mut c = bare(&["say"], OnlyIn::Guild);
    c.usage = Some("<text>".to_string());
    assert_eq!(format_command("", &c), "\n\n### Say\n\n- Usage: `say <text>`\n- In: Guilds");
}

#[test]
fn reference_of_groups() {
    let groups = vec![
        GroupDoc { name: "fun".to_string(), commands: vec![bare(&["ping"], OnlyIn::Dm), bare(&["roll"], OnlyIn::Guild)] },
        GroupDoc { name: "EMPTY".to_string(), commands: Vec::new() },
    ];
    assert_eq!(
        commands_to_md(&groups, "The end."),
        "## Fun\n\n### Ping\n\n- In: DMs\n\n### Roll\n\n- In: Guilds\n\n\n## Empty\n\nThe end.\n"
    );
}

#[test]
fn reference_without_groups_is_the_note() {
    assert_eq!(commands_to_md(&Vec::new(), "The end."), "\n\nThe end.\n");
}

#[test]
fn link_to_a_sub_command() {
    assert_eq!(write_link("Sub", "top ", "sub"), "[Sub](#top sub)");
    assert_eq!(write_link("", "", ""), "[](#)");
}

#[test]
fn details_from_the_lower_case_name_and_the_links() {
    let links = vec!["[a](#a)".to_string(), "[b](#b)".to_string()];
    assert_eq!(
        write_details("ping", &links, &ping()),
        "- Aliases: `p`, `pong`\n- Usage: `ping <x>`\n- Examples:\n  - `ping 1`\n  - `ping 2`\n- Subcommands: [a](#a), [b](#b)\n- In: DMs and Guilds"
    );
    assert_eq!(
        write_details("x", &Vec::new(), &bare(&["only"], OnlyIn::Guild)),
        "\n- In: Guilds"
    );
    let mut one = bare(&["a", "b"], OnlyIn::Dm);
    one.examples.push("now".to_string());
    assert_eq!(
        write_details("full name", &Vec::new(), &one),
        "- Aliases: `b`\n- Examples:\n  - `full name now`\n- In: DMs"
    );
}

#[test]
fn section_from_its_parts() {
    assert_eq!(write_section("Ping", &None, "- In: DMs"), "\n\n### Ping\n\n- In: DMs");
    assert_eq!(
        write_section("Ping", &Some("Pong".to_string()), "- In: DMs"),
        "\n\n### Ping\n\nPong\n\n- In: DMs"
    );
}
