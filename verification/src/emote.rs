//! Severity modes and the glyph that decorates a message of each mode.

use vstd::prelude::*;
use vstd::string::*;
use crate::text::{decimal, decimal_string, text_equal};

verus! {

/// The tone of a message. It picks the glyph before the body and the colour
/// of a rich embed.
#[derive(Clone, Copy, Debug, PartialEq, Eq, Structural)]
pub enum Mode {
    Default,
    Loading,
    Success,
    Info,
    Warning,
    Error,
}

/// The mode that a numeric code stands for. Codes above 4 all mean `Error`,
/// so that a code this library does not know still renders.
pub open spec fn mode_of_code(code: u64) -> Mode {
    if code == 0 {
        Mode::Default
    } else if code == 1 {
        Mode::Loading
    } else if code == 2 {
        Mode::Success
    } else if code == 3 {
        Mode::Info
    } else if code == 4 {
        Mode::Warning
    } else {
        Mode::Error
    }
}

/// The name under which a mode's custom emote is registered. `Default` has
/// no emote and shares the name of `Error`, which is never looked up for it.
pub open spec fn emote_name(mode: Mode) -> Seq<char> {
    match mode {
        Mode::Loading => "loading"@,
        Mode::Success => "response_success"@,
        Mode::Info => "response_info"@,
        Mode::Warning => "response_warning"@,
        _ => "response_error"@,
    }
}

/// The text that stands in for a mode's emote where none is registered.
pub open spec fn fallback_label(mode: Mode) -> Seq<char> {
    match mode {
        Mode::Loading => "Loading: "@,
        Mode::Success => "Success: "@,
        Mode::Info => "Info: "@,
        Mode::Warning => "Warning: "@,
        _ => "Error: "@,
    }
}

impl Mode {
    /// Reads a numeric mode code.
    pub fn from_code(code: u64) -> (mode: Mode)
        ensures
            mode == mode_of_code(code),
    {
        if code == 0 {
            Mode::Default
        } else if code == 1 {
            Mode::Loading
        } else if code == 2 {
            Mode::Success
        } else if code == 3 {
            Mode::Info
        } else if code == 4 {
            Mode::Warning
        } else {
            Mode::Error
        }
    }

    /// The registered name of this mode's emote.
    pub fn emote_name(self) -> (name: &'static str)
        ensures
            name@ == emote_name(self),
    {
        match self {
            Mode::Loading => "loading",
            Mode::Success => "response_success",
            Mode::Info => "response_info",
            Mode::Warning => "response_warning",
            _ => "response_error",
        }
    }

    /// The text label of this mode.
    pub fn fallback_label(self) -> (label: &'static str)
        ensures
            label@ == fallback_label(self),
    {
        match self {
            Mode::Loading => "Loading: ",
            Mode::Success => "Success: ",
            Mode::Info => "Info: ",
            Mode::Warning => "Warning: ",
            _ => "Error: ",
        }
    }
}

/// A custom emote of the platform.
#[derive(Debug)]
pub struct Emote {
    pub name: String,
    pub id: u64,
    pub url: String,
    pub animated: bool,
}

/// What an [`Emote`] holds, as plain values.
pub struct EmoteView {
    pub name: Seq<char>,
    pub id: u64,
    pub url: Seq<char>,
    pub animated: bool,
}

impl View for Emote {
    type V = EmoteView;

    open spec fn view(&self) -> EmoteView {
        EmoteView { name: self.name@, id: self.id, url: self.url@, animated: self.animated }
    }
}

impl Clone for Emote {
    fn clone(&self) -> (copy: Emote)
        ensures
            copy@ == self@,
    {
        Emote {
            name: self.name.clone(),
            id: self.id,
            url: self.url.clone(),
            animated: self.animated,
        }
    }
}

impl PartialEq for Emote {
    /// Two emotes are the same emote when their identifiers agree.
    fn eq(&self, other: &Emote) -> (same: bool) {
        self.id == other.id
    }
}

impl vstd::std_specs::cmp::PartialEqSpecImpl for Emote {
    open spec fn obeys_eq_spec() -> bool {
        true
    }

    open spec fn eq_spec(&self, other: &Emote) -> bool {
        self.id == other.id
    }
}

/// The emote that a stored pair of name and identifier stands for. The
/// store keeps no address and no flag: the emote named `loading` is the
/// animated one.
pub fn stored_emote(name: &str, id: u64) -> (emote: Emote)
    ensures
        emote@ == (EmoteView {
            name: name@,
            id,
            url: Seq::<char>::empty(),
            animated: name@ == "loading"@,
        }),
{
    Emote {
        name: String::from_str(name),
        id,
        url: String::new(),
        animated: text_equal(name, "loading"),
    }
}

/// The inline token that shows a custom emote in a message. An animated
/// emote has an `a` after the opening bracket.
pub open spec fn emote_token(name: Seq<char>, id: u64, animated: bool) -> Seq<char> {
    if animated {
        "<a:"@ + name + ":"@ + decimal(id as nat) + "> "@
    } else {
        "<:"@ + name + ":"@ + decimal(id as nat) + "> "@
    }
}

/// The first entry of `entries` registered under `name`.
pub open spec fn find_emote(entries: Seq<EmoteView>, name: Seq<char>) -> Option<EmoteView>
    decreases entries.len(),
{
    if entries.len() == 0 {
        None
    } else if entries[0].name == name {
        Some(entries[0])
    } else {
        find_emote(entries.drop_first(), name)
    }
}

/// The glyph of a mode and whether it is a custom emote: nothing for
/// `Default`, the token of the registered emote where there is one, else the
/// mode's text label.
pub open spec fn resolve_glyph(mode: Mode, entries: Seq<EmoteView>) -> (Seq<char>, bool) {
    if mode == Mode::Default {
        (Seq::empty(), false)
    } else {
        match find_emote(entries, emote_name(mode)) {
            Some(e) => (emote_token(emote_name(mode), e.id, e.animated), true),
            None => (fallback_label(mode), false),
        }
    }
}

/// The custom emotes that the client may use, by name.
#[derive(Debug)]
pub struct EmoteTable {
    entries: Vec<Emote>,
}

impl View for EmoteTable {
    type V = Seq<EmoteView>;

    closed spec fn view(&self) -> Seq<EmoteView> {
        self.entries@.map_values(|e: Emote| e@)
    }
}

impl Clone for EmoteTable {
    fn clone(&self) -> (copy: EmoteTable)
        ensures
            copy@ == self@,
    {
        let mut entries: Vec<Emote> = Vec::new();
        let mut i: usize = 0;
        while i < self.entries.len()
            invariant
                i <= self.entries.len(),
                entries@.len() == i,
                forall|j: int| 0 <= j < i ==> (#[trigger] entries@[j])@ == self.entries@[j]@,
            decreases self.entries.len() - i,
        {
            entries.push(self.entries[i].clone());
            i = i + 1;
        }
        let copy = EmoteTable { entries };
        assert(copy@ =~= self@);
        copy
    }
}

impl EmoteTable {
    /// A table without entries.
    pub fn new() -> (table: EmoteTable)
        ensures
            table@ == Seq::<EmoteView>::empty(),
    {
        let table = EmoteTable { entries: Vec::new() };
        assert(table@ =~= Seq::<EmoteView>::empty());
        table
    }

    /// The number of registered emotes.
    pub fn len(&self) -> (n: usize)
        ensures
            n == self@.len(),
    {
        self.entries.len()
    }

    /// Registers `emote` under its name. An entry of that name is replaced
    /// in its place; a new name goes to the end.
    pub fn insert(&mut self, emote: Emote)
        ensures
            final(self)@ == with_emote(old(self)@, emote@),
    {
        let found: Option<usize> = self.position(emote.name.as_str());
        match found {
            Some(i) => {
                assert(i < self.entries@.len());
                self.entries[i] = emote;
                assert(self@ =~= old(self)@.update(i as int, emote@));
            },
            None => {
                self.entries.push(emote);
                assert(self@ =~= old(self)@.push(emote@));
            },
        }
    }

    /// Where the first entry of the given name stands.
    pub fn position(&self, name: &str) -> (found: Option<usize>)
        ensures
            match found {
                Some(i) => i < self@.len() && find_index(self@, name@) == Some(i as int),
                None => find_index(self@, name@) is None,
            },
    {
        let key: String = String::from_str(name);
        let mut i: usize = 0;
        while i < self.entries.len()
            invariant
                i <= self.entries.len(),
                key@ == name@,
                forall|j: int| 0 <= j < i ==> (#[trigger] self@[j]).name != name@,
            decreases self.entries.len() - i,
        {
            if self.entries[i].name == key {
                proof {
                    lemma_find_index_first(self@, name@, i as int);
                }
                return Some(i);
            }
            i = i + 1;
        }
        proof {
            lemma_find_index_none(self@, name@);
        }
        None
    }

    /// The emote registered under `name`, if there is one.
    pub fn get(&self, name: &str) -> (found: Option<&Emote>)
        ensures
            match found {
                Some(e) => find_emote(self@, name@) == Some(e@),
                None => find_emote(self@, name@) is None,
            },
    {
        let at: Option<usize> = self.position(name);
        proof {
            lemma_find_emote_by_index(self@, name@);
        }
        match at {
            Some(i) => Some(&self.entries[i]),
            None => None,
        }
    }

    /// The glyph that decorates a body of the given mode, and whether it is a
    /// custom emote. A mode without a registered emote falls back to its text
    /// label; this never fails.
    pub fn resolve(&self, mode: Mode) -> (glyph: (String, bool))
        ensures
            (glyph.0@, glyph.1) == resolve_glyph(mode, self@),
    {
        if mode == Mode::Default {
            return (String::new(), false);
        }
        let name: &'static str = mode.emote_name();
        match self.get(name) {
            Some(e) => {
                let mut token: String = String::from_str(if e.animated { "<a:" } else { "<:" });
                token.append(name);
                token.append(":");
                let digits: String = decimal_string(e.id);
                token.append(digits.as_str());
                token.append("> ");
                (token, true)
            },
            None => (String::from_str(mode.fallback_label()), false),
        }
    }
}

/// The entries after `emote` was registered: in the place of the first
/// entry of its name, or at the end where there is none.
pub open spec fn with_emote(entries: Seq<EmoteView>, emote: EmoteView) -> Seq<EmoteView> {
    match find_index(entries, emote.name) {
        Some(i) => entries.update(i, emote),
        None => entries.push(emote),
    }
}

/// A table works as a map from names to emotes: after an emote was
/// registered, its name finds it, and every other name finds what it found
/// before.
pub proof fn registered_emote_is_found(entries: Seq<EmoteView>, emote: EmoteView, name: Seq<char>)
    ensures
        find_emote(with_emote(entries, emote), name) == if name == emote.name {
            Some(emote)
        } else {
            find_emote(entries, name)
        },
    decreases entries.len(),
{
    let after = with_emote(entries, emote);
    if entries.len() == 0 {
        assert(after =~= seq![emote]);
        assert(after.drop_first() =~= Seq::<EmoteView>::empty());
        assert(find_emote(after.drop_first(), name) is None);
    } else if entries[0].name == emote.name {
        assert(after =~= entries.update(0, emote));
        assert(after.drop_first() =~= entries.drop_first());
    } else {
        let rest = entries.drop_first();
        lemma_find_emote_by_index(rest, emote.name);
        registered_emote_is_found(rest, emote, name);
        match find_index(rest, emote.name) {
            Some(i) => {
                assert(after =~= entries.update(i + 1, emote));
                assert(after.drop_first() =~= rest.update(i, emote));
            },
            None => {
                assert(after =~= entries.push(emote));
                assert(after.drop_first() =~= rest.push(emote));
            },
        }
        assert(after.drop_first() == with_emote(rest, emote));
        assert(after[0] == entries[0]);
    }
}

/// Without registered emotes every mode but `Default` shows its text label,
/// and `Default` shows nothing.
pub proof fn empty_table_gives_labels(mode: Mode)
    ensures
        resolve_glyph(mode, Seq::empty()) == if mode == Mode::Default {
            (Seq::<char>::empty(), false)
        } else {
            (fallback_label(mode), false)
        },
{
}

/// An emote registered under a mode's name is what the mode shows, as a
/// static or an animated token by the emote's own flag.
pub proof fn registered_emote_gives_token(mode: Mode, entries: Seq<EmoteView>, i: int)
    requires
        mode != Mode::Default,
        find_index(entries, emote_name(mode)) == Some(i),
    ensures
        0 <= i < entries.len(),
        resolve_glyph(mode, entries) == (
            emote_token(emote_name(mode), entries[i].id, entries[i].animated),
            true,
        ),
{
    lemma_find_emote_by_index(entries, emote_name(mode));
}

/// The index of the first entry of `entries` registered under `name`.
pub open spec fn find_index(entries: Seq<EmoteView>, name: Seq<char>) -> Option<int>
    decreases entries.len(),
{
    if entries.len() == 0 {
        None
    } else if entries[0].name == name {
        Some(0int)
    } else {
        match find_index(entries.drop_first(), name) {
            Some(i) => Some(i + 1),
            None => None,
        }
    }
}

proof fn lemma_find_index_first(entries: Seq<EmoteView>, name: Seq<char>, i: int)
    requires
        0 <= i < entries.len(),
        entries[i].name == name,
        forall|j: int| 0 <= j < i ==> (#[trigger] entries[j]).name != name,
    ensures
        find_index(entries, name) == Some(i),
    decreases entries.len(),
{
    if i > 0 {
        let rest = entries.drop_first();
        assert forall|j: int| 0 <= j < i - 1 implies (#[trigger] rest[j]).name != name by {
            assert(rest[j] == entries[j + 1]);
        }
        lemma_find_index_first(rest, name, i - 1);
    }
}

proof fn lemma_find_index_none(entries: Seq<EmoteView>, name: Seq<char>)
    requires
        forall|j: int| 0 <= j < entries.len() ==> (#[trigger] entries[j]).name != name,
    ensures
        find_index(entries, name) is None,
    decreases entries.len(),
{
    if entries.len() > 0 {
        let rest = entries.drop_first();
        assert forall|j: int| 0 <= j < rest.len() implies (#[trigger] rest[j]).name != name by {
            assert(rest[j] == entries[j + 1]);
        }
        lemma_find_index_none(rest, name);
    }
}

/// `find_emote` returns the entry at the index that `find_index` returns.
pub proof fn lemma_find_emote_by_index(entries: Seq<EmoteView>, name: Seq<char>)
    ensures
        match find_index(entries, name) {
            Some(i) => 0 <= i < entries.len() && find_emote(entries, name) == Some(entries[i]),
            None => find_emote(entries, name) is None,
        },
    decreases entries.len(),
{
    if entries.len() > 0 && entries[0].name != name {
        lemma_find_emote_by_index(entries.drop_first(), name);
    }
}

} // verus!
