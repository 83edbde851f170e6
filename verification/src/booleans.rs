//! Policy booleans: named on/off switches of the loaded policy.

use crate::model::{first_index_of, lemma_first_index_of, lemma_views_push, views};
use crate::pattern::{
    collected,
    group,
    group_text,
    groups_view,
    lemma_collected_step,
    matches_view,
    matching_lines,
    pattern_compiles,
    Pattern,
    PatternError,
};
use crate::text::{is_text, lines_of};
use vstd::prelude::*;
use vstd::string::*;

verus! {

/// One policy boolean as the policy tools report it.
#[derive(Debug)]
pub struct BooleanState {
    pub name: String,
    pub description: String,
    pub current_value: bool,
    pub persistent: bool,
    pub default_value: bool,
}

/// The mathematical value of a `BooleanState`.
pub struct BooleanStateView {
    pub name: Seq<char>,
    pub description: Seq<char>,
    pub current_value: bool,
    pub persistent: bool,
    pub default_value: bool,
}

impl View for BooleanState {
    type V = BooleanStateView;

    open spec fn view(&self) -> BooleanStateView {
        BooleanStateView {
            name: self.name@,
            description: self.description@,
            current_value: self.current_value,
            persistent: self.persistent,
            default_value: self.default_value,
        }
    }
}

impl Clone for BooleanState {
    fn clone(&self) -> (r: Self)
        ensures
            r@ == self@,
    {
        BooleanState {
            name: self.name.clone(),
            description: self.description.clone(),
            current_value: self.current_value,
            persistent: self.persistent,
            default_value: self.default_value,
        }
    }
}

/// The text of the command that sets boolean `name` to `value` for good.
pub open spec fn set_boolean_text(name: Seq<char>, value: bool) -> Seq<char> {
    "setsebool -P "@ + name + " "@ + (if value {
        "on"@
    } else {
        "off"@
    })
}

/// The command that sets boolean `name` to `value` for good.
pub fn set_boolean_command(name: &str, value: bool) -> (r: String)
    ensures
        r@ == set_boolean_text(name@, value),
{
    let mut r = String::from_str("setsebool -P ");
    r.append(name);
    r.append(" ");
    r.append(
        if value {
            "on"
        } else {
            "off"
        },
    );
    r
}

/// The names of the booleans, in order.
pub open spec fn boolean_names(booleans: Seq<BooleanStateView>) -> Seq<Seq<char>> {
    booleans.map_values(|b: BooleanStateView| b.name)
}

/// The booleans after the first one named `name` has got the value `value`.
/// Where none has this name they stay as they are.
pub open spec fn with_value(booleans: Seq<BooleanStateView>, name: Seq<char>, value: bool) -> Seq<
    BooleanStateView,
> {
    let i = first_index_of(boolean_names(booleans), name);
    if 0 <= i < booleans.len() {
        booleans.update(
            i,
            BooleanStateView {
                name: booleans[i].name,
                description: booleans[i].description,
                current_value: value,
                persistent: booleans[i].persistent,
                default_value: booleans[i].default_value,
            },
        )
    } else {
        booleans
    }
}

/// The booleans after each of `changes` has been made in turn.
pub open spec fn with_values(
    booleans: Seq<BooleanStateView>,
    changes: Seq<(Seq<char>, bool)>,
) -> Seq<BooleanStateView>
    decreases changes.len(),
{
    if changes.len() == 0 {
        booleans
    } else {
        let earlier = with_values(booleans, changes.drop_last());
        with_value(earlier, changes.last().0, changes.last().1)
    }
}

/// The arguments of the one `setsebool` call that makes all of `changes`.
pub open spec fn setsebool_texts(changes: Seq<(Seq<char>, bool)>) -> Seq<Seq<char>>
    decreases changes.len(),
{
    if changes.len() == 0 {
        seq!["-P"@]
    } else {
        setsebool_texts(changes.drop_last()).push(changes.last().0).push(
            if changes.last().1 {
                "on"@
            } else {
                "off"@
            },
        )
    }
}

/// The booleans that stand for the system where the interface is tried out.
pub open spec fn simulation_booleans() -> Seq<BooleanStateView> {
    seq![
        BooleanStateView {
            name: "httpd_enable_homedirs"@,
            description: "Allow httpd to read home directories"@,
            current_value: false,
            persistent: true,
            default_value: false,
        },
        BooleanStateView {
            name: "allow_ssh_keysign"@,
            description: "Allow ssh keysign operation"@,
            current_value: true,
            persistent: true,
            default_value: false,
        },
    ]
}

/// Keeps the list of the policy booleans.
#[derive(Debug, Clone)]
pub struct BooleanManager {
    pub booleans: Vec<BooleanState>,
}

impl BooleanManager {
    /// A manager without booleans.
    pub fn new() -> (r: Self)
        ensures
            r.booleans@ == Seq::<BooleanState>::empty(),
    {
        BooleanManager { booleans: Vec::new() }
    }

    /// The position of the first boolean named `name`.
    pub fn position(&self, name: &str) -> (r: Option<usize>)
        ensures
            match r {
                Some(i) => i == first_index_of(boolean_names(views(self.booleans@)), name@) && i
                    < self.booleans.len(),
                None => first_index_of(boolean_names(views(self.booleans@)), name@)
                    == self.booleans.len(),
            },
    {
        let wanted = String::from_str(name);
        let ghost names = boolean_names(views(self.booleans@));
        proof {
            lemma_first_index_of(names, name@);
        }
        let mut i: usize = 0;
        while i < self.booleans.len()
            invariant
                i <= self.booleans.len(),
                wanted@ == name@,
                names == boolean_names(views(self.booleans@)),
                forall|j: int| 0 <= j < i ==> names[j] != name@,
                0 <= first_index_of(names, name@) <= names.len(),
                forall|j: int| 0 <= j < first_index_of(names, name@) ==> names[j] != name@,
                first_index_of(names, name@) < names.len() ==> names[first_index_of(names, name@)]
                    == name@,
            decreases self.booleans.len() - i,
        {
            if self.booleans[i].name == wanted {
                assert(names[i as int] == name@);
                return Some(i);
            }
            i += 1;
        }
        None
    }

    /// Replaces the list by the booleans of the simulated system.
    pub fn load_simulation_data(&mut self)
        ensures
            views(final(self).booleans@) == simulation_booleans(),
    {
        self.booleans = vec![
            BooleanState {
                name: String::from_str("httpd_enable_homedirs"),
                description: String::from_str("Allow httpd to read home directories"),
                current_value: false,
                persistent: true,
                default_value: false,
            },
            BooleanState {
                name: String::from_str("allow_ssh_keysign"),
                description: String::from_str("Allow ssh keysign operation"),
                current_value: true,
                persistent: true,
                default_value: false,
            },
        ];
        assert(views(self.booleans@) =~= simulation_booleans());
    }

    /// Notes that the boolean `name` now has the value `value`.
    pub fn set_boolean(&mut self, name: &str, value: bool)
        ensures
            views(final(self).booleans@) == with_value(views(old(self).booleans@), name@, value),
    {
        match self.position(name) {
            Some(i) => {
                let ghost before = self.booleans@;
                self.booleans[i].current_value = value;
                assert(views(self.booleans@) =~= with_value(views(before), name@, value));
            },
            None => {},
        }
    }

    /// Notes each of `changes`, in order.
    pub fn set_booleans_persistent(&mut self, changes: &Vec<(String, bool)>)
        ensures
            views(final(self).booleans@) == with_values(
                views(old(self).booleans@),
                views(changes@),
            ),
    {
        let mut i: usize = 0;
        assert(views(changes@).take(0) =~= Seq::<(Seq<char>, bool)>::empty());
        while i < changes.len()
            invariant
                i <= changes.len(),
                views(self.booleans@) == with_values(
                    views(old(self).booleans@),
                    views(changes@).take(i as int),
                ),
            decreases changes.len() - i,
        {
            proof {
                assert(views(changes@).take(i + 1).drop_last() =~= views(changes@).take(i as int));
                assert(views(changes@).take(i + 1).last() == changes@[i as int]@);
            }
            self.set_boolean(changes[i].0.as_str(), changes[i].1);
            i += 1;
        }
        assert(views(changes@).take(changes.len() as int) =~= views(changes@));
    }

    /// The arguments of the one `setsebool` call that makes all of
    /// `changes` for good.
    pub fn setsebool_arguments(changes: &Vec<(String, bool)>) -> (r: Vec<String>)
        ensures
            views(r@) == setsebool_texts(views(changes@)),
    {
        let mut r: Vec<String> = Vec::new();
        let flag = String::from_str("-P");
        proof {
            lemma_views_push(r@, flag);
        }
        r.push(flag);
        let mut i: usize = 0;
        assert(views(changes@).take(0) =~= Seq::<(Seq<char>, bool)>::empty());
        assert(views(r@) =~= seq!["-P"@]);
        while i < changes.len()
            invariant
                i <= changes.len(),
                views(r@) == setsebool_texts(views(changes@).take(i as int)),
            decreases changes.len() - i,
        {
            proof {
                assert(views(changes@).take(i + 1).drop_last() =~= views(changes@).take(i as int));
                assert(views(changes@).take(i + 1).last() == changes@[i as int]@);
            }
            let name = changes[i].0.clone();
            let value = String::from_str(
                if changes[i].1 {
                    "on"
                } else {
                    "off"
                },
            );
            proof {
                lemma_views_push(r@, name);
                lemma_views_push(r@.push(name), value);
            }
            r.push(name);
            r.push(value);
            i += 1;
        }
        assert(views(changes@).take(changes.len() as int) =~= views(changes@));
        r
    }
}

/// The pattern of a line of the value listing: a name and its value.
pub open spec fn value_pattern() -> Seq<char> {
    "^(.*?)\\s-->\\s(on|off)$"@
}

/// The pattern of a line of the description listing: a name, its value and
/// its default, and a description.
pub open spec fn description_pattern() -> Seq<char> {
    "^(\\S+)\\s+\\((on|off)\\s*,\\s*(on|off)\\)\\s+(.*)$"@
}

/// What a match of the description pattern says of a boolean: its name, its
/// description, and whether it is on by default. A match that lacks one of
/// the groups for these says nothing.
pub open spec fn note_of_match(groups: Seq<Option<Seq<char>>>) -> Option<
    (Seq<char>, Seq<char>, bool),
> {
    match (group_text(groups, 1), group_text(groups, 2), group_text(groups, 4)) {
        (Some(name), Some(default), Some(description)) => Some(
            (name, description, default == "on"@),
        ),
        _ => None,
    }
}

/// `note_of_match` as a function value.
pub open spec fn read_note() -> spec_fn(Seq<Option<Seq<char>>>) -> Option<
    (Seq<char>, Seq<char>, bool),
> {
    |groups: Seq<Option<Seq<char>>>| note_of_match(groups)
}

/// The description and the default that `notes` give for `name`: those of
/// the last note of this name.
pub open spec fn described(notes: Seq<(Seq<char>, Seq<char>, bool)>, name: Seq<char>) -> Option<
    (Seq<char>, bool),
>
    decreases notes.len(),
{
    if notes.len() == 0 {
        None
    } else if notes.last().0 == name {
        Some((notes.last().1, notes.last().2))
    } else {
        described(notes.drop_last(), name)
    }
}

/// The boolean that a match of the value pattern stands for: persistent,
/// named by the first group, on where the second group says so, with the
/// description and the default from `notes`. A boolean without a note is
/// described as such and has its value as its default. A match that lacks
/// one of the two groups stands for none.
pub open spec fn boolean_of_match(
    notes: Seq<(Seq<char>, Seq<char>, bool)>,
    groups: Seq<Option<Seq<char>>>,
) -> Option<BooleanStateView> {
    match (group_text(groups, 1), group_text(groups, 2)) {
        (Some(name), Some(value)) => Some(
            BooleanStateView {
                name,
                description: match described(notes, name) {
                    Some(note) => note.0,
                    None => "No description"@,
                },
                current_value: value == "on"@,
                persistent: true,
                default_value: match described(notes, name) {
                    Some(note) => note.1,
                    None => value == "on"@,
                },
            },
        ),
        _ => None,
    }
}

/// `boolean_of_match` for given notes as a function value.
pub open spec fn read_boolean(notes: Seq<(Seq<char>, Seq<char>, bool)>) -> spec_fn(
    Seq<Option<Seq<char>>>,
) -> Option<BooleanStateView> {
    |groups: Seq<Option<Seq<char>>>| boolean_of_match(notes, groups)
}

impl BooleanManager {
    /// What the groups of one match of the description pattern say.
    pub fn note_of(groups: &Vec<Option<String>>) -> (r: Option<(String, String, bool)>)
        ensures
            match r {
                Some(note) => note_of_match(groups_view(groups@)) == Some(note@),
                None => note_of_match(groups_view(groups@)) is None,
            },
    {
        match (group(groups, 1), group(groups, 2), group(groups, 4)) {
            (Some(name), Some(default), Some(description)) => {
                let on = is_text(&default, "on");
                Some((name, description, on))
            },
            _ => None,
        }
    }

    /// What the matches of the description pattern say, in order.
    pub fn notes_of(matches: &Vec<Vec<Option<String>>>) -> (r: Vec<(String, String, bool)>)
        ensures
            views(r@) == collected(matches_view(matches@), read_note()),
    {
        let mut r: Vec<(String, String, bool)> = Vec::new();
        let mut i: usize = 0;
        let ghost all = matches_view(matches@);
        assert(all.take(0) =~= Seq::<Seq<Option<Seq<char>>>>::empty());
        assert(views(r@) =~= Seq::<(Seq<char>, Seq<char>, bool)>::empty());
        while i < matches.len()
            invariant
                i <= matches.len(),
                all == matches_view(matches@),
                views(r@) == collected(all.take(i as int), read_note()),
            decreases matches.len() - i,
        {
            proof {
                lemma_collected_step(all, read_note(), i as int);
            }
            match Self::note_of(&matches[i]) {
                Some(note) => {
                    proof {
                        lemma_views_push(r@, note);
                    }
                    r.push(note);
                },
                None => {},
            }
            i += 1;
        }
        assert(all.take(matches.len() as int) =~= all);
        r
    }

    /// The description and the default that `notes` give for `name`.
    pub fn describe(notes: &Vec<(String, String, bool)>, name: &String) -> (r: Option<
        (String, bool),
    >)
        ensures
            match r {
                Some(d) => described(views(notes@), name@) == Some((d.0@, d.1)),
                None => described(views(notes@), name@) is None,
            },
    {
        let mut i: usize = notes.len();
        assert(views(notes@).take(i as int) =~= views(notes@));
        while i > 0
            invariant
                i <= notes.len(),
                described(views(notes@), name@) == described(views(notes@).take(i as int), name@),
            decreases i,
        {
            i -= 1;
            assert(views(notes@).take(i + 1).drop_last() =~= views(notes@).take(i as int));
            if notes[i].0 == *name {
                return Some((notes[i].1.clone(), notes[i].2));
            }
        }
        None
    }

    /// The boolean that the groups of one match of the value pattern stand
    /// for, described by `notes`.
    pub fn boolean_of(notes: &Vec<(String, String, bool)>, groups: &Vec<Option<String>>) -> (r:
        Option<BooleanState>)
        ensures
            match r {
                Some(b) => boolean_of_match(views(notes@), groups_view(groups@)) == Some(b@),
                None => boolean_of_match(views(notes@), groups_view(groups@)) is None,
            },
    {
        match (group(groups, 1), group(groups, 2)) {
            (Some(name), Some(text)) => {
                let value = is_text(&text, "on");
                let (description, default_value) = match Self::describe(notes, &name) {
                    Some(d) => d,
                    None => (String::from_str("No description"), value),
                };
                Some(
                    BooleanState {
                        name,
                        description,
                        current_value: value,
                        persistent: true,
                        default_value,
                    },
                )
            },
            _ => None,
        }
    }

    /// The booleans that the matches of the value pattern stand for, in
    /// order, described by `notes`.
    pub fn booleans_of(
        notes: &Vec<(String, String, bool)>,
        matches: &Vec<Vec<Option<String>>>,
    ) -> (r: Vec<BooleanState>)
        ensures
            views(r@) == collected(matches_view(matches@), read_boolean(views(notes@))),
    {
        let mut r: Vec<BooleanState> = Vec::new();
        let mut i: usize = 0;
        let ghost all = matches_view(matches@);
        let ghost read = read_boolean(views(notes@));
        assert(all.take(0) =~= Seq::<Seq<Option<Seq<char>>>>::empty());
        assert(views(r@) =~= Seq::<BooleanStateView>::empty());
        while i < matches.len()
            invariant
                i <= matches.len(),
                all == matches_view(matches@),
                read == read_boolean(views(notes@)),
                views(r@) == collected(all.take(i as int), read),
            decreases matches.len() - i,
        {
            proof {
                lemma_collected_step(all, read, i as int);
            }
            match Self::boolean_of(notes, &matches[i]) {
                Some(boolean) => {
                    proof {
                        lemma_views_push(r@, boolean);
                    }
                    r.push(boolean);
                },
                None => {},
            }
            i += 1;
        }
        assert(all.take(matches.len() as int) =~= all);
        r
    }

    /// Replaces the list by the booleans that `values`, the output of the
    /// value listing, reports, described as `descriptions`, the output of
    /// the description listing, says. Fails, and leaves the list as it is,
    /// exactly where one of the two patterns is not accepted.
    pub fn load_booleans(&mut self, values: &str, descriptions: &str) -> (r: Result<
        (),
        PatternError,
    >)
        ensures
            r is Ok <==> pattern_compiles(value_pattern()) && pattern_compiles(
                description_pattern(),
            ),
            r is Ok ==> views(final(self).booleans@) == collected(
                matching_lines(value_pattern(), lines_of(values@)),
                read_boolean(
                    collected(
                        matching_lines(description_pattern(), lines_of(descriptions@)),
                        read_note(),
                    ),
                ),
            ),
            r is Err ==> final(self).booleans == old(self).booleans,
    {
        let value_line = match Pattern::new("^(.*?)\\s-->\\s(on|off)$") {
            Ok(p) => p,
            Err(e) => {
                return Err(e);
            },
        };
        let description_line = match Pattern::new(
            "^(\\S+)\\s+\\((on|off)\\s*,\\s*(on|off)\\)\\s+(.*)$",
        ) {
            Ok(p) => p,
            Err(e) => {
                return Err(e);
            },
        };
        let notes = Self::notes_of(&description_line.line_matches(descriptions));
        let matches = value_line.line_matches(values);
        self.booleans = Self::booleans_of(&notes, &matches);
        Ok(())
    }
}

} // verus!
