//! The diff engine: from two snapshots of the policy surface to the commands
//! that lead from the newer one back to the older one.
//!
//! Booleans and modules are compared as mappings from a name to a value, in
//! which a later entry of a snapshot replaces an earlier one of the same name.
//! Rules are compared as sets of their canonical strings. Within a domain the
//! commands come in the order in which the older snapshot (for deletions: the
//! newer one) first mentions the name or rule.

use crate::booleans::{set_boolean_command, set_boolean_text, BooleanState, BooleanStateView};
use crate::file_contexts::{
    add_file_context_command,
    add_file_context_text,
    delete_file_context_command,
    delete_file_context_text,
    restore_label_command,
    restore_label_text,
};
use crate::model::{lemma_views_push, views};
use crate::modules::{toggle_module_command, toggle_module_text, SELinuxModule, SELinuxModuleView};
use crate::rollback::{SystemState, SystemStateView};
use crate::ports::{add_port_command, add_port_text, delete_port_command, delete_port_text};
use crate::text::{split_at_first, split_once};
use vstd::prelude::*;
use vstd::string::*;

verus! {

/// The value that the mapping built from `entries` gives to `name`: that of
/// the last entry of this name.
pub open spec fn value_of(entries: Seq<(Seq<char>, bool)>, name: Seq<char>) -> Option<bool>
    decreases entries.len(),
{
    if entries.len() == 0 {
        None
    } else if entries.last().0 == name {
        Some(entries.last().1)
    } else {
        value_of(entries.drop_last(), name)
    }
}

/// Whether an entry before the `i`-th has the name of the `i`-th.
pub open spec fn named_before(entries: Seq<(Seq<char>, bool)>, i: int) -> bool {
    exists|j: int| 0 <= j < i && (#[trigger] entries[j]).0 == entries[i].0
}

/// Whether the `i`-th entry of `prev` is the first of its name and the two
/// mappings both know the name and disagree on it.
pub open spec fn restores_at(
    prev: Seq<(Seq<char>, bool)>,
    new: Seq<(Seq<char>, bool)>,
    i: int,
) -> bool {
    &&& !named_before(prev, i)
    &&& match (value_of(prev, prev[i].0), value_of(new, prev[i].0)) {
        (Some(was), Some(now)) => was != now,
        _ => false,
    }
}

/// The names among the first `n` entries of `prev` on which the two mappings
/// disagree, each with the value it has in `prev`.
pub open spec fn restores(
    prev: Seq<(Seq<char>, bool)>,
    new: Seq<(Seq<char>, bool)>,
    n: nat,
) -> Seq<(Seq<char>, bool)>
    decreases n,
{
    if n == 0 {
        Seq::empty()
    } else {
        let rest = restores(prev, new, (n - 1) as nat);
        if restores_at(prev, new, n - 1) {
            rest.push((prev[n - 1].0, value_of(prev, prev[n - 1].0)->0))
        } else {
            rest
        }
    }
}

/// The name and current value of each boolean.
pub open spec fn boolean_entries(booleans: Seq<BooleanStateView>) -> Seq<(Seq<char>, bool)> {
    booleans.map_values(|b: BooleanStateView| (b.name, b.current_value))
}

/// The name and enabled flag of each module.
pub open spec fn module_entries(modules: Seq<SELinuxModuleView>) -> Seq<(Seq<char>, bool)> {
    modules.map_values(|m: SELinuxModuleView| (m.name, m.enabled))
}

/// The commands that set each entry's boolean to the entry's value.
pub open spec fn boolean_restore_texts(entries: Seq<(Seq<char>, bool)>) -> Seq<Seq<char>> {
    entries.map_values(|e: (Seq<char>, bool)| set_boolean_text(e.0, e.1))
}

/// The commands that enable or disable each entry's module as the entry says.
pub open spec fn module_restore_texts(entries: Seq<(Seq<char>, bool)>) -> Seq<Seq<char>> {
    entries.map_values(|e: (Seq<char>, bool)| toggle_module_text(e.0, e.1))
}

/// What has to be done about a rule that one snapshot has and the other lacks.
#[derive(Debug, Clone, Copy, PartialEq, Eq, Structural)]
pub enum RuleFix {
    /// A file-context rule was removed: add it again and restore the labels.
    ReaddFileContext,
    /// A file-context rule was added: delete it.
    DeleteFileContext,
    /// A port rule was removed: add it again.
    ReaddPort,
    /// A port rule was added: delete it.
    DeletePort,
}

/// The commands that apply `fix` to the canonical rule string `rule`. A
/// string that is not of the canonical form gives no command.
pub open spec fn fix_texts(fix: RuleFix, rule: Seq<char>) -> Seq<Seq<char>> {
    match split_at_first(rule, ':') {
        Some((subject, label)) => match fix {
            RuleFix::ReaddFileContext => seq![
                add_file_context_text(subject, label),
                restore_label_text(subject),
            ],
            RuleFix::DeleteFileContext => seq![delete_file_context_text(subject)],
            RuleFix::ReaddPort => match split_at_first(subject, '/') {
                Some((port, protocol)) => seq![add_port_text(port, protocol, label)],
                None => Seq::empty(),
            },
            RuleFix::DeletePort => match split_at_first(subject, '/') {
                Some((port, protocol)) => seq![delete_port_text(port, protocol)],
                None => Seq::empty(),
            },
        },
        None => Seq::empty(),
    }
}

/// Whether the `i`-th rule of `have` occurs neither before `i` in `have` nor
/// anywhere in `lack`.
pub open spec fn missing_at(have: Seq<Seq<char>>, lack: Seq<Seq<char>>, i: int) -> bool {
    !have.take(i).contains(have[i]) && !lack.contains(have[i])
}

/// The commands that apply `fix` to each rule among the first `n` of `have`
/// that `lack` does not hold, each rule once.
pub open spec fn rule_fixes(
    have: Seq<Seq<char>>,
    lack: Seq<Seq<char>>,
    fix: RuleFix,
    n: nat,
) -> Seq<Seq<char>>
    decreases n,
{
    if n == 0 {
        Seq::empty()
    } else {
        let rest = rule_fixes(have, lack, fix, (n - 1) as nat);
        if missing_at(have, lack, n - 1) {
            rest + fix_texts(fix, have[n - 1])
        } else {
            rest
        }
    }
}

fn boolean_entries_of(booleans: &Vec<BooleanState>) -> (r: Vec<(String, bool)>)
    ensures
        views(r@) == boolean_entries(views(booleans@)),
{
    let mut r: Vec<(String, bool)> = Vec::new();
    let mut i: usize = 0;
    while i < booleans.len()
        invariant
            i <= booleans.len(),
            views(r@) =~= boolean_entries(views(booleans@)).take(i as int),
        decreases booleans.len() - i,
    {
        let entry = (booleans[i].name.clone(), booleans[i].current_value);
        proof {
            lemma_views_push(r@, entry);
            assert(entry@ == boolean_entries(views(booleans@))[i as int]);
        }
        r.push(entry);
        i += 1;
    }
    r
}

fn module_entries_of(modules: &Vec<SELinuxModule>) -> (r: Vec<(String, bool)>)
    ensures
        views(r@) == module_entries(views(modules@)),
{
    let mut r: Vec<(String, bool)> = Vec::new();
    let mut i: usize = 0;
    while i < modules.len()
        invariant
            i <= modules.len(),
            views(r@) =~= module_entries(views(modules@)).take(i as int),
        decreases modules.len() - i,
    {
        let entry = (modules[i].name.clone(), modules[i].enabled);
        proof {
            lemma_views_push(r@, entry);
            assert(entry@ == module_entries(views(modules@))[i as int]);
        }
        r.push(entry);
        i += 1;
    }
    r
}

fn lookup(entries: &Vec<(String, bool)>, name: &String) -> (r: Option<bool>)
    ensures
        r == value_of(views(entries@), name@),
{
    let mut i: usize = entries.len();
    assert(views(entries@).take(i as int) =~= views(entries@));
    while i > 0
        invariant
            i <= entries.len(),
            value_of(views(entries@), name@) == value_of(views(entries@).take(i as int), name@),
        decreases i,
    {
        i -= 1;
        assert(views(entries@).take(i + 1).drop_last() =~= views(entries@).take(i as int));
        if entries[i].0 == *name {
            return Some(entries[i].1);
        }
    }
    None
}

fn seen_before(entries: &Vec<(String, bool)>, i: usize) -> (r: bool)
    requires
        i < entries.len(),
    ensures
        r == named_before(views(entries@), i as int),
{
    let mut j: usize = 0;
    while j < i
        invariant
            j <= i < entries.len(),
            forall|k: int| 0 <= k < j ==> (#[trigger] views(entries@)[k]).0 != views(entries@)[i as int].0,
        decreases i - j,
    {
        if entries[j].0 == entries[i].0 {
            assert(views(entries@)[j as int].0 == views(entries@)[i as int].0);
            return true;
        }
        j += 1;
    }
    false
}

fn changed_entries(prev: &Vec<(String, bool)>, new: &Vec<(String, bool)>) -> (r: Vec<
    (String, bool),
>)
    ensures
        views(r@) == restores(views(prev@), views(new@), prev.len() as nat),
{
    let mut r: Vec<(String, bool)> = Vec::new();
    let mut i: usize = 0;
    proof {
        assert(views(r@) =~= Seq::<(Seq<char>, bool)>::empty());
    }
    while i < prev.len()
        invariant
            i <= prev.len(),
            views(r@) == restores(views(prev@), views(new@), i as nat),
        decreases prev.len() - i,
    {
        if !seen_before(prev, i) {
            let was = lookup(prev, &prev[i].0);
            let now = lookup(new, &prev[i].0);
            match (was, now) {
                (Some(w), Some(n)) => {
                    if w != n {
                        let entry = (prev[i].0.clone(), w);
                        proof {
                            lemma_views_push(r@, entry);
                        }
                        r.push(entry);
                    }
                },
                _ => {},
            }
        }
        i += 1;
    }
    r
}

fn holds_rule(rules: &Vec<String>, upto: usize, rule: &String) -> (r: bool)
    requires
        upto <= rules.len(),
    ensures
        r == views(rules@).take(upto as int).contains(rule@),
{
    let mut j: usize = 0;
    while j < upto
        invariant
            j <= upto <= rules.len(),
            forall|k: int| 0 <= k < j ==> views(rules@)[k] != rule@,
        decreases upto - j,
    {
        if rules[j] == *rule {
            assert(views(rules@).take(upto as int)[j as int] == rule@);
            return true;
        }
        j += 1;
    }
    false
}

fn fix_commands(fix: RuleFix, rule: &String) -> (r: Vec<String>)
    ensures
        views(r@) == fix_texts(fix, rule@),
{
    let mut r: Vec<String> = Vec::new();
    match split_once(rule.as_str(), ':') {
        Some((subject, label)) => match fix {
            RuleFix::ReaddFileContext => {
                r.push(add_file_context_command(subject.as_str(), label.as_str()));
                r.push(restore_label_command(subject.as_str()));
            },
            RuleFix::DeleteFileContext => {
                r.push(delete_file_context_command(subject.as_str()));
            },
            RuleFix::ReaddPort => match split_once(subject.as_str(), '/') {
                Some((port, protocol)) => {
                    r.push(add_port_command(port.as_str(), protocol.as_str(), label.as_str()));
                },
                None => {},
            },
            RuleFix::DeletePort => match split_once(subject.as_str(), '/') {
                Some((port, protocol)) => {
                    r.push(delete_port_command(port.as_str(), protocol.as_str()));
                },
                None => {},
            },
        },
        None => {},
    }
    assert(views(r@) =~= fix_texts(fix, rule@));
    r
}

/// Appends to `out` the commands that apply `fix` to each rule of `have` that
/// `lack` does not hold.
fn push_rule_fixes(out: &mut Vec<String>, have: &Vec<String>, lack: &Vec<String>, fix: RuleFix)
    ensures
        views(final(out)@) == views(old(out)@) + rule_fixes(
            views(have@),
            views(lack@),
            fix,
            have.len() as nat,
        ),
{
    let mut i: usize = 0;
    assert(views(out@) =~= views(old(out)@) + Seq::<Seq<char>>::empty());
    while i < have.len()
        invariant
            i <= have.len(),
            views(out@) == views(old(out)@) + rule_fixes(views(have@), views(lack@), fix, i as nat),
        decreases have.len() - i,
    {
        assert(views(lack@).take(lack.len() as int) =~= views(lack@));
        if !holds_rule(have, i, &have[i]) && !holds_rule(lack, lack.len(), &have[i]) {
            let mut cmds = fix_commands(fix, &have[i]);
            let ghost before = out@;
            let ghost added = cmds@;
            out.append(&mut cmds);
            assert(views(out@) =~= views(before) + views(added));
            assert(views(out@) =~= views(old(out)@) + rule_fixes(
                views(have@),
                views(lack@),
                fix,
                (i + 1) as nat,
            ));
        }
        i += 1;
    }
}

/// The undo commands that lead from the snapshot `new` back to `previous`:
/// first those for booleans, then modules, file-context rules and port
/// rules; for rules, the rules to add again before the rules to delete.
pub open spec fn inverse_commands(previous: SystemStateView, new: SystemStateView) -> Seq<
    Seq<char>,
> {
    boolean_restore_texts(
        restores(
            boolean_entries(previous.booleans),
            boolean_entries(new.booleans),
            previous.booleans.len(),
        ),
    ) + module_restore_texts(
        restores(
            module_entries(previous.modules),
            module_entries(new.modules),
            previous.modules.len(),
        ),
    ) + rule_fixes(
        previous.file_contexts,
        new.file_contexts,
        RuleFix::ReaddFileContext,
        previous.file_contexts.len(),
    ) + rule_fixes(
        new.file_contexts,
        previous.file_contexts,
        RuleFix::DeleteFileContext,
        new.file_contexts.len(),
    ) + rule_fixes(previous.ports, new.ports, RuleFix::ReaddPort, previous.ports.len())
        + rule_fixes(new.ports, previous.ports, RuleFix::DeletePort, new.ports.len())
}

/// Computes the undo commands that lead from `new` back to `previous`.
pub fn compute_inverse(previous: &SystemState, new: &SystemState) -> (r: Vec<String>)
    ensures
        views(r@) == inverse_commands(previous@, new@),
{
    let mut r: Vec<String> = Vec::new();
    let was = boolean_entries_of(&previous.booleans);
    let now = boolean_entries_of(&new.booleans);
    let changed = changed_entries(&was, &now);
    let mut i: usize = 0;
    while i < changed.len()
        invariant
            i <= changed.len(),
            views(r@) =~= boolean_restore_texts(views(changed@)).take(i as int),
        decreases changed.len() - i,
    {
        let cmd = set_boolean_command(changed[i].0.as_str(), changed[i].1);
        proof {
            lemma_views_push(r@, cmd);
        }
        r.push(cmd);
        i += 1;
    }
    let ghost booleans_done = views(r@);
    assert(booleans_done =~= boolean_restore_texts(views(changed@)));
    let was = module_entries_of(&previous.modules);
    let now = module_entries_of(&new.modules);
    let changed = changed_entries(&was, &now);
    let mut i: usize = 0;
    while i < changed.len()
        invariant
            i <= changed.len(),
            views(r@) =~= booleans_done + module_restore_texts(views(changed@)).take(i as int),
        decreases changed.len() - i,
    {
        let cmd = toggle_module_command(changed[i].0.as_str(), changed[i].1);
        proof {
            lemma_views_push(r@, cmd);
        }
        r.push(cmd);
        i += 1;
    }
    assert(views(r@) =~= booleans_done + module_restore_texts(views(changed@)));
    push_rule_fixes(&mut r, &previous.file_contexts, &new.file_contexts, RuleFix::ReaddFileContext);
    push_rule_fixes(
        &mut r,
        &new.file_contexts,
        &previous.file_contexts,
        RuleFix::DeleteFileContext,
    );
    push_rule_fixes(&mut r, &previous.ports, &new.ports, RuleFix::ReaddPort);
    push_rule_fixes(&mut r, &new.ports, &previous.ports, RuleFix::DeletePort);
    r
}

proof fn lemma_restores_of_same(entries: Seq<(Seq<char>, bool)>, n: nat)
    requires
        n <= entries.len(),
    ensures
        restores(entries, entries, n) == Seq::<(Seq<char>, bool)>::empty(),
    decreases n,
{
    if n > 0 {
        lemma_restores_of_same(entries, (n - 1) as nat);
    }
}

proof fn lemma_rule_fixes_of_same(rules: Seq<Seq<char>>, fix: RuleFix, n: nat)
    requires
        n <= rules.len(),
    ensures
        rule_fixes(rules, rules, fix, n) == Seq::<Seq<char>>::empty(),
    decreases n,
{
    if n > 0 {
        lemma_rule_fixes_of_same(rules, fix, (n - 1) as nat);
        assert(rules.contains(rules[n - 1]));
    }
}

/// Where the two snapshots agree on a domain, the domain calls for no command.
proof fn lemma_same_domains(p: SystemStateView, n: SystemStateView)
    ensures
        p.modules == n.modules ==> module_restore_texts(
            restores(module_entries(p.modules), module_entries(n.modules), p.modules.len()),
        ) == Seq::<Seq<char>>::empty(),
        p.booleans == n.booleans ==> boolean_restore_texts(
            restores(boolean_entries(p.booleans), boolean_entries(n.booleans), p.booleans.len()),
        ) == Seq::<Seq<char>>::empty(),
        p.file_contexts == n.file_contexts ==> rule_fixes(
            p.file_contexts,
            n.file_contexts,
            RuleFix::ReaddFileContext,
            p.file_contexts.len(),
        ) + rule_fixes(
            n.file_contexts,
            p.file_contexts,
            RuleFix::DeleteFileContext,
            n.file_contexts.len(),
        ) == Seq::<Seq<char>>::empty(),
        p.ports == n.ports ==> rule_fixes(p.ports, n.ports, RuleFix::ReaddPort, p.ports.len())
            + rule_fixes(n.ports, p.ports, RuleFix::DeletePort, n.ports.len()) == Seq::<
            Seq<char>,
        >::empty(),
{
    if p.modules == n.modules {
        lemma_restores_of_same(module_entries(p.modules), p.modules.len());
        assert(module_restore_texts(Seq::<(Seq<char>, bool)>::empty()) =~= Seq::<
            Seq<char>,
        >::empty());
    }
    if p.booleans == n.booleans {
        lemma_restores_of_same(boolean_entries(p.booleans), p.booleans.len());
        assert(boolean_restore_texts(Seq::<(Seq<char>, bool)>::empty()) =~= Seq::<
            Seq<char>,
        >::empty());
    }
    if p.file_contexts == n.file_contexts {
        lemma_rule_fixes_of_same(
            p.file_contexts,
            RuleFix::ReaddFileContext,
            p.file_contexts.len(),
        );
        lemma_rule_fixes_of_same(
            p.file_contexts,
            RuleFix::DeleteFileContext,
            p.file_contexts.len(),
        );
        assert(Seq::<Seq<char>>::empty() + Seq::<Seq<char>>::empty() =~= Seq::<
            Seq<char>,
        >::empty());
    }
    if p.ports == n.ports {
        lemma_rule_fixes_of_same(p.ports, RuleFix::ReaddPort, p.ports.len());
        lemma_rule_fixes_of_same(p.ports, RuleFix::DeletePort, p.ports.len());
        assert(Seq::<Seq<char>>::empty() + Seq::<Seq<char>>::empty() =~= Seq::<
            Seq<char>,
        >::empty());
    }
}

/// Between a snapshot and itself there is nothing to undo.
pub proof fn lemma_inverse_of_same_is_empty(p: SystemStateView)
    ensures
        inverse_commands(p, p) == Seq::<Seq<char>>::empty(),
{
    lemma_same_domains(p, p);
    assert(inverse_commands(p, p) =~= Seq::<Seq<char>>::empty());
}

/// Two lists of entries that agree on every entry of the name `name` give
/// the name the same value.
proof fn lemma_value_of_agrees(
    a: Seq<(Seq<char>, bool)>,
    b: Seq<(Seq<char>, bool)>,
    name: Seq<char>,
)
    requires
        a.len() == b.len(),
        forall|j: int| 0 <= j < a.len() ==> (#[trigger] a[j]).0 == b[j].0,
        forall|j: int| 0 <= j < a.len() && (#[trigger] a[j]).0 == name ==> a[j].1 == b[j].1,
    ensures
        value_of(a, name) == value_of(b, name),
    decreases a.len(),
{
    if a.len() > 0 {
        let last = a.len() - 1;
        assert(a[last].0 == b[last].0);
        if a.last().0 != name {
            lemma_value_of_agrees(a.drop_last(), b.drop_last(), name);
        }
    }
}

/// The value of the name of the `i`-th entry, where no later entry has this
/// name, is that of the `i`-th entry.
proof fn lemma_value_of_last_entry(a: Seq<(Seq<char>, bool)>, i: int)
    requires
        0 <= i < a.len(),
        forall|j: int| i < j < a.len() ==> (#[trigger] a[j]).0 != a[i].0,
    ensures
        value_of(a, a[i].0) == Some(a[i].1),
    decreases a.len(),
{
    if i < a.len() - 1 {
        assert(a[a.len() - 1].0 != a[i].0);
        lemma_value_of_last_entry(a.drop_last(), i);
    }
}

/// The restores among the first `n` entries where the two lists differ in
/// the value of the `i`-th entry alone: none before the first entry of this
/// name, and one from it on.
proof fn lemma_restores_of_one_flip(
    p: Seq<(Seq<char>, bool)>,
    n: Seq<(Seq<char>, bool)>,
    i: int,
    upto: nat,
)
    requires
        p.len() == n.len(),
        0 <= i < p.len(),
        upto <= p.len(),
        forall|j: int| 0 <= j < p.len() ==> (#[trigger] p[j]).0 == n[j].0,
        forall|j: int| 0 <= j < p.len() && j != i ==> (#[trigger] p[j]).1 == n[j].1,
        p[i].1 != n[i].1,
        forall|j: int| i < j < p.len() ==> (#[trigger] p[j]).0 != p[i].0,
    ensures
        restores(p, n, upto) == if exists|j: int| 0 <= j < upto && (#[trigger] p[j]).0 == p[i].0 {
            seq![(p[i].0, p[i].1)]
        } else {
            Seq::<(Seq<char>, bool)>::empty()
        },
    decreases upto,
{
    if upto > 0 {
        let k = upto - 1;
        lemma_restores_of_one_flip(p, n, i, k as nat);
        let name = p[k].0;
        let before = exists|j: int| 0 <= j < k && (#[trigger] p[j]).0 == p[i].0;
        if name == p[i].0 {
            lemma_value_of_last_entry(p, i);
            assert(n[i].0 == p[i].0);
            assert forall|j: int| i < j < n.len() implies (#[trigger] n[j]).0 != n[i].0 by {
                assert(p[j].0 == n[j].0);
            }
            lemma_value_of_last_entry(n, i);
            if before {
                let j = choose|j: int| 0 <= j < k && (#[trigger] p[j]).0 == p[i].0;
                assert(p[j].0 == p[k].0);
                assert(named_before(p, k));
            } else {
                assert(!named_before(p, k));
                assert(restores_at(p, n, k));
                assert(restores(p, n, upto) =~= seq![(p[i].0, p[i].1)]);
            }
            assert(p[k].0 == p[i].0);
        } else {
            assert forall|j: int| 0 <= j < p.len() && (#[trigger] p[j]).0 == name implies p[j].1
                == n[j].1 by {}
            lemma_value_of_agrees(p, n, name);
            assert(!restores_at(p, n, k));
            if before {
                let j = choose|j: int| 0 <= j < k && (#[trigger] p[j]).0 == p[i].0;
                assert(0 <= j < upto && p[j].0 == p[i].0);
            }
        }
    }
}

/// Where two snapshots differ in nothing but the current value of one
/// boolean, whose name no later boolean of the list bears, what leads back
/// is the one command that gives that boolean its earlier value.
pub proof fn lemma_inverse_of_one_boolean_flip(p: SystemStateView, n: SystemStateView, i: int)
    requires
        0 <= i < p.booleans.len(),
        p.booleans.len() == n.booleans.len(),
        forall|j: int|
            0 <= j < p.booleans.len() && j != i ==> #[trigger] p.booleans[j] == n.booleans[j],
        p.booleans[i].name == n.booleans[i].name,
        p.booleans[i].current_value != n.booleans[i].current_value,
        forall|j: int|
            i < j < p.booleans.len() ==> (#[trigger] p.booleans[j]).name != p.booleans[i].name,
        p.modules == n.modules,
        p.file_contexts == n.file_contexts,
        p.ports == n.ports,
    ensures
        inverse_commands(p, n) == seq![
            set_boolean_text(p.booleans[i].name, p.booleans[i].current_value),
        ],
{
    let pe = boolean_entries(p.booleans);
    let ne = boolean_entries(n.booleans);
    assert forall|j: int| 0 <= j < pe.len() implies (#[trigger] pe[j]).0 == ne[j].0 by {
        if j != i {
            assert(p.booleans[j] == n.booleans[j]);
        }
    }
    assert forall|j: int| 0 <= j < pe.len() && j != i implies (#[trigger] pe[j]).1 == ne[j].1 by {
        assert(p.booleans[j] == n.booleans[j]);
    }
    assert forall|j: int| i < j < pe.len() implies (#[trigger] pe[j]).0 != pe[i].0 by {
        assert(p.booleans[j].name != p.booleans[i].name);
    }
    lemma_restores_of_one_flip(pe, ne, i, pe.len());
    assert(pe[i].0 == pe[i].0);
    let one = seq![(pe[i].0, pe[i].1)];
    assert(restores(pe, ne, pe.len()) == one);
    assert(boolean_restore_texts(one) =~= seq![
        set_boolean_text(p.booleans[i].name, p.booleans[i].current_value),
    ]);
    lemma_same_domains(p, n);
    assert(inverse_commands(p, n) =~= seq![
        set_boolean_text(p.booleans[i].name, p.booleans[i].current_value),
    ]);
}

} // verus!
