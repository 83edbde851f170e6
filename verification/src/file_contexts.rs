//! File-context rules: which label the files under a path carry.

use crate::model::{lemma_filter_push, lemma_views_push, views};
use crate::pattern::{
    collected,
    group,
    group_text,
    groups_view,
    lemma_collected_step,
    matches_view,
    matching_lines,
    pattern_compiles,
    Pattern,
    PatternError,
};
use crate::text::lines_of;
use vstd::prelude::*;
use vstd::string::*;

verus! {

/// One file-context rule.
#[derive(Debug, Clone)]
pub struct FileContext {
    pub path: String,
    pub context: String,
}

/// The mathematical value of a `FileContext`.
pub struct FileContextView {
    pub path: Seq<char>,
    pub context: Seq<char>,
}

impl View for FileContext {
    type V = FileContextView;

    open spec fn view(&self) -> FileContextView {
        FileContextView { path: self.path@, context: self.context@ }
    }
}

/// The text of the command that adds the rule `path -> context`.
pub open spec fn add_file_context_text(path: Seq<char>, context: Seq<char>) -> Seq<char> {
    "semanage fcontext -a -t "@ + context + " "@ + path
}

/// The text of the command that puts the stored labels back on `path`.
pub open spec fn restore_label_text(path: Seq<char>) -> Seq<char> {
    "restorecon -v "@ + path
}

/// The text of the command that deletes the rule for `path`.
pub open spec fn delete_file_context_text(path: Seq<char>) -> Seq<char> {
    "semanage fcontext -d "@ + path
}

/// The command that adds the rule `path -> context`.
pub fn add_file_context_command(path: &str, context: &str) -> (r: String)
    ensures
        r@ == add_file_context_text(path@, context@),
{
    let mut r = String::from_str("semanage fcontext -a -t ");
    r.append(context);
    r.append(" ");
    r.append(path);
    r
}

/// The command that puts the stored labels back on `path`.
pub fn restore_label_command(path: &str) -> (r: String)
    ensures
        r@ == restore_label_text(path@),
{
    let mut r = String::from_str("restorecon -v ");
    r.append(path);
    r
}

/// The command that deletes the rule for `path`.
pub fn delete_file_context_command(path: &str) -> (r: String)
    ensures
        r@ == delete_file_context_text(path@),
{
    let mut r = String::from_str("semanage fcontext -d ");
    r.append(path);
    r
}

/// The canonical string of the rule `path -> context`.
pub open spec fn file_context_rule(path: Seq<char>, context: Seq<char>) -> Seq<char> {
    path + ":"@ + context
}

/// Keeps the list of the file-context rules.
#[derive(Debug, Clone)]
pub struct FileContextManager {
    pub contexts: Vec<FileContext>,
}

impl FileContext {
    /// The rule in its canonical form `path:label`.
    pub fn canonical(&self) -> (r: String)
        ensures
            r@ == file_context_rule(self@.path, self@.context),
    {
        let mut r = self.path.clone();
        r.append(":");
        r.append(self.context.as_str());
        r
    }
}

impl FileContextManager {
    /// A manager without rules.
    pub fn new() -> (r: Self)
        ensures
            r.contexts@ == Seq::<FileContext>::empty(),
    {
        FileContextManager { contexts: Vec::new() }
    }

    /// Replaces the list by the rule of the simulated system.
    pub fn load_simulation_data(&mut self)
        ensures
            views(final(self).contexts@) == seq![
                FileContextView { path: "/var/www"@, context: "httpd_sys_content_t"@ },
            ],
    {
        self.contexts = vec![
            FileContext {
                path: String::from_str("/var/www"),
                context: String::from_str("httpd_sys_content_t"),
            },
        ];
        assert(views(self.contexts@) =~= seq![
            FileContextView { path: "/var/www"@, context: "httpd_sys_content_t"@ },
        ]);
    }

    /// Whether a rule for `path` is in the list.
    pub fn has_path(&self, path: &str) -> (r: bool)
        ensures
            r == exists|i: int|
                0 <= i < self.contexts.len() && (#[trigger] views(self.contexts@)[i]).path == path@,
    {
        let wanted = String::from_str(path);
        let mut i: usize = 0;
        while i < self.contexts.len()
            invariant
                i <= self.contexts.len(),
                wanted@ == path@,
                forall|j: int| 0 <= j < i ==> (#[trigger] views(self.contexts@)[j]).path != path@,
            decreases self.contexts.len() - i,
        {
            if self.contexts[i].path == wanted {
                assert(views(self.contexts@)[i as int].path == path@);
                return true;
            }
            i += 1;
        }
        false
    }

    /// Adds the rule `path -> context` at the end of the list.
    pub fn add_file_context(&mut self, path: &str, context: &str)
        ensures
            views(final(self).contexts@) == views(old(self).contexts@).push(
                FileContextView { path: path@, context: context@ },
            ),
    {
        let rule = FileContext { path: String::from_str(path), context: String::from_str(context) };
        proof {
            lemma_views_push(self.contexts@, rule);
        }
        self.contexts.push(rule);
    }

    /// Drops every rule for `path`.
    pub fn remove_file_context(&mut self, path: &str)
        ensures
            views(final(self).contexts@) == views(old(self).contexts@).filter(
                |c: FileContextView| c.path != path@,
            ),
    {
        let wanted = String::from_str(path);
        let ghost keep = |c: FileContextView| c.path != path@;
        let ghost all = views(self.contexts@);
        let mut kept: Vec<FileContext> = Vec::new();
        let mut rest: Vec<FileContext> = Vec::new();
        std::mem::swap(&mut rest, &mut self.contexts);
        let mut i: usize = 0;
        let n = rest.len();
        assert(all.take(0) =~= Seq::<FileContextView>::empty());
        assert(views(kept@) =~= Seq::<FileContextView>::empty());
        while i < n
            invariant
                i <= n,
                n == rest.len(),
                wanted@ == path@,
                keep == |c: FileContextView| c.path != path@,
                all.len() == n,
                forall|k: int| i <= k < n ==> rest@[k]@ == all[k],
                views(kept@) == all.take(i as int).filter(keep),
            decreases n - i,
        {
            let mut rule = FileContext { path: String::new(), context: String::new() };
            std::mem::swap(&mut rule, &mut rest[i]);
            proof {
                assert(all.take(i + 1) =~= all.take(i as int).push(rule@));
                lemma_filter_push(all.take(i as int), rule@, keep);
                lemma_views_push(kept@, rule);
            }
            if rule.path != wanted {
                kept.push(rule);
            }
            i += 1;
        }
        assert(all.take(n as int) =~= all);
        self.contexts = kept;
    }

    /// The rules in their canonical form, in order.
    pub fn canonical_rules(&self) -> (r: Vec<String>)
        ensures
            views(r@) == views(self.contexts@).map_values(
                |c: FileContextView| file_context_rule(c.path, c.context),
            ),
    {
        let mut r: Vec<String> = Vec::new();
        let mut i: usize = 0;
        while i < self.contexts.len()
            invariant
                i <= self.contexts.len(),
                views(r@) =~= views(self.contexts@).map_values(
                    |c: FileContextView| file_context_rule(c.path, c.context),
                ).take(i as int),
            decreases self.contexts.len() - i,
        {
            let rule = self.contexts[i].canonical();
            proof {
                lemma_views_push(r@, rule);
            }
            r.push(rule);
            i += 1;
        }
        r
    }
}

/// The pattern of a line of the rule listing: a path, the kind of file, and
/// the label within its context.
pub open spec fn file_context_pattern() -> Seq<char> {
    "^(\\S+)\\s+all files\\s+system_u:object_r:(\\S+):s0$"@
}

/// The rule that a match of the listing's pattern stands for: the path of
/// the first group with the label of the second. A match that lacks one of
/// them stands for none.
pub open spec fn file_context_of_match(groups: Seq<Option<Seq<char>>>) -> Option<FileContextView> {
    match (group_text(groups, 1), group_text(groups, 2)) {
        (Some(path), Some(context)) => Some(FileContextView { path, context }),
        _ => None,
    }
}

/// `file_context_of_match` as a function value.
pub open spec fn read_file_context() -> spec_fn(Seq<Option<Seq<char>>>) -> Option<FileContextView> {
    |groups: Seq<Option<Seq<char>>>| file_context_of_match(groups)
}

impl FileContextManager {
    /// The rule that the groups of one match of the listing stand for.
    pub fn file_context_of(groups: &Vec<Option<String>>) -> (r: Option<FileContext>)
        ensures
            match r {
                Some(c) => file_context_of_match(groups_view(groups@)) == Some(c@),
                None => file_context_of_match(groups_view(groups@)) is None,
            },
    {
        match (group(groups, 1), group(groups, 2)) {
            (Some(path), Some(context)) => Some(FileContext { path, context }),
            _ => None,
        }
    }

    /// The rules that the matches of the listing stand for, in order.
    pub fn file_contexts_of(matches: &Vec<Vec<Option<String>>>) -> (r: Vec<FileContext>)
        ensures
            views(r@) == collected(matches_view(matches@), read_file_context()),
    {
        let mut r: Vec<FileContext> = Vec::new();
        let mut i: usize = 0;
        let ghost all = matches_view(matches@);
        assert(all.take(0) =~= Seq::<Seq<Option<Seq<char>>>>::empty());
        assert(views(r@) =~= Seq::<FileContextView>::empty());
        while i < matches.len()
            invariant
                i <= matches.len(),
                all == matches_view(matches@),
                views(r@) == collected(all.take(i as int), read_file_context()),
            decreases matches.len() - i,
        {
            proof {
                lemma_collected_step(all, read_file_context(), i as int);
            }
            match Self::file_context_of(&matches[i]) {
                Some(rule) => {
                    proof {
                        lemma_views_push(r@, rule);
                    }
                    r.push(rule);
                },
                None => {},
            }
            i += 1;
        }
        assert(all.take(matches.len() as int) =~= all);
        r
    }

    /// Replaces the list by the rules that `listing`, the output of the rule
    /// listing, reports. Fails, and leaves the list as it is, exactly where
    /// the pattern of the listing is not accepted.
    pub fn load_file_contexts(&mut self, listing: &str) -> (r: Result<(), PatternError>)
        ensures
            r is Ok <==> pattern_compiles(file_context_pattern()),
            r is Ok ==> views(final(self).contexts@) == collected(
                matching_lines(file_context_pattern(), lines_of(listing@)),
                read_file_context(),
            ),
            r is Err ==> final(self).contexts == old(self).contexts,
    {
        let pattern = match Pattern::new("^(\\S+)\\s+all files\\s+system_u:object_r:(\\S+):s0$") {
            Ok(p) => p,
            Err(e) => {
                return Err(e);
            },
        };
        let matches = pattern.line_matches(listing);
        self.contexts = Self::file_contexts_of(&matches);
        Ok(())
    }
}

} // verus!
