//! Hardening presets: sets of booleans that are switched to a safe value in
//! one step, with the commands that bring the earlier values back.

use crate::booleans::{
    boolean_names,
    set_boolean_command,
    set_boolean_text,
    with_values,
    BooleanManager,
    BooleanState,
    BooleanStateView,
};
use crate::model::{lemma_filter_push, lemma_first_index_of, lemma_views_push, views};
use vstd::prelude::*;
use vstd::string::*;

verus! {

/// Which hardening steps are wanted.
#[derive(Debug, Clone, Copy, PartialEq, Eq, Structural)]
pub struct SafeModeConfig {
    pub enable_httpd_readonly: bool,
    pub disable_unused_services: bool,
    pub restrict_user_homes: bool,
    pub enable_audit_all_denials: bool,
    pub safe_boolean_changes: bool,
}

impl Default for SafeModeConfig {
    /// Every hardening step is wanted.
    fn default() -> (r: Self)
        ensures
            r == (SafeModeConfig {
                enable_httpd_readonly: true,
                disable_unused_services: true,
                restrict_user_homes: true,
                enable_audit_all_denials: true,
                safe_boolean_changes: true,
            }),
    {
        SafeModeConfig {
            enable_httpd_readonly: true,
            disable_unused_services: true,
            restrict_user_homes: true,
            enable_audit_all_denials: true,
            safe_boolean_changes: true,
        }
    }
}

/// The changes of the safe defaults: three booleans are switched off.
pub open spec fn safe_changes() -> Seq<(Seq<char>, bool)> {
    seq![
        ("httpd_read_user_content"@, false),
        ("httpd_enable_homedirs"@, false),
        ("allow_ssh_keysign"@, false),
    ]
}

/// The changes of the restrictive policy: three booleans are switched on.
pub open spec fn restrictive_changes() -> Seq<(Seq<char>, bool)> {
    seq![("deny_ptrace"@, true), ("deny_execmem"@, true), ("secure_mode"@, true)]
}

/// Those of `changes` whose boolean is among `names`.
pub open spec fn known_changes(changes: Seq<(Seq<char>, bool)>, names: Seq<Seq<char>>) -> Seq<
    (Seq<char>, bool),
> {
    changes.filter(|c: (Seq<char>, bool)| names.contains(c.0))
}

/// For each boolean the command that sets it to its current value.
pub open spec fn restore_all_texts(booleans: Seq<BooleanStateView>) -> Seq<Seq<char>> {
    booleans.map_values(|b: BooleanStateView| set_boolean_text(b.name, b.current_value))
}

impl SafeModeConfig {
    /// The changes that `apply_safe_defaults` makes.
    pub fn safe_booleans(&self) -> (r: Vec<(String, bool)>)
        ensures
            views(r@) == safe_changes(),
    {
        let r = vec![
            (String::from_str("httpd_read_user_content"), false),
            (String::from_str("httpd_enable_homedirs"), false),
            (String::from_str("allow_ssh_keysign"), false),
        ];
        assert(views(r@) =~= safe_changes());
        r
    }

    /// The changes that `apply_restrictive_policy` makes on the booleans of
    /// `boolean_manager`: those of the restrictive policy whose boolean the
    /// manager knows.
    pub fn restrictive_booleans(&self, boolean_manager: &BooleanManager) -> (r: Vec<(String, bool)>)
        ensures
            views(r@) == known_changes(
                restrictive_changes(),
                boolean_names(views(boolean_manager.booleans@)),
            ),
    {
        let all = vec![
            (String::from_str("deny_ptrace"), true),
            (String::from_str("deny_execmem"), true),
            (String::from_str("secure_mode"), true),
        ];
        assert(views(all@) =~= restrictive_changes());
        let ghost names = boolean_names(views(boolean_manager.booleans@));
        let ghost keep = |c: (Seq<char>, bool)| names.contains(c.0);
        let mut r: Vec<(String, bool)> = Vec::new();
        let mut i: usize = 0;
        assert(views(all@).take(0) =~= Seq::<(Seq<char>, bool)>::empty());
        assert(views(r@) =~= Seq::<(Seq<char>, bool)>::empty());
        while i < all.len()
            invariant
                i <= all.len(),
                names == boolean_names(views(boolean_manager.booleans@)),
                keep == |c: (Seq<char>, bool)| names.contains(c.0),
                views(r@) == views(all@).take(i as int).filter(keep),
            decreases all.len() - i,
        {
            let known = boolean_manager.position(all[i].0.as_str()).is_some();
            let entry = (all[i].0.clone(), all[i].1);
            proof {
                lemma_first_index_of(names, entry@.0);
                let before = views(all@).take(i as int);
                let now = views(all@).take(i + 1);
                assert(now =~= before.push(entry@));
                lemma_filter_push(before, entry@, keep);
                lemma_views_push(r@, entry);
            }
            if known {
                r.push(entry);
            }
            i += 1;
        }
        assert(views(all@).take(all.len() as int) =~= views(all@));
        r
    }

    /// Switches the booleans of the safe defaults off in `boolean_manager`
    /// and gives the commands that set every boolean back to the value it
    /// had before.
    pub fn apply_safe_defaults(&self, boolean_manager: &mut BooleanManager) -> (r: Vec<String>)
        ensures
            views(r@) == restore_all_texts(views(old(boolean_manager).booleans@)),
            views(final(boolean_manager).booleans@) == with_values(
                views(old(boolean_manager).booleans@),
                safe_changes(),
            ),
    {
        let undo = self.generate_rollback_commands(&boolean_manager.booleans);
        let changes = self.safe_booleans();
        boolean_manager.set_booleans_persistent(&changes);
        undo
    }

    /// Switches those booleans of the restrictive policy on that
    /// `boolean_manager` knows, and gives the commands that set every
    /// boolean back to the value it had before.
    pub fn apply_restrictive_policy(&self, boolean_manager: &mut BooleanManager) -> (r: Vec<String>)
        ensures
            views(r@) == restore_all_texts(views(old(boolean_manager).booleans@)),
            views(final(boolean_manager).booleans@) == with_values(
                views(old(boolean_manager).booleans@),
                known_changes(
                    restrictive_changes(),
                    boolean_names(views(old(boolean_manager).booleans@)),
                ),
            ),
    {
        let undo = self.generate_rollback_commands(&boolean_manager.booleans);
        let changes = self.restrictive_booleans(boolean_manager);
        if changes.len() > 0 {
            boolean_manager.set_booleans_persistent(&changes);
        } else {
            assert(views(changes@) =~= Seq::<(Seq<char>, bool)>::empty());
        }
        undo
    }

    /// For each of `previous_booleans` the command that sets it to the
    /// value it has there.
    pub fn generate_rollback_commands(&self, previous_booleans: &Vec<BooleanState>) -> (r: Vec<
        String,
    >)
        ensures
            views(r@) == restore_all_texts(views(previous_booleans@)),
    {
        let mut r: Vec<String> = Vec::new();
        let mut i: usize = 0;
        while i < previous_booleans.len()
            invariant
                i <= previous_booleans.len(),
                views(r@) =~= restore_all_texts(views(previous_booleans@)).take(i as int),
            decreases previous_booleans.len() - i,
        {
            let cmd = set_boolean_command(
                previous_booleans[i].name.as_str(),
                previous_booleans[i].current_value,
            );
            proof {
                lemma_views_push(r@, cmd);
            }
            r.push(cmd);
            i += 1;
        }
        r
    }
}

} // verus!
