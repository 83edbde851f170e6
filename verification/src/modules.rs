//! Loaded policy modules.

use crate::avc::{AVCAlert, AVCAlertView};
use crate::model::{
    first_index_of,
    lemma_filter_push,
    lemma_first_index_of,
    lemma_views_push,
    views,
};
use crate::pattern::{
    collected,
    group,
    group_text,
    groups_view,
    lemma_collected_step,
    matches_view,
    matching_lines,
    pattern_compiles,
    Pattern,
    PatternError,
};
use crate::text::{lines_of, parse_i32, parsed_i32};
use vstd::prelude::*;
use vstd::string::*;

verus! {

/// One policy module: its name, whether it is enabled, and its priority.
#[derive(Debug)]
pub struct SELinuxModule {
    pub name: String,
    pub enabled: bool,
    pub priority: i32,
}

/// The mathematical value of a `SELinuxModule`.
pub struct SELinuxModuleView {
    pub name: Seq<char>,
    pub enabled: bool,
    pub priority: int,
}

impl View for SELinuxModule {
    type V = SELinuxModuleView;

    open spec fn view(&self) -> SELinuxModuleView {
        SELinuxModuleView { name: self.name@, enabled: self.enabled, priority: self.priority as int }
    }
}

impl Clone for SELinuxModule {
    fn clone(&self) -> (r: Self)
        ensures
            r@ == self@,
    {
        SELinuxModule { name: self.name.clone(), enabled: self.enabled, priority: self.priority }
    }
}

/// The text of the command that enables or disables module `name`.
pub open spec fn toggle_module_text(name: Seq<char>, enable: bool) -> Seq<char> {
    (if enable {
        "semodule -e "@
    } else {
        "semodule -d "@
    }) + name
}

/// The command that enables (`enable`) or disables module `name`.
pub fn toggle_module_command(name: &str, enable: bool) -> (r: String)
    ensures
        r@ == toggle_module_text(name@, enable),
{
    let mut r = String::from_str(
        if enable {
            "semodule -e "
        } else {
            "semodule -d "
        },
    );
    r.append(name);
    r
}

/// The names of the modules, in order.
pub open spec fn module_names(modules: Seq<SELinuxModuleView>) -> Seq<Seq<char>> {
    modules.map_values(|m: SELinuxModuleView| m.name)
}

/// The modules after the first one named `name` has been enabled or
/// disabled. Where none has this name they stay as they are.
pub open spec fn with_enabled(modules: Seq<SELinuxModuleView>, name: Seq<char>, enabled: bool) -> Seq<
    SELinuxModuleView,
> {
    let i = first_index_of(module_names(modules), name);
    if 0 <= i < modules.len() {
        modules.update(
            i,
            SELinuxModuleView { name: modules[i].name, enabled, priority: modules[i].priority },
        )
    } else {
        modules
    }
}

/// The module that a simulated installation from `path` adds.
pub open spec fn installed_module(path: Seq<char>) -> SELinuxModuleView {
    SELinuxModuleView { name: path, enabled: true, priority: 400 }
}

/// The modules that stand for the system where the interface is tried out.
pub open spec fn simulation_modules() -> Seq<SELinuxModuleView> {
    seq![
        SELinuxModuleView { name: "apache"@, enabled: true, priority: 400 },
        SELinuxModuleView { name: "mysql"@, enabled: true, priority: 400 },
    ]
}

/// The line of an audit log that reports the denial `alert`.
pub open spec fn audit_line(alert: AVCAlertView) -> Seq<char> {
    "type=AVC msg=audit("@ + alert.timestamp + "): avc: denied { "@ + alert.permission
        + " } for pid=1234 comm=\""@ + alert.comm + "\" scontext="@ + alert.source_context
        + " tcontext="@ + alert.target_context + " tclass="@ + alert.target_class + "\n"@
}

/// The audit log that reports the denials `alerts`, a line for each.
pub open spec fn audit_log(alerts: Seq<AVCAlertView>) -> Seq<char>
    decreases alerts.len(),
{
    if alerts.len() == 0 {
        Seq::empty()
    } else {
        audit_log(alerts.drop_last()) + audit_line(alerts.last())
    }
}

/// What it takes to build a policy module from denials and to install it.
#[derive(Debug, Clone)]
pub struct ModuleBuild {
    /// Whether the build is simulated: then nothing is to be done.
    pub simulation: bool,
    /// The name, in the directory for temporary files, of the file that
    /// takes the audit log.
    pub log_file: String,
    /// The audit log from which `audit2allow` makes the module.
    pub log: String,
    /// The name, in the directory for temporary files, of the package that
    /// `audit2allow` writes and `semodule` installs.
    pub package_file: String,
    /// What to report when everything has been done.
    pub message: String,
}

/// The mathematical value of a `ModuleBuild`.
pub struct ModuleBuildView {
    pub simulation: bool,
    pub log_file: Seq<char>,
    pub log: Seq<char>,
    pub package_file: Seq<char>,
    pub message: Seq<char>,
}

impl View for ModuleBuild {
    type V = ModuleBuildView;

    open spec fn view(&self) -> ModuleBuildView {
        ModuleBuildView {
            simulation: self.simulation,
            log_file: self.log_file@,
            log: self.log@,
            package_file: self.package_file@,
            message: self.message@,
        }
    }
}

/// The build of the module `name` from the audit log `log`.
pub open spec fn module_build(name: Seq<char>, log: Seq<char>, simulation: bool) -> ModuleBuildView {
    ModuleBuildView {
        simulation,
        log_file: "selab_avc_"@ + name + ".log"@,
        log,
        package_file: name + ".pp"@,
        message: if simulation {
            "Would create module "@ + name + " from AVC logs"@
        } else {
            "Module "@ + name + " created and installed successfully"@
        },
    }
}

/// Keeps the list of the loaded policy modules.
#[derive(Debug, Clone)]
pub struct ModuleManager {
    pub modules: Vec<SELinuxModule>,
}

impl ModuleManager {
    /// A manager without modules.
    pub fn new() -> (r: Self)
        ensures
            r.modules@ == Seq::<SELinuxModule>::empty(),
    {
        ModuleManager { modules: Vec::new() }
    }

    /// The position of the first module named `name`.
    pub fn position(&self, name: &str) -> (r: Option<usize>)
        ensures
            match r {
                Some(i) => i == first_index_of(module_names(views(self.modules@)), name@) && i
                    < self.modules.len(),
                None => first_index_of(module_names(views(self.modules@)), name@)
                    == self.modules.len(),
            },
    {
        let wanted = String::from_str(name);
        let ghost names = module_names(views(self.modules@));
        proof {
            lemma_first_index_of(names, name@);
        }
        let mut i: usize = 0;
        while i < self.modules.len()
            invariant
                i <= self.modules.len(),
                wanted@ == name@,
                names == module_names(views(self.modules@)),
                forall|j: int| 0 <= j < i ==> names[j] != name@,
                0 <= first_index_of(names, name@) <= names.len(),
                forall|j: int| 0 <= j < first_index_of(names, name@) ==> names[j] != name@,
                first_index_of(names, name@) < names.len() ==> names[first_index_of(names, name@)]
                    == name@,
            decreases self.modules.len() - i,
        {
            if self.modules[i].name == wanted {
                assert(names[i as int] == name@);
                return Some(i);
            }
            i += 1;
        }
        None
    }

    /// Replaces the list by the modules of the simulated system.
    pub fn load_simulation_data(&mut self)
        ensures
            views(final(self).modules@) == simulation_modules(),
    {
        self.modules = vec![
            SELinuxModule { name: String::from_str("apache"), enabled: true, priority: 400 },
            SELinuxModule { name: String::from_str("mysql"), enabled: true, priority: 400 },
        ];
        assert(views(self.modules@) =~= simulation_modules());
    }

    fn set_enabled(&mut self, name: &str, enabled: bool)
        ensures
            views(final(self).modules@) == with_enabled(views(old(self).modules@), name@, enabled),
    {
        match self.position(name) {
            Some(i) => {
                let ghost before = self.modules@;
                self.modules[i].enabled = enabled;
                assert(views(self.modules@) =~= with_enabled(views(before), name@, enabled));
            },
            None => {},
        }
    }

    /// Notes that the module `name` is now enabled.
    pub fn enable_module(&mut self, name: &str)
        ensures
            views(final(self).modules@) == with_enabled(views(old(self).modules@), name@, true),
    {
        self.set_enabled(name, true);
    }

    /// Notes that the module `name` is now disabled.
    pub fn disable_module(&mut self, name: &str)
        ensures
            views(final(self).modules@) == with_enabled(views(old(self).modules@), name@, false),
    {
        self.set_enabled(name, false);
    }

    /// Adds the module that a simulated installation from `path` brings:
    /// enabled, of priority 400, and named as the path.
    pub fn install_module(&mut self, path: &str)
        ensures
            views(final(self).modules@) == views(old(self).modules@).push(installed_module(path@)),
    {
        let module = SELinuxModule { name: String::from_str(path), enabled: true, priority: 400 };
        proof {
            lemma_views_push(self.modules@, module);
        }
        self.modules.push(module);
    }

    /// Drops every module named `name`.
    pub fn remove_module(&mut self, name: &str)
        ensures
            views(final(self).modules@) == views(old(self).modules@).filter(
                |m: SELinuxModuleView| m.name != name@,
            ),
    {
        let wanted = String::from_str(name);
        let ghost keep = |m: SELinuxModuleView| m.name != name@;
        let ghost all = views(self.modules@);
        let mut kept: Vec<SELinuxModule> = Vec::new();
        let mut rest: Vec<SELinuxModule> = Vec::new();
        std::mem::swap(&mut rest, &mut self.modules);
        let mut i: usize = 0;
        let n = rest.len();
        assert(all.take(0) =~= Seq::<SELinuxModuleView>::empty());
        assert(views(kept@) =~= Seq::<SELinuxModuleView>::empty());
        while i < n
            invariant
                i <= n,
                n == rest.len(),
                wanted@ == name@,
                keep == |m: SELinuxModuleView| m.name != name@,
                all.len() == n,
                forall|k: int| i <= k < n ==> rest@[k]@ == all[k],
                views(kept@) == all.take(i as int).filter(keep),
            decreases n - i,
        {
            let mut module = SELinuxModule { name: String::new(), enabled: false, priority: 0 };
            std::mem::swap(&mut module, &mut rest[i]);
            proof {
                assert(all.take(i + 1) =~= all.take(i as int).push(module@));
                lemma_filter_push(all.take(i as int), module@, keep);
                lemma_views_push(kept@, module);
            }
            if module.name != wanted {
                kept.push(module);
            }
            i += 1;
        }
        assert(all.take(n as int) =~= all);
        self.modules = kept;
    }

    /// The audit log that reports `alerts`.
    pub fn audit_log_of(alerts: &Vec<AVCAlert>) -> (r: String)
        ensures
            r@ == audit_log(views(alerts@)),
    {
        let mut log_content = String::new();
        let mut i: usize = 0;
        assert(views(alerts@).take(0) =~= Seq::<AVCAlertView>::empty());
        while i < alerts.len()
            invariant
                i <= alerts.len(),
                log_content@ == audit_log(views(alerts@).take(i as int)),
            decreases alerts.len() - i,
        {
            proof {
                assert(views(alerts@).take(i + 1).drop_last() =~= views(alerts@).take(i as int));
                assert(views(alerts@).take(i + 1).last() == alerts@[i as int]@);
            }
            let alert = &alerts[i];
            let ghost before = log_content@;
            log_content.append("type=AVC msg=audit(");
            log_content.append(alert.timestamp.as_str());
            log_content.append("): avc: denied { ");
            log_content.append(alert.permission.as_str());
            log_content.append(" } for pid=1234 comm=\"");
            log_content.append(alert.comm.as_str());
            log_content.append("\" scontext=");
            log_content.append(alert.source_context.as_str());
            log_content.append(" tcontext=");
            log_content.append(alert.target_context.as_str());
            log_content.append(" tclass=");
            log_content.append(alert.target_class.as_str());
            log_content.append("\n");
            assert(log_content@ =~= before + audit_line(alert@));
            i += 1;
        }
        assert(views(alerts@).take(alerts.len() as int) =~= views(alerts@));
        log_content
    }

    /// What it takes to build the module `module_name` from the audit log
    /// `avc_logs` and to install it.
    pub fn create_module_from_avc(&self, module_name: &str, avc_logs: &str, simulation: bool) -> (r:
        ModuleBuild)
        ensures
            r@ == module_build(module_name@, avc_logs@, simulation),
    {
        let mut log_file = String::from_str("selab_avc_");
        log_file.append(module_name);
        log_file.append(".log");
        let mut package_file = String::from_str(module_name);
        package_file.append(".pp");
        let message = if simulation {
            let mut m = String::from_str("Would create module ");
            m.append(module_name);
            m.append(" from AVC logs");
            m
        } else {
            let mut m = String::from_str("Module ");
            m.append(module_name);
            m.append(" created and installed successfully");
            m
        };
        ModuleBuild { simulation, log_file, log: String::from_str(avc_logs), package_file, message }
    }

    /// What it takes to build the module `module_name` from the denials
    /// `alerts` and to install it.
    pub fn create_module_from_alerts(
        &self,
        module_name: &str,
        alerts: &Vec<AVCAlert>,
        simulation: bool,
    ) -> (r: ModuleBuild)
        ensures
            r@ == module_build(module_name@, audit_log(views(alerts@)), simulation),
    {
        let log_content = Self::audit_log_of(alerts);
        self.create_module_from_avc(module_name, log_content.as_str(), simulation)
    }
}

/// The pattern of a line of the module listing: a name and a priority.
pub open spec fn module_pattern() -> Seq<char> {
    "^(\\S+)\\s+(\\d+)\\s*"@
}

/// The module that a match of the listing's pattern stands for: enabled,
/// named by the first group, with the priority that the second group
/// writes, or 400 where it writes none that fits. A match without the first
/// group stands for none.
pub open spec fn module_of_match(groups: Seq<Option<Seq<char>>>) -> Option<SELinuxModuleView> {
    match group_text(groups, 1) {
        Some(name) => Some(
            SELinuxModuleView {
                name,
                enabled: true,
                priority: match group_text(groups, 2) {
                    Some(digits) => match parsed_i32(digits) {
                        Some(p) => p as int,
                        None => 400,
                    },
                    None => 400,
                },
            },
        ),
        None => None,
    }
}

/// `module_of_match` as a function value.
pub open spec fn read_module() -> spec_fn(Seq<Option<Seq<char>>>) -> Option<SELinuxModuleView> {
    |groups: Seq<Option<Seq<char>>>| module_of_match(groups)
}

impl ModuleManager {
    /// The module that the groups of one match of the listing stand for.
    pub fn module_of(groups: &Vec<Option<String>>) -> (r: Option<SELinuxModule>)
        ensures
            match r {
                Some(m) => module_of_match(groups_view(groups@)) == Some(m@),
                None => module_of_match(groups_view(groups@)) is None,
            },
    {
        match group(groups, 1) {
            Some(name) => {
                let priority: i32 = match group(groups, 2) {
                    Some(digits) => match parse_i32(digits.as_str()) {
                        Some(p) => p,
                        None => 400,
                    },
                    None => 400,
                };
                Some(SELinuxModule { name, enabled: true, priority })
            },
            None => None,
        }
    }

    /// The modules that the matches of the listing stand for, in order.
    pub fn modules_of(matches: &Vec<Vec<Option<String>>>) -> (r: Vec<SELinuxModule>)
        ensures
            views(r@) == collected(matches_view(matches@), read_module()),
    {
        let mut r: Vec<SELinuxModule> = Vec::new();
        let mut i: usize = 0;
        let ghost all = matches_view(matches@);
        assert(all.take(0) =~= Seq::<Seq<Option<Seq<char>>>>::empty());
        assert(views(r@) =~= Seq::<SELinuxModuleView>::empty());
        while i < matches.len()
            invariant
                i <= matches.len(),
                all == matches_view(matches@),
                views(r@) == collected(all.take(i as int), read_module()),
            decreases matches.len() - i,
        {
            proof {
                lemma_collected_step(all, read_module(), i as int);
            }
            match Self::module_of(&matches[i]) {
                Some(module) => {
                    proof {
                        lemma_views_push(r@, module);
                    }
                    r.push(module);
                },
                None => {},
            }
            i += 1;
        }
        assert(all.take(matches.len() as int) =~= all);
        r
    }

    /// Replaces the list by the modules that `listing`, the output of the
    /// module listing, reports. Fails, and leaves the list as it is, exactly
    /// where the pattern of the listing is not accepted.
    pub fn load_modules(&mut self, listing: &str) -> (r: Result<(), PatternError>)
        ensures
            r is Ok <==> pattern_compiles(module_pattern()),
            r is Ok ==> views(final(self).modules@) == collected(
                matching_lines(module_pattern(), lines_of(listing@)),
                read_module(),
            ),
            r is Err ==> final(self).modules == old(self).modules,
    {
        let pattern = match Pattern::new("^(\\S+)\\s+(\\d+)\\s*") {
            Ok(p) => p,
            Err(e) => {
                return Err(e);
            },
        };
        let matches = pattern.line_matches(listing);
        self.modules = Self::modules_of(&matches);
        Ok(())
    }
}

} // verus!
